use vstd::prelude::*;
use crate::InputState;

verus! {

/// Which of the two button groups the program has selected for reading.
#[derive(Clone, Copy, Debug, PartialEq, Eq, Structural)]
pub enum InputSelection {
    Neither,
    Buttons,
    DPad,
    Both,
}

impl InputSelection {
    /// Whether the action buttons (A, B, Select, Start) are selected.
    pub open spec fn buttons(self) -> bool {
        self == InputSelection::Buttons || self == InputSelection::Both
    }

    /// Whether the direction buttons are selected.
    pub open spec fn directions(self) -> bool {
        self == InputSelection::DPad || self == InputSelection::Both
    }

    /// Bits 5 and 4 of the register. A group is selected by a zero: bit 5
    /// stands for the action buttons, bit 4 for the directions.
    pub open spec fn select_bits(self) -> u8 {
        match self {
            InputSelection::Neither => 0b0011_0000,
            InputSelection::Buttons => 0b0001_0000,
            InputSelection::DPad => 0b0010_0000,
            InputSelection::Both => 0b0000_0000,
        }
    }

    /// The selection that a byte written to the register makes.
    pub open spec fn of_byte(value: u8) -> InputSelection {
        let buttons = (value / 32) % 2 == 0;
        let directions = (value / 16) % 2 == 0;
        if buttons && directions {
            InputSelection::Both
        } else if buttons {
            InputSelection::Buttons
        } else if directions {
            InputSelection::DPad
        } else {
            InputSelection::Neither
        }
    }
}

/// Whether the action button on input line `line` is held: A, B, Select and
/// Start are on lines 0 to 3.
pub open spec fn button_on_line(state: InputState, line: int) -> bool {
    if line == 0 {
        state.a_pressed
    } else if line == 1 {
        state.b_pressed
    } else if line == 2 {
        state.select_pressed
    } else {
        state.start_pressed
    }
}

/// Whether the direction on input line `line` is held: right, left, up and
/// down are on lines 0 to 3.
pub open spec fn direction_on_line(state: InputState, line: int) -> bool {
    if line == 0 {
        state.dpad_state.points_right()
    } else if line == 1 {
        state.dpad_state.points_left()
    } else if line == 2 {
        state.dpad_state.points_up()
    } else {
        state.dpad_state.points_down()
    }
}

/// Whether input line `line` is pulled low: a button of a selected group
/// that sits on the line is held.
pub open spec fn line_low(selection: InputSelection, state: InputState, line: int) -> bool {
    (selection.buttons() && button_on_line(state, line)) || (selection.directions()
        && direction_on_line(state, line))
}

/// The low nibble of the register: bit `line` is one while the line is high,
/// that is while nothing selected on it is held.
pub open spec fn low_nibble(selection: InputSelection, state: InputState) -> u8 {
    ((if line_low(selection, state, 0) { 0int } else { 1 }) + (if line_low(selection, state, 1) {
        0int
    } else {
        2
    }) + (if line_low(selection, state, 2) { 0int } else { 4 }) + (if line_low(
        selection,
        state,
        3,
    ) { 0int } else { 8 })) as u8
}

/// Whether some input line went from high to low between two inputs.
pub open spec fn newly_low(selection: InputSelection, before: InputState, now: InputState) -> bool {
    exists|line: int|
        0 <= line < 4 && !#[trigger] line_low(selection, before, line) && line_low(
            selection,
            now,
            line,
        )
}

/// A button that is held is reported once: when the inputs of two steps in
/// a row are the same, the second step reports no press.
pub proof fn press_is_reported_once(joypad: JoypadInputView, inputs: InputState)
    ensures
        !joypad.update(inputs).update(inputs).changed(),
{
}

/// A button of a selected group that goes down is reported: the line that
/// it sits on goes from high to low.
pub proof fn press_is_reported(joypad: JoypadInputView, inputs: InputState, line: int)
    requires
        0 <= line < 4,
        !line_low(joypad.selection, joypad.inputs, line),
        line_low(joypad.selection, inputs, line),
    ensures
        joypad.update(inputs).changed(),
{
}

/// The joypad port.
#[derive(Clone, Copy)]
pub struct JoypadInput {
    selection: InputSelection,
    inputs: InputState,
    previous_inputs: InputState,
}

/// What a [`JoypadInput`] holds.
pub struct JoypadInputView {
    /// The groups selected for reading.
    pub selection: InputSelection,
    /// The inputs of this step.
    pub inputs: InputState,
    /// The inputs of the step before.
    pub previous_inputs: InputState,
}

impl JoypadInputView {
    pub open spec fn power_on() -> Self {
        JoypadInputView {
            selection: InputSelection::Neither,
            inputs: InputState::released(),
            previous_inputs: InputState::released(),
        }
    }

    /// What a read of the register gives: the two unused bits read as one,
    /// then the selection, then the input lines.
    pub open spec fn register(self) -> u8 {
        (0b1100_0000 + self.selection.select_bits() + low_nibble(self.selection, self.inputs)) as u8
    }

    /// The port once the inputs of a new step have arrived.
    pub open spec fn update(self, inputs: InputState) -> Self {
        JoypadInputView { inputs, previous_inputs: self.inputs, ..self }
    }

    /// Whether a selected button was pressed between the last two inputs.
    pub open spec fn changed(self) -> bool {
        newly_low(self.selection, self.previous_inputs, self.inputs)
    }
}

impl View for JoypadInput {
    type V = JoypadInputView;

    closed spec fn view(&self) -> JoypadInputView {
        JoypadInputView {
            selection: self.selection,
            inputs: self.inputs,
            previous_inputs: self.previous_inputs,
        }
    }
}

fn selects_buttons(selection: InputSelection) -> (selected: bool)
    ensures
        selected == selection.buttons(),
{
    match selection {
        InputSelection::Buttons | InputSelection::Both => true,
        _ => false,
    }
}

fn selects_directions(selection: InputSelection) -> (selected: bool)
    ensures
        selected == selection.directions(),
{
    match selection {
        InputSelection::DPad | InputSelection::Both => true,
        _ => false,
    }
}

fn line_is_low(selection: InputSelection, state: InputState, line: u8) -> (low: bool)
    requires
        line < 4,
    ensures
        low == line_low(selection, state, line as int),
{
    let button = match line {
        0 => state.a_pressed,
        1 => state.b_pressed,
        2 => state.select_pressed,
        _ => state.start_pressed,
    };
    let direction = match line {
        0 => state.dpad_state.is_right(),
        1 => state.dpad_state.is_left(),
        2 => state.dpad_state.is_up(),
        _ => state.dpad_state.is_down(),
    };
    (selects_buttons(selection) && button) || (selects_directions(selection) && direction)
}

impl JoypadInput {
    pub fn new() -> (joypad: Self)
        ensures
            joypad@ == JoypadInputView::power_on(),
    {
        Self {
            selection: InputSelection::Neither,
            inputs: InputState::empty(),
            previous_inputs: InputState::empty(),
        }
    }

    /// Takes the inputs of a new step. Returns whether a selected button was
    /// pressed since the step before, which asks for the joypad interrupt.
    pub fn step(&mut self, input_state: InputState) -> (pressed: bool)
        ensures
            final(self)@ == old(self)@.update(input_state),
            pressed == old(self)@.update(input_state).changed(),
    {
        self.update_inputs(input_state);
        self.input_changed()
    }

    /// Whether an input line went from high to low between the last two inputs.
    pub fn input_changed(&self) -> (changed: bool)
        ensures
            changed == self@.changed(),
    {
        let mut line: u8 = 0;
        while line < 4
            invariant
                line <= 4,
                forall|k: int|
                    0 <= k < line ==> !(!#[trigger] line_low(
                        self.selection,
                        self.previous_inputs,
                        k,
                    ) && line_low(self.selection, self.inputs, k)),
            decreases 4 - line,
        {
            if !line_is_low(self.selection, self.previous_inputs, line) && line_is_low(
                self.selection,
                self.inputs,
                line,
            ) {
                return true;
            }
            line += 1;
        }
        false
    }

    pub fn update_inputs(&mut self, input_state: InputState)
        ensures
            final(self)@ == old(self)@.update(input_state),
    {
        self.previous_inputs = self.inputs;
        self.inputs = input_state;
    }

    /// A write to the register: bits 5 and 4 select the groups to read.
    pub fn write(&mut self, value: u8)
        ensures
            final(self)@ == (JoypadInputView {
                selection: InputSelection::of_byte(value),
                ..old(self)@
            }),
    {
        let buttons = (value / 32) % 2 == 0;
        let directions = (value / 16) % 2 == 0;
        self.selection = if buttons && directions {
            InputSelection::Both
        } else if buttons {
            InputSelection::Buttons
        } else if directions {
            InputSelection::DPad
        } else {
            InputSelection::Neither
        };
    }

    pub fn read(&self) -> (value: u8)
        ensures
            value == self@.register(),
    {
        self.read_state(self.inputs)
    }

    fn read_state(&self, state: InputState) -> (value: u8)
        ensures
            value == 0b1100_0000 + self.selection.select_bits() + low_nibble(self.selection, state),
    {
        let select: u8 = match self.selection {
            InputSelection::Neither => 0b0011_0000,
            InputSelection::Buttons => 0b0001_0000,
            InputSelection::DPad => 0b0010_0000,
            InputSelection::Both => 0b0000_0000,
        };
        let l0: u8 = if line_is_low(self.selection, state, 0) { 0 } else { 1 };
        let l1: u8 = if line_is_low(self.selection, state, 1) { 0 } else { 2 };
        let l2: u8 = if line_is_low(self.selection, state, 2) { 0 } else { 4 };
        let l3: u8 = if line_is_low(self.selection, state, 3) { 0 } else { 8 };
        0b1100_0000 + select + l0 + l1 + l2 + l3
    }
}

} // verus!
