use vstd::prelude::*;
use vstd::std_specs::convert::FromSpecImpl;
use crate::io::interrupts::Interrupt;
use crate::io::lcd::{Color, Lcd, LcdView, ObjSize, Palette};
use oam::{object_in, ObjectAttributeMemory, ObjectAttributes, ObjectAttributesView, PaletteSelection};
use vram::{map_entry, tile_bytes, tile_color, ColorId, TileId, Vram};

pub mod laws;
pub mod oam;
pub mod vram;

verus! {

pub const DISPLAY_HEIGHT_PIXELS: usize = 144;

pub const DISPLAY_WIDTH_PIXELS: usize = 160;

pub const TOTAL_PIXELS: usize = 23040;

/// The clock cycles that a line of the display takes.
pub const SCANLINE_DOTS_LENGTH: usize = 456;

/// The clock cycles that a line of the display takes.
pub const SCANLINE_CYCLES_LENGTH: usize = 456;

/// The lines of a frame, the ten lines of the vertical blank included.
pub const SCANLINES_PER_FRAME: usize = 154;

/// The clock cycles that a frame takes.
pub const FRAME_CYCLES_LENGTH: usize = 70224;

/// The first line of the vertical blank.
pub const VBLANK_START_SCANLINE: usize = 144;

/// The clock cycles of a line that the object scan takes.
pub const OAM_SCAN_CYCLES_LENGTH: usize = 80;

/// The clock cycles of a line that drawing its pixels takes.
pub const PIXEL_DRAW_CYCLES_LENGTH: usize = 172;

/// The objects that can be shown on one line.
pub const OBJECTS_PER_LINE: usize = 10;

/// The four phases that the pixel processing unit moves through.
#[derive(Clone, Copy, Debug, PartialEq, Eq, Structural)]
pub enum PpuMode {
    /// Horizontal blank, mode 0.
    HBlank,
    /// Vertical blank, mode 1.
    VBlank,
    /// Object attribute memory scan, mode 2.
    OAMScan,
    /// Pixel drawing, mode 3.
    PixelDraw,
}

impl PpuMode {
    /// The number of the mode, as the status register shows it.
    pub open spec fn number(self) -> u8 {
        match self {
            PpuMode::HBlank => 0,
            PpuMode::VBlank => 1,
            PpuMode::OAMScan => 2,
            PpuMode::PixelDraw => 3,
        }
    }

    /// The mode at clock cycle `position` of line `line`: the lines from 144
    /// on are the vertical blank; a line before them starts with the object
    /// scan, draws its pixels, and rests in the horizontal blank.
    pub open spec fn at(line: int, position: int) -> PpuMode {
        if line >= VBLANK_START_SCANLINE {
            PpuMode::VBlank
        } else if position < OAM_SCAN_CYCLES_LENGTH {
            PpuMode::OAMScan
        } else if position < OAM_SCAN_CYCLES_LENGTH + PIXEL_DRAW_CYCLES_LENGTH {
            PpuMode::PixelDraw
        } else {
            PpuMode::HBlank
        }
    }
}

impl From<PpuMode> for u8 {
    fn from(value: PpuMode) -> (number: u8) {
        match value {
            PpuMode::HBlank => 0,
            PpuMode::VBlank => 1,
            PpuMode::OAMScan => 2,
            PpuMode::PixelDraw => 3,
        }
    }
}

impl FromSpecImpl<PpuMode> for u8 {
    open spec fn obeys_from_spec() -> bool {
        true
    }

    open spec fn from_spec(value: PpuMode) -> u8 {
        value.number()
    }
}

/// What a pixel of the screen shows: one of the four shades, or the blank of
/// a display that is switched off.
#[derive(Clone, Copy, Debug, PartialEq, Eq, Structural)]
pub enum Shade {
    Lightest,
    Lighter,
    Darker,
    Darkest,
    Off,
}

impl Shade {
    /// The shade that shows a color of a palette.
    pub open spec fn of_color(color: Color) -> Shade {
        match color {
            Color::White => Shade::Lightest,
            Color::LightGray => Shade::Lighter,
            Color::DarkGray => Shade::Darker,
            Color::Black => Shade::Darkest,
        }
    }

    /// The red, green and blue parts of the shade.
    pub open spec fn components(self) -> (u8, u8, u8) {
        match self {
            Shade::Lightest => (224, 248, 208),
            Shade::Lighter => (136, 192, 112),
            Shade::Darker => (52, 104, 86),
            Shade::Darkest => (8, 24, 32),
            Shade::Off => (234, 255, 218),
        }
    }

    /// The red, green and blue parts of the shade.
    pub fn rgb(self) -> (rgb: (u8, u8, u8))
        ensures
            rgb == self.components(),
    {
        match self {
            Shade::Lightest => (224, 248, 208),
            Shade::Lighter => (136, 192, 112),
            Shade::Darker => (52, 104, 86),
            Shade::Darkest => (8, 24, 32),
            Shade::Off => (234, 255, 218),
        }
    }
}

/// The color that `palette` shows the color id `id` in.
pub open spec fn palette_color(palette: Palette, id: ColorId) -> Color {
    match id {
        ColorId::Zero => palette.id0,
        ColorId::One => palette.id1,
        ColorId::Two => palette.id2,
        ColorId::Three => palette.id3,
    }
}

/// The background's color id at column `x` of line `line`, or zero while the
/// background is switched off. The screen is a window of 160 by 144 pixels
/// onto a plane of 256 by 256 that wraps around, scrolled by SCX and SCY.
pub open spec fn background_id(vram: Seq<u8>, lcd: LcdView, line: int, x: int) -> ColorId {
    let view_y = (lcd.scroll_y + line) % 256;
    let view_x = (lcd.scroll_x + x) % 256;
    let entry = map_entry(vram, lcd.control.bg_tile_map, (view_y / 8) * 32 + view_x / 8);
    let tile = tile_bytes(vram, TileId::index_in(lcd.control.bg_and_window_data, entry));
    if lcd.control.bg_and_window_enable {
        tile_color(tile, view_y % 8, view_x % 8)
    } else {
        ColorId::Zero
    }
}

/// Whether the window is drawn on line `line`.
pub open spec fn window_on_line(lcd: LcdView, line: int) -> bool {
    lcd.control.window_enable && lcd.window_x <= 166 && lcd.window_y <= line
}

/// Whether the window covers column `x` of line `line`. Its left edge is at
/// column WX - 7.
pub open spec fn window_covers(lcd: LcdView, line: int, x: int) -> bool {
    window_on_line(lcd, line) && x + 7 >= lcd.window_x
}

/// The window's color id at column `x`, where the window covers it.
/// `window_line` is the line of the window that is shown: the window counts
/// its own lines.
pub open spec fn window_id(vram: Seq<u8>, lcd: LcdView, window_line: int, x: int) -> ColorId {
    let window_x = x + 7 - lcd.window_x;
    let entry = map_entry(vram, lcd.control.window_tile_map, (window_line / 8) * 32 + window_x / 8);
    let tile = tile_bytes(vram, TileId::index_in(lcd.control.bg_and_window_data, entry));
    tile_color(tile, window_line % 8, window_x % 8)
}

/// The color id under the objects at column `x` of line `line`: that of the
/// window where the window covers the column, else that of the background.
pub open spec fn layer_id(vram: Seq<u8>, lcd: LcdView, window_line: int, line: int, x: int) -> ColorId {
    if window_covers(lcd, line, x) {
        window_id(vram, lcd, window_line, x)
    } else {
        background_id(vram, lcd, line, x)
    }
}

/// The height of the objects in lines.
pub open spec fn object_height(lcd: LcdView) -> int {
    match lcd.control.obj_size {
        ObjSize::Single => 8,
        ObjSize::Double => 16,
    }
}

/// The slots of the objects that are shown on line `line`, among the first
/// `count` slots: those whose rows cover the line, in the order of their
/// slots, and no more than ten of them.
pub open spec fn selected_objects(oam: Seq<u8>, line: int, height: int, count: nat) -> Seq<int>
    decreases count,
{
    if count == 0 {
        Seq::empty()
    } else {
        let before = selected_objects(oam, line, height, (count - 1) as nat);
        if before.len() < OBJECTS_PER_LINE && object_in(oam, count - 1).covers_line(line, height) {
            before.push(count - 1)
        } else {
            before
        }
    }
}

/// The color id of `object` at column `x` of line `line`, where the object
/// covers both. The flips mirror the object; a tall object is made of two
/// tiles, one above the other.
pub open spec fn object_id(vram: Seq<u8>, object: ObjectAttributesView, height: int, line: int, x: int) -> ColorId {
    let flags = object.flags();
    let row = if flags.y_flip {
        height - 1 - (line + 16 - object.y_position)
    } else {
        line + 16 - object.y_position
    };
    let column = if flags.x_flip {
        7 - (x + 8 - object.x_position)
    } else {
        x + 8 - object.x_position
    };
    let tile = if height == 16 {
        if row < 8 {
            TileId(object.tile_index).double().0
        } else {
            TileId(object.tile_index).double().1
        }
    } else {
        TileId(object.tile_index)
    };
    tile_color(tile_bytes(vram, tile.0 as int), row % 8, column)
}

/// Whether `object` puts a pixel at column `x` of line `line`, which it
/// covers: its color id there is not zero, which is transparent, and it does
/// not yield to a color id under it that is not zero.
pub open spec fn object_paints(vram: Seq<u8>, object: ObjectAttributesView, height: int, line: int, x: int, under: ColorId) -> bool {
    object.covers_column(x) && object_id(vram, object, height, line, x) != ColorId::Zero && !(
    object.flags().priority && under != ColorId::Zero)
}

/// The slot of the object that is seen at column `x`, among the first
/// `count` of the slots `objects`: of the objects that put a pixel there,
/// the one that is furthest to the left, and of two at the same column the
/// one that comes first.
pub open spec fn front_object(vram: Seq<u8>, oam: Seq<u8>, objects: Seq<int>, count: nat, height: int, line: int, x: int, under: ColorId) -> Option<int>
    decreases count,
{
    if count == 0 {
        None
    } else {
        let before = front_object(vram, oam, objects, (count - 1) as nat, height, line, x, under);
        let slot = objects[count - 1];
        let object = object_in(oam, slot);
        if object_paints(vram, object, height, line, x, under) && (before is None || object.x_position
            < object_in(oam, before->Some_0).x_position) {
            Some(slot)
        } else {
            before
        }
    }
}

/// The palette that `object` is shown in.
pub open spec fn object_palette(lcd: LcdView, object: ObjectAttributesView) -> Palette {
    match object.flags().palette {
        PaletteSelection::Pallete0 => lcd.obj_palette_0,
        PaletteSelection::Pallete1 => lcd.obj_palette_1,
    }
}

/// The shade of the pixel at column `x` of line `line`: that of the object
/// that is seen there, if the objects are switched on and there is one,
/// else that of the window or the background.
pub open spec fn pixel_shade(vram: Seq<u8>, oam: Seq<u8>, lcd: LcdView, window_line: int, line: int, x: int) -> Shade {
    let under = layer_id(vram, lcd, window_line, line, x);
    let height = object_height(lcd);
    let objects = selected_objects(oam, line, height, 40);
    let front = front_object(vram, oam, objects, objects.len(), height, line, x, under);
    if lcd.control.obj_enable && front is Some {
        let object = object_in(oam, front->Some_0);
        Shade::of_color(
            palette_color(object_palette(lcd, object), object_id(vram, object, height, line, x)),
        )
    } else {
        Shade::of_color(palette_color(lcd.background_palette, under))
    }
}

/// The pixels of the screen once line `line` has been drawn.
pub open spec fn with_line_drawn(pixels: Seq<Shade>, vram: Seq<u8>, oam: Seq<u8>, lcd: LcdView, window_line: int, line: int) -> Seq<Shade> {
    Seq::new(
        TOTAL_PIXELS as nat,
        |i: int|
            if line * 160 <= i < line * 160 + 160 {
                pixel_shade(vram, oam, lcd, window_line, line, i - line * 160)
            } else {
                pixels[i]
            },
    )
}

/// The frame of a display that is switched off.
#[derive(Clone, Copy)]
struct BlankFrame {
    pixels: [Shade; TOTAL_PIXELS],
}

impl BlankFrame {
    #[verifier::type_invariant]
    spec fn is_blank(self) -> bool {
        forall|i: int| 0 <= i < TOTAL_PIXELS ==> self.pixels[i] == Shade::Off
    }

    fn new() -> (frame: Self)
        ensures
            frame@ == Seq::new(TOTAL_PIXELS as nat, |i: int| Shade::Off),
    {
        let frame = Self { pixels: [Shade::Off; TOTAL_PIXELS] };
        assert(frame@ =~= Seq::new(TOTAL_PIXELS as nat, |i: int| Shade::Off));
        frame
    }

    fn pixels(&self) -> (pixels: &[Shade; TOTAL_PIXELS])
        ensures
            pixels@ == self@,
            pixels@ == Seq::new(TOTAL_PIXELS as nat, |i: int| Shade::Off),
    {
        proof {
            use_type_invariant(self);
        }
        assert(self.pixels@ =~= Seq::new(TOTAL_PIXELS as nat, |i: int| Shade::Off));
        &self.pixels
    }
}

impl View for BlankFrame {
    type V = Seq<Shade>;

    closed spec fn view(&self) -> Seq<Shade> {
        self.pixels@
    }
}

const OBJECT_COUNT_USIZE: usize = 40;

/// Every slot that is selected for a line holds an object that covers it.
proof fn selected_objects_cover(oam: Seq<u8>, line: int, height: int, count: nat)
    ensures
        selected_objects(oam, line, height, count).len() <= count,
        selected_objects(oam, line, height, count).len() <= OBJECTS_PER_LINE,
        forall|j: int|
            0 <= j < selected_objects(oam, line, height, count).len() ==> object_in(
                oam,
                #[trigger] selected_objects(oam, line, height, count)[j],
            ).covers_line(line, height),
    decreases count,
{
    if count > 0 {
        selected_objects_cover(oam, line, height, (count - 1) as nat);
    }
}

fn window_is_on_line(lcd: &Lcd, line: u8) -> (on_line: bool)
    ensures
        on_line == window_on_line(lcd@, line as int),
{
    lcd.control().window_enabled() && lcd.read_window_x() <= 166 && lcd.read_window_y() <= line
}

fn shade_of(palette: Palette, id: ColorId) -> (shade: Shade)
    ensures
        shade == Shade::of_color(palette_color(palette, id)),
{
    let color = match id {
        ColorId::Zero => palette.id0,
        ColorId::One => palette.id1,
        ColorId::Two => palette.id2,
        ColorId::Three => palette.id3,
    };
    match color {
        Color::White => Shade::Lightest,
        Color::LightGray => Shade::Lighter,
        Color::DarkGray => Shade::Darker,
        Color::Black => Shade::Darkest,
    }
}

/// The pixel processing unit with its video RAM, its object attribute
/// memory and the frame that it draws.
#[derive(Clone, Copy)]
pub struct Ppu {
    vram: Vram,
    oam: ObjectAttributeMemory,
    pixel_buffer: [Shade; TOTAL_PIXELS],
    off_display: BlankFrame,
    current_cycles: u32,
    current_scanline: u8,
    window_line: u8,
}

/// What a [`Ppu`] holds.
pub struct PpuView {
    /// The 8192 bytes of video RAM.
    pub vram: Seq<u8>,
    /// The 160 bytes of object attribute memory.
    pub oam: Seq<u8>,
    /// The pixels of the frame, line after line.
    pub pixels: Seq<Shade>,
    /// The clock cycles since the frame began.
    pub current_cycles: u32,
    /// The line that the unit was on after its last step.
    pub current_scanline: u8,
    /// The line of the window that is drawn next.
    pub window_line: u8,
}

/// What a step of the pixel processing unit gives.
pub struct PpuStep {
    pub ppu: PpuView,
    pub lcd: LcdView,
    /// The vertical blank interrupt, where the step asks for it.
    pub vblank: Option<Interrupt>,
    /// The display interrupt, where the step asks for it.
    pub lcd_interrupt: Option<Interrupt>,
    /// Whether the step completed a frame.
    pub new_frame: bool,
}

impl PpuView {
    pub open spec fn power_on() -> Self {
        PpuView {
            vram: Seq::new(8192, |i: int| 0u8),
            oam: Seq::new(160, |i: int| 0u8),
            pixels: Seq::new(TOTAL_PIXELS as nat, |i: int| Shade::Lightest),
            current_cycles: 0,
            current_scanline: 0,
            window_line: 0,
        }
    }

    /// The frame as the screen shows it: a display that is switched off is
    /// blank.
    pub open spec fn shown(self, lcd: LcdView) -> Seq<Shade> {
        if lcd.control.lcd_and_ppu_enable {
            self.pixels
        } else {
            Seq::new(TOTAL_PIXELS as nat, |i: int| Shade::Off)
        }
    }

    /// The unit and the display registers after `cycles` clock cycles.
    ///
    /// A display that is switched off rests at the start of line 0 in the
    /// horizontal blank. Otherwise the position in the frame moves on and
    /// gives the line, which goes to LY, and the mode. A change of mode asks
    /// for the display interrupt where the status register selects the new
    /// mode, and entering the vertical blank asks for its own interrupt and
    /// completes the frame. Entering the horizontal blank draws the line. A
    /// new line that matches LYC asks for the display interrupt where the
    /// status register selects that.
    pub open spec fn step(self, lcd: LcdView, cycles: usize) -> PpuStep {
        if !lcd.control.lcd_and_ppu_enable {
            PpuStep {
                ppu: PpuView { current_cycles: 0, current_scanline: 0, window_line: 0, ..self },
                lcd: lcd.with_lcd_y(0).with_mode(PpuMode::HBlank),
                vblank: None,
                lcd_interrupt: None,
                new_frame: false,
            }
        } else {
            let position = (self.current_cycles + cycles) % (FRAME_CYCLES_LENGTH as int);
            let line = position / (SCANLINE_CYCLES_LENGTH as int);
            let old_mode = lcd.status.ppu_mode;
            let new_mode = PpuMode::at(line, position % (SCANLINE_CYCLES_LENGTH as int));
            let on_line = lcd.with_lcd_y(line as u8);
            let enters_vblank = new_mode == PpuMode::VBlank && old_mode != PpuMode::VBlank;
            let draws = new_mode == PpuMode::HBlank && old_mode != PpuMode::HBlank;
            let mode_interrupt = new_mode != old_mode && lcd.status.mode_selected(new_mode);
            let line_interrupt = self.current_scanline != line && on_line.status.lyc_interrupt_select
                && on_line.status.lyc_equals_ly;
            PpuStep {
                ppu: PpuView {
                    pixels: if draws {
                        with_line_drawn(
                            self.pixels,
                            self.vram,
                            self.oam,
                            on_line,
                            self.window_line as int,
                            line,
                        )
                    } else {
                        self.pixels
                    },
                    current_cycles: position as u32,
                    current_scanline: line as u8,
                    window_line: if enters_vblank {
                        0
                    } else if draws && window_on_line(on_line, line) {
                        ((self.window_line + 1) % 256) as u8
                    } else {
                        self.window_line
                    },
                    ..self
                },
                lcd: on_line.with_mode(new_mode),
                vblank: if enters_vblank {
                    Some(Interrupt::VBlank)
                } else {
                    None
                },
                lcd_interrupt: if mode_interrupt || line_interrupt {
                    Some(Interrupt::Lcd)
                } else {
                    None
                },
                new_frame: enters_vblank,
            }
        }
    }
}

impl View for Ppu {
    type V = PpuView;

    closed spec fn view(&self) -> PpuView {
        PpuView {
            vram: self.vram@,
            oam: self.oam@,
            pixels: self.pixel_buffer@,
            current_cycles: self.current_cycles,
            current_scanline: self.current_scanline,
            window_line: self.window_line,
        }
    }
}

impl Ppu {
    /// The memories and the frame of the unit always have their sizes.
    pub proof fn holds_its_sizes(&self)
        ensures
            self@.vram.len() == 8192,
            self@.oam.len() == 160,
            self@.pixels.len() == TOTAL_PIXELS,
    {
        self.vram.holds_8192_bytes();
        self.oam.holds_160_bytes();
    }

    pub fn new() -> (ppu: Self)
        ensures
            ppu@ == PpuView::power_on(),
    {
        let ppu = Self {
            vram: Vram::zeroed(),
            oam: ObjectAttributeMemory::zeroed(),
            pixel_buffer: [Shade::Lightest; TOTAL_PIXELS],
            off_display: BlankFrame::new(),
            current_cycles: 0,
            current_scanline: 0,
            window_line: 0,
        };
        assert(ppu@.pixels =~= PpuView::power_on().pixels);
        ppu
    }

    pub fn vram(&self) -> (vram: &Vram)
        ensures
            vram@ == self@.vram,
    {
        &self.vram
    }

    pub fn vram_mut(&mut self) -> (vram: &mut Vram)
        ensures
            vram@ == old(self)@.vram,
            final(self)@ == (PpuView { vram: final(vram)@, ..old(self)@ }),
    {
        &mut self.vram
    }

    pub fn oam(&self) -> (oam: &ObjectAttributeMemory)
        ensures
            oam@ == self@.oam,
    {
        &self.oam
    }

    pub fn oam_mut(&mut self) -> (oam: &mut ObjectAttributeMemory)
        ensures
            oam@ == old(self)@.oam,
            final(self)@ == (PpuView { oam: final(oam)@, ..old(self)@ }),
    {
        &mut self.oam
    }

    /// Lets `cycles` clock cycles pass. Returns the vertical blank
    /// interrupt and the display interrupt where the step asks for them, and
    /// whether the step completed a frame.
    pub fn step(&mut self, lcd: &mut Lcd, cycles: usize) -> (outcome: (
        Option<Interrupt>,
        Option<Interrupt>,
        bool,
    ))
        ensures
            final(self)@ == old(self)@.step(old(lcd)@, cycles).ppu,
            final(lcd)@ == old(self)@.step(old(lcd)@, cycles).lcd,
            outcome.0 == old(self)@.step(old(lcd)@, cycles).vblank,
            outcome.1 == old(self)@.step(old(lcd)@, cycles).lcd_interrupt,
            outcome.2 == old(self)@.step(old(lcd)@, cycles).new_frame,
    {
        if !lcd.control().lcd_enabled() {
            self.current_cycles = 0;
            self.current_scanline = 0;
            self.window_line = 0;
            lcd.update_lcd_y(0);
            lcd.status_mut().set_ppu_mode(PpuMode::HBlank);
            return (None, None, false);
        }
        let position: u128 = (self.current_cycles as u128 + cycles as u128) % (
        FRAME_CYCLES_LENGTH as u128);
        let scanline: u8 = (position / (SCANLINE_CYCLES_LENGTH as u128)) as u8;
        let within_scanline: u128 = position % (SCANLINE_CYCLES_LENGTH as u128);
        let old_mode = lcd.status().ppu_mode();
        let new_mode = if scanline as usize >= VBLANK_START_SCANLINE {
            PpuMode::VBlank
        } else if within_scanline < OAM_SCAN_CYCLES_LENGTH as u128 {
            PpuMode::OAMScan
        } else if within_scanline < (OAM_SCAN_CYCLES_LENGTH + PIXEL_DRAW_CYCLES_LENGTH) as u128 {
            PpuMode::PixelDraw
        } else {
            PpuMode::HBlank
        };
        let mode_selected = match new_mode {
            PpuMode::HBlank => lcd.status().mode_0_interrupt_select(),
            PpuMode::VBlank => lcd.status().mode_1_interrupt_select(),
            PpuMode::OAMScan => lcd.status().mode_2_interrupt_select(),
            PpuMode::PixelDraw => false,
        };
        lcd.update_lcd_y(scanline);
        let enters_vblank = new_mode == PpuMode::VBlank && old_mode != PpuMode::VBlank;
        let draws = new_mode == PpuMode::HBlank && old_mode != PpuMode::HBlank;
        let mode_interrupt = new_mode != old_mode && mode_selected;
        let line_interrupt = self.current_scanline != scanline
            && lcd.status().lyc_interrupt_select() && lcd.status().lyc_equals_ly();
        if draws {
            self.write_scanline(lcd, scanline);
        }
        if enters_vblank {
            self.window_line = 0;
        } else if draws && window_is_on_line(lcd, scanline) {
            self.window_line = ((self.window_line as u16 + 1) % 256) as u8;
        }
        lcd.status_mut().set_ppu_mode(new_mode);
        self.current_cycles = position as u32;
        self.current_scanline = scanline;
        (
            if enters_vblank {
                Some(Interrupt::VBlank)
            } else {
                None
            },
            if mode_interrupt || line_interrupt {
                Some(Interrupt::Lcd)
            } else {
                None
            },
            enters_vblank,
        )
    }

    /// Draws line `line` of the frame.
    pub fn write_scanline(&mut self, lcd: &Lcd, line: u8)
        requires
            line < DISPLAY_HEIGHT_PIXELS,
        ensures
            final(self)@ == (PpuView {
                pixels: with_line_drawn(
                    old(self)@.pixels,
                    old(self)@.vram,
                    old(self)@.oam,
                    lcd@,
                    old(self)@.window_line as int,
                    line as int,
                ),
                ..old(self)@
            }),
    {
        let height: u8 = match lcd.control().obj_size() {
            ObjSize::Single => 8,
            ObjSize::Double => 16,
        };
        let (selected, count) = self.select_objects(line, height);
        let start: usize = line as usize * DISPLAY_WIDTH_PIXELS;
        let mut x: usize = 0;
        while x < DISPLAY_WIDTH_PIXELS
            invariant
                x <= 160,
                line < 144,
                start == line * 160,
                height == object_height(lcd@),
                count == selected_objects(self.oam@, line as int, height as int, 40).len(),
                count <= 10,
                forall|k: int|
                    0 <= k < count ==> 0 <= #[trigger] selected[k] < 40 && selected[k]
                        == selected_objects(self.oam@, line as int, height as int, 40)[k],
                self.vram == old(self).vram,
                self.oam == old(self).oam,
                self.current_cycles == old(self).current_cycles,
                self.current_scanline == old(self).current_scanline,
                self.window_line == old(self).window_line,
                forall|i: int|
                    0 <= i < TOTAL_PIXELS ==> #[trigger] self.pixel_buffer@[i] == (if start <= i
                        < start + x {
                        pixel_shade(
                            self.vram@,
                            self.oam@,
                            lcd@,
                            self.window_line as int,
                            line as int,
                            i - start,
                        )
                    } else {
                        old(self).pixel_buffer@[i]
                    }),
            decreases 160 - x,
        {
            let shade = self.shade_at(lcd, &selected, count, height, line, x);
            self.pixel_buffer[start + x] = shade;
            x += 1;
        }
        assert(self@.pixels =~= with_line_drawn(
            old(self)@.pixels,
            old(self)@.vram,
            old(self)@.oam,
            lcd@,
            old(self)@.window_line as int,
            line as int,
        ));
    }

    /// The slots of the objects that are shown on line `line`, and how many
    /// they are.
    fn select_objects(&self, line: u8, height: u8) -> (selection: ([usize; 10], usize))
        requires
            height == 8 || height == 16,
        ensures
            selection.1 == selected_objects(self.oam@, line as int, height as int, 40).len(),
            selection.1 <= 10,
            forall|k: int|
                0 <= k < selection.1 ==> 0 <= #[trigger] selection.0[k] < 40 && selection.0[k]
                    == selected_objects(self.oam@, line as int, height as int, 40)[k],
    {
        let mut selected = [0usize; 10];
        let mut count: usize = 0;
        let mut slot: usize = 0;
        while slot < OBJECT_COUNT_USIZE
            invariant
                slot <= 40,
                count <= 10,
                count <= slot,
                count == selected_objects(self.oam@, line as int, height as int, slot as nat).len(),
                forall|k: int|
                    0 <= k < count ==> 0 <= #[trigger] selected[k] < 40 && selected[k]
                        == selected_objects(self.oam@, line as int, height as int, slot as nat)[k],
            decreases 40 - slot,
        {
            let object = self.oam.object(slot);
            let top = object.y_pos() as u16;
            let covers = top <= line as u16 + 16 && line as u16 + 16 < top + height as u16;
            if count < OBJECTS_PER_LINE && covers {
                selected[count] = slot;
                count += 1;
            }
            slot += 1;
        }
        (selected, count)
    }

    /// The color id under the objects at column `x` of line `line`.
    fn layer_color_id(&self, lcd: &Lcd, line: u8, x: usize) -> (id: ColorId)
        requires
            x < 160,
        ensures
            id == layer_id(self.vram@, lcd@, self.window_line as int, line as int, x as int),
    {
        let data_area = lcd.control().bg_and_window_tile_data_area();
        if window_is_on_line(lcd, line) && x + 7 >= lcd.read_window_x() as usize {
            let window_x: usize = x + 7 - lcd.read_window_x() as usize;
            let window_line = self.window_line as usize;
            let position = (window_line / 8) * 32 + window_x / 8;
            let entry = self.vram.map_entry(lcd.control().window_tile_map_area(), position);
            let tile = self.vram.get_tile_in(data_area, entry);
            tile.color_at(window_line % 8, window_x % 8)
        } else {
            let view_y: usize = (lcd.read_scroll_y() as usize + line as usize) % 256;
            let view_x: usize = (lcd.read_scroll_x() as usize + x) % 256;
            let position = (view_y / 8) * 32 + view_x / 8;
            let entry = self.vram.map_entry(lcd.control().bg_tile_map_area(), position);
            let tile = self.vram.get_tile_in(data_area, entry);
            if lcd.control().bg_and_window_enabled() {
                tile.color_at(view_y % 8, view_x % 8)
            } else {
                ColorId::Zero
            }
        }
    }

    /// The color id of `object` at column `x` of line `line`, both of which
    /// it covers.
    fn object_color_id(&self, object: &ObjectAttributes, height: u8, line: u8, x: usize) -> (id:
        ColorId)
        requires
            height == 8 || height == 16,
            x < 160,
            object@.covers_line(line as int, height as int),
            object@.covers_column(x as int),
        ensures
            id == object_id(self.vram@, object@, height as int, line as int, x as int),
    {
        let flags = object.attributes();
        let row_down: usize = line as usize + 16 - object.y_pos() as usize;
        let row: usize = if flags.y_flip() {
            height as usize - 1 - row_down
        } else {
            row_down
        };
        let column_right: usize = x + 8 - object.x_pos() as usize;
        let column: usize = if flags.x_flip() {
            7 - column_right
        } else {
            column_right
        };
        let id = if height == 16 {
            let (upper, lower) = object.tile_index().as_double();
            if row < 8 {
                upper
            } else {
                lower
            }
        } else {
            object.tile_index()
        };
        self.vram.get_tile(id).color_at(row % 8, column)
    }

    /// The color id that `object`, which covers line `line`, puts at column
    /// `x`, if it puts a pixel there.
    fn object_pixel(
        &self,
        object: &ObjectAttributes,
        height: u8,
        line: u8,
        x: usize,
        under: ColorId,
    ) -> (painted: Option<ColorId>)
        requires
            height == 8 || height == 16,
            x < 160,
            object@.covers_line(line as int, height as int),
        ensures
            painted is Some == object_paints(
                self.vram@,
                object@,
                height as int,
                line as int,
                x as int,
                under,
            ),
            painted matches Some(id) ==> id == object_id(
                self.vram@,
                object@,
                height as int,
                line as int,
                x as int,
            ),
    {
        let left = object.x_pos() as usize;
        if left <= x + 8 && x + 8 < left + 8 {
            let id = self.object_color_id(object, height, line, x);
            let transparent = match id {
                ColorId::Zero => true,
                _ => false,
            };
            let covered = object.attributes().priority() && match under {
                ColorId::Zero => false,
                _ => true,
            };
            if !transparent && !covered {
                Some(id)
            } else {
                None
            }
        } else {
            None
        }
    }

    /// The shade of the pixel at column `x` of line `line`.
    fn shade_at(
        &self,
        lcd: &Lcd,
        selected: &[usize; 10],
        count: usize,
        height: u8,
        line: u8,
        x: usize,
    ) -> (shade: Shade)
        requires
            x < 160,
            height == object_height(lcd@),
            count == selected_objects(self.oam@, line as int, height as int, 40).len(),
            count <= 10,
            forall|k: int|
                0 <= k < count ==> 0 <= #[trigger] selected[k] < 40 && selected[k]
                    == selected_objects(self.oam@, line as int, height as int, 40)[k],
        ensures
            shade == pixel_shade(
                self.vram@,
                self.oam@,
                lcd@,
                self.window_line as int,
                line as int,
                x as int,
            ),
    {
        let under = self.layer_color_id(lcd, line, x);
        let ghost objects = selected_objects(self.oam@, line as int, height as int, 40);
        proof {
            selected_objects_cover(self.oam@, line as int, height as int, 40);
        }
        if lcd.control().obj_enabled() {
            let mut front: Option<(ObjectAttributes, ColorId)> = None;
            let ghost mut front_slot: Option<int> = None;
            let mut k: usize = 0;
            while k < count
                invariant
                    k <= count,
                    count <= 10,
                    count == objects.len(),
                    x < 160,
                    height == 8 || height == 16,
                    objects == selected_objects(self.oam@, line as int, height as int, 40),
                    forall|j: int|
                        0 <= j < count ==> 0 <= #[trigger] selected[j] < 40 && selected[j]
                            == objects[j],
                    forall|j: int|
                        0 <= j < count ==> object_in(self.oam@, #[trigger] objects[j]).covers_line(
                            line as int,
                            height as int,
                        ),
                    front_slot == front_object(
                        self.vram@,
                        self.oam@,
                        objects,
                        k as nat,
                        height as int,
                        line as int,
                        x as int,
                        under,
                    ),
                    front is Some == front_slot is Some,
                    front matches Some(found) ==> found.0@ == object_in(
                        self.oam@,
                        front_slot->Some_0,
                    ) && found.1 == object_id(
                        self.vram@,
                        found.0@,
                        height as int,
                        line as int,
                        x as int,
                    ),
                decreases count - k,
            {
                let slot = selected[k];
                let object = self.oam.object(slot);
                assert(object@ == object_in(self.oam@, objects[k as int]));
                let painted = self.object_pixel(&object, height, line, x, under);
                let nearer = match front {
                    None => true,
                    Some(found) => object.x_pos() < found.0.x_pos(),
                };
                match painted {
                    Some(id) => {
                        if nearer {
                            front = Some((object, id));
                            proof {
                                front_slot = Some(slot as int);
                            }
                        }
                    },
                    None => {},
                }
                k += 1;
            }
            match front {
                Some(found) => {
                    let palette = match found.0.attributes().palette() {
                        PaletteSelection::Pallete0 => lcd.obj_palette_0(),
                        PaletteSelection::Pallete1 => lcd.obj_palette_1(),
                    };
                    shade_of(palette, found.1)
                },
                None => shade_of(lcd.background_palette(), under),
            }
        } else {
            shade_of(lcd.background_palette(), under)
        }
    }

    /// The frame as the screen shows it.
    pub fn render(&mut self, lcd: &mut Lcd) -> (pixels: &[Shade; TOTAL_PIXELS])
        ensures
            pixels@ == old(self)@.shown(old(lcd)@),
            final(self)@ == old(self)@,
            final(lcd)@ == old(lcd)@,
    {
        if !lcd.control().lcd_enabled() {
            return self.off_display.pixels();
        }
        &self.pixel_buffer
    }
}

} // verus!
