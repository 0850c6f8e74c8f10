use vstd::prelude::*;
use vstd::std_specs::convert::FromSpecImpl;
use crate::io::IORegister;
use crate::ppu::PpuMode;

verus! {

/// One of the two 32 by 32 tile maps.
#[derive(Clone, Copy, Debug, PartialEq, Eq, Structural)]
pub enum TileMapArea {
    /// The map at 0x9C00 to 0x9FFF.
    Upper,
    /// The map at 0x9800 to 0x9BFF.
    Lower,
}

impl TileMapArea {
    /// The register bit that stands for the choice.
    pub open spec fn bit(self) -> u8 {
        match self {
            TileMapArea::Lower => 0,
            TileMapArea::Upper => 1,
        }
    }

    /// The choice that a register bit makes.
    pub open spec fn of_bit(value: u8) -> TileMapArea {
        if value == 0 {
            TileMapArea::Lower
        } else {
            TileMapArea::Upper
        }
    }
}

impl From<TileMapArea> for u8 {
    fn from(value: TileMapArea) -> (bit: u8) {
        match value {
            TileMapArea::Lower => 0,
            TileMapArea::Upper => 1,
        }
    }
}

impl FromSpecImpl<TileMapArea> for u8 {
    open spec fn obeys_from_spec() -> bool {
        true
    }

    open spec fn from_spec(value: TileMapArea) -> u8 {
        value.bit()
    }
}

impl From<u8> for TileMapArea {
    fn from(value: u8) -> (choice: TileMapArea) {
        match value {
            0 => TileMapArea::Lower,
            _ => TileMapArea::Upper,
        }
    }
}

impl FromSpecImpl<u8> for TileMapArea {
    open spec fn obeys_from_spec() -> bool {
        true
    }

    open spec fn from_spec(value: u8) -> TileMapArea {
        TileMapArea::of_bit(value)
    }
}

/// How the background and the window find the tile that a map entry names.
#[derive(Clone, Copy, Debug, PartialEq, Eq, Structural)]
pub enum TileDataArea {
    /// The entry is a signed offset from tile 256.
    Upper,
    /// The entry is the number of one of the tiles 0 to 255.
    Lower,
}

impl TileDataArea {
    /// The register bit that stands for the choice.
    pub open spec fn bit(self) -> u8 {
        match self {
            TileDataArea::Lower => 0,
            TileDataArea::Upper => 1,
        }
    }

    /// The choice that a register bit makes.
    pub open spec fn of_bit(value: u8) -> TileDataArea {
        if value == 0 {
            TileDataArea::Lower
        } else {
            TileDataArea::Upper
        }
    }
}

impl From<TileDataArea> for u8 {
    fn from(value: TileDataArea) -> (bit: u8) {
        match value {
            TileDataArea::Lower => 0,
            TileDataArea::Upper => 1,
        }
    }
}

impl FromSpecImpl<TileDataArea> for u8 {
    open spec fn obeys_from_spec() -> bool {
        true
    }

    open spec fn from_spec(value: TileDataArea) -> u8 {
        value.bit()
    }
}

impl From<u8> for TileDataArea {
    fn from(value: u8) -> (choice: TileDataArea) {
        match value {
            0 => TileDataArea::Lower,
            _ => TileDataArea::Upper,
        }
    }
}

impl FromSpecImpl<u8> for TileDataArea {
    open spec fn obeys_from_spec() -> bool {
        true
    }

    open spec fn from_spec(value: u8) -> TileDataArea {
        TileDataArea::of_bit(value)
    }
}

/// The height of the objects.
#[derive(Clone, Copy, Debug, PartialEq, Eq, Structural)]
pub enum ObjSize {
    /// 8 by 8 pixels.
    Single,
    /// 8 by 16 pixels.
    Double,
}

impl ObjSize {
    /// The register bit that stands for the choice.
    pub open spec fn bit(self) -> u8 {
        match self {
            ObjSize::Single => 0,
            ObjSize::Double => 1,
        }
    }

    /// The choice that a register bit makes.
    pub open spec fn of_bit(value: u8) -> ObjSize {
        if value == 0 {
            ObjSize::Single
        } else {
            ObjSize::Double
        }
    }
}

impl From<ObjSize> for u8 {
    fn from(value: ObjSize) -> (bit: u8) {
        match value {
            ObjSize::Single => 0,
            ObjSize::Double => 1,
        }
    }
}

impl FromSpecImpl<ObjSize> for u8 {
    open spec fn obeys_from_spec() -> bool {
        true
    }

    open spec fn from_spec(value: ObjSize) -> u8 {
        value.bit()
    }
}

impl From<u8> for ObjSize {
    fn from(value: u8) -> (choice: ObjSize) {
        match value {
            0 => ObjSize::Single,
            _ => ObjSize::Double,
        }
    }
}

impl FromSpecImpl<u8> for ObjSize {
    open spec fn obeys_from_spec() -> bool {
        true
    }

    open spec fn from_spec(value: u8) -> ObjSize {
        ObjSize::of_bit(value)
    }
}

/// One of the four shades of the display, from the lightest to the darkest.
#[derive(Clone, Copy, Debug, PartialEq, Eq, Structural)]
pub enum Color {
    White,
    LightGray,
    DarkGray,
    Black,
}

impl Color {
    /// The two-bit number of the shade.
    pub open spec fn number(self) -> u8 {
        match self {
            Color::White => 0,
            Color::LightGray => 1,
            Color::DarkGray => 2,
            Color::Black => 3,
        }
    }

    /// The shade that a number names; numbers above three name the darkest.
    pub open spec fn of_number(value: u8) -> Color {
        if value == 0 {
            Color::White
        } else if value == 1 {
            Color::LightGray
        } else if value == 2 {
            Color::DarkGray
        } else {
            Color::Black
        }
    }
}

impl From<u8> for Color {
    fn from(value: u8) -> (color: Color) {
        match value {
            0 => Self::White,
            1 => Self::LightGray,
            2 => Self::DarkGray,
            _ => Self::Black,
        }
    }
}

impl FromSpecImpl<u8> for Color {
    open spec fn obeys_from_spec() -> bool {
        true
    }

    open spec fn from_spec(value: u8) -> Color {
        Color::of_number(value)
    }
}

impl From<Color> for u8 {
    fn from(value: Color) -> (number: u8) {
        match value {
            Color::White => 0,
            Color::LightGray => 1,
            Color::DarkGray => 2,
            Color::Black => 3,
        }
    }
}

impl FromSpecImpl<Color> for u8 {
    open spec fn obeys_from_spec() -> bool {
        true
    }

    open spec fn from_spec(value: Color) -> u8 {
        value.number()
    }
}

/// A palette: the shade that each of the four color ids is shown in.
#[derive(Clone, Copy, Debug, PartialEq, Eq, Structural)]
pub struct Palette {
    pub id0: Color,
    pub id1: Color,
    pub id2: Color,
    pub id3: Color,
}

impl Palette {
    /// The palette that a register byte holds: the shade of color id `k` is
    /// in bits `2k + 1` and `2k`.
    pub open spec fn of_byte(value: u8) -> Palette {
        Palette {
            id0: Color::of_number(value % 4),
            id1: Color::of_number((value / 4) % 4),
            id2: Color::of_number((value / 16) % 4),
            id3: Color::of_number(value / 64),
        }
    }

    /// The register byte that holds the palette.
    pub open spec fn byte(self) -> u8 {
        (self.id0.number() + 4 * self.id1.number() + 16 * self.id2.number() + 64
            * self.id3.number()) as u8
    }

    /// The palette that shows each color id in the shade of the same number.
    pub open spec fn identity() -> Palette {
        Palette {
            id0: Color::White,
            id1: Color::LightGray,
            id2: Color::DarkGray,
            id3: Color::Black,
        }
    }
}

/// A palette survives the trip through its register byte, and so does a byte
/// the trip through the palette.
pub proof fn palette_byte_round_trip(palette: Palette, value: u8)
    ensures
        Palette::of_byte(palette.byte()) == palette,
        Palette::of_byte(value).byte() == value,
{
    assert(value == (value % 4) + 4 * ((value / 4) % 4) + 16 * ((value / 16) % 4) + 64 * (value
        / 64)) by (bit_vector);
    let n0 = palette.id0.number();
    let n1 = palette.id1.number();
    let n2 = palette.id2.number();
    let n3 = palette.id3.number();
    let byte = palette.byte();
    assert(byte % 4 == n0 && (byte / 4) % 4 == n1 && (byte / 16) % 4 == n2 && byte / 64 == n3)
        by (bit_vector)
        requires
            n0 < 4,
            n1 < 4,
            n2 < 4,
            n3 < 4,
            byte == n0 + 4 * n1 + 16 * n2 + 64 * n3,
    ;
}

impl From<u8> for Palette {
    fn from(value: u8) -> (palette: Palette) {
        Palette {
            id0: Color::from(value % 4),
            id1: Color::from((value / 4) % 4),
            id2: Color::from((value / 16) % 4),
            id3: Color::from(value / 64),
        }
    }
}

impl FromSpecImpl<u8> for Palette {
    open spec fn obeys_from_spec() -> bool {
        true
    }

    open spec fn from_spec(value: u8) -> Palette {
        Palette::of_byte(value)
    }
}

impl From<Palette> for u8 {
    fn from(value: Palette) -> (byte: u8) {
        u8::from(value.id0) + 4 * u8::from(value.id1) + 16 * u8::from(value.id2) + 64 * u8::from(
            value.id3,
        )
    }
}

impl FromSpecImpl<Palette> for u8 {
    open spec fn obeys_from_spec() -> bool {
        true
    }

    open spec fn from_spec(value: Palette) -> u8 {
        value.byte()
    }
}

impl Default for Palette {
    fn default() -> (palette: Palette)
        ensures
            palette == Palette::identity(),
    {
        Palette {
            id0: Color::White,
            id1: Color::LightGray,
            id2: Color::DarkGray,
            id3: Color::Black,
        }
    }
}

/// The status register of the display.
#[derive(Clone, Copy, Debug)]
pub struct LcdStatus {
    lyc_interrupt_select: bool,
    mode_2_interrupt_select: bool,
    mode_1_interrupt_select: bool,
    mode_0_interrupt_select: bool,
    lyc_equals_ly: bool,
    ppu_mode: PpuMode,
}

/// What an [`LcdStatus`] holds.
pub struct LcdStatusView {
    /// Bit 6: a line that matches the compare register asks for the interrupt.
    pub lyc_interrupt_select: bool,
    /// Bit 5: entering the object scan asks for the interrupt.
    pub mode_2_interrupt_select: bool,
    /// Bit 4: entering the vertical blank asks for the interrupt.
    pub mode_1_interrupt_select: bool,
    /// Bit 3: entering the horizontal blank asks for the interrupt.
    pub mode_0_interrupt_select: bool,
    /// Bit 2: the current line equals the compare register.
    pub lyc_equals_ly: bool,
    /// Bits 1 and 0: the mode that the pixel processing unit is in.
    pub ppu_mode: PpuMode,
}

impl LcdStatusView {
    pub open spec fn power_on() -> Self {
        LcdStatusView {
            lyc_interrupt_select: false,
            mode_2_interrupt_select: false,
            mode_1_interrupt_select: false,
            mode_0_interrupt_select: false,
            lyc_equals_ly: false,
            ppu_mode: PpuMode::HBlank,
        }
    }

    /// The seven bits of the register, bit 7 left out.
    pub open spec fn packed(self) -> u8 {
        ((if self.lyc_interrupt_select { 64int } else { 0 }) + (if self.mode_2_interrupt_select {
            32int
        } else {
            0
        }) + (if self.mode_1_interrupt_select { 16int } else { 0 }) + (
        if self.mode_0_interrupt_select { 8int } else { 0 }) + (if self.lyc_equals_ly {
            4int
        } else {
            0
        }) + self.ppu_mode.number()) as u8
    }

    /// What a read of the register gives: the unused bit 7 reads as one.
    pub open spec fn register(self) -> u8 {
        (128 + self.packed()) as u8
    }

    /// The status after a write of `value`: the four interrupt selects are
    /// taken from bits 6 to 3, the coincidence flag and the mode stay.
    pub open spec fn written(self, value: u8) -> Self {
        LcdStatusView {
            lyc_interrupt_select: (value / 64) % 2 == 1,
            mode_2_interrupt_select: (value / 32) % 2 == 1,
            mode_1_interrupt_select: (value / 16) % 2 == 1,
            mode_0_interrupt_select: (value / 8) % 2 == 1,
            ..self
        }
    }

    /// Whether entering `mode` asks for the display interrupt.
    pub open spec fn mode_selected(self, mode: PpuMode) -> bool {
        match mode {
            PpuMode::HBlank => self.mode_0_interrupt_select,
            PpuMode::VBlank => self.mode_1_interrupt_select,
            PpuMode::OAMScan => self.mode_2_interrupt_select,
            PpuMode::PixelDraw => false,
        }
    }
}

impl View for LcdStatus {
    type V = LcdStatusView;

    closed spec fn view(&self) -> LcdStatusView {
        LcdStatusView {
            lyc_interrupt_select: self.lyc_interrupt_select,
            mode_2_interrupt_select: self.mode_2_interrupt_select,
            mode_1_interrupt_select: self.mode_1_interrupt_select,
            mode_0_interrupt_select: self.mode_0_interrupt_select,
            lyc_equals_ly: self.lyc_equals_ly,
            ppu_mode: self.ppu_mode,
        }
    }
}

impl LcdStatus {
    pub fn new() -> (status: Self)
        ensures
            status@ == LcdStatusView::power_on(),
    {
        Self {
            lyc_interrupt_select: false,
            mode_2_interrupt_select: false,
            mode_1_interrupt_select: false,
            mode_0_interrupt_select: false,
            lyc_equals_ly: false,
            ppu_mode: PpuMode::HBlank,
        }
    }

    pub fn ppu_mode(&self) -> (mode: PpuMode)
        ensures
            mode == self@.ppu_mode,
    {
        self.ppu_mode
    }

    pub fn set_ppu_mode(&mut self, mode: PpuMode)
        ensures
            final(self)@ == (LcdStatusView { ppu_mode: mode, ..old(self)@ }),
    {
        self.ppu_mode = mode;
    }

    pub fn lyc_interrupt_select(&self) -> (selected: bool)
        ensures
            selected == self@.lyc_interrupt_select,
    {
        self.lyc_interrupt_select
    }

    pub fn mode_2_interrupt_select(&self) -> (selected: bool)
        ensures
            selected == self@.mode_2_interrupt_select,
    {
        self.mode_2_interrupt_select
    }

    pub fn mode_1_interrupt_select(&self) -> (selected: bool)
        ensures
            selected == self@.mode_1_interrupt_select,
    {
        self.mode_1_interrupt_select
    }

    pub fn mode_0_interrupt_select(&self) -> (selected: bool)
        ensures
            selected == self@.mode_0_interrupt_select,
    {
        self.mode_0_interrupt_select
    }

    pub fn lyc_equals_ly(&self) -> (equal: bool)
        ensures
            equal == self@.lyc_equals_ly,
    {
        self.lyc_equals_ly
    }

    /// A write to the register. Only the interrupt selects can be written.
    pub fn set_from_u8(&mut self, value: u8)
        ensures
            final(self)@ == old(self)@.written(value),
    {
        self.lyc_interrupt_select = (value / 64) % 2 == 1;
        self.mode_2_interrupt_select = (value / 32) % 2 == 1;
        self.mode_1_interrupt_select = (value / 16) % 2 == 1;
        self.mode_0_interrupt_select = (value / 8) % 2 == 1;
    }

    /// The seven bits of the register, bit 7 left out.
    pub fn to_u8(&self) -> (value: u8)
        ensures
            value == self@.packed(),
    {
        let b6: u8 = if self.lyc_interrupt_select { 64 } else { 0 };
        let b5: u8 = if self.mode_2_interrupt_select { 32 } else { 0 };
        let b4: u8 = if self.mode_1_interrupt_select { 16 } else { 0 };
        let b3: u8 = if self.mode_0_interrupt_select { 8 } else { 0 };
        let b2: u8 = if self.lyc_equals_ly { 4 } else { 0 };
        b6 + b5 + b4 + b3 + b2 + u8::from(self.ppu_mode)
    }
}

/// The control register of the display.
#[derive(Clone, Copy, Debug)]
pub struct LcdControl {
    lcd_and_ppu_enable: bool,
    window_tile_map: TileMapArea,
    window_enable: bool,
    bg_and_window_data: TileDataArea,
    bg_tile_map: TileMapArea,
    obj_size: ObjSize,
    obj_enable: bool,
    bg_and_window_enable: bool,
}

/// What an [`LcdControl`] holds.
pub struct LcdControlView {
    /// Bit 7: the display and the pixel processing unit run.
    pub lcd_and_ppu_enable: bool,
    /// Bit 6: the map that the window shows.
    pub window_tile_map: TileMapArea,
    /// Bit 5: the window is shown.
    pub window_enable: bool,
    /// Bit 4: how the background and the window address their tiles.
    pub bg_and_window_data: TileDataArea,
    /// Bit 3: the map that the background shows.
    pub bg_tile_map: TileMapArea,
    /// Bit 2: the height of the objects.
    pub obj_size: ObjSize,
    /// Bit 1: the objects are shown.
    pub obj_enable: bool,
    /// Bit 0: the background is shown.
    pub bg_and_window_enable: bool,
}

impl LcdControlView {
    /// The control register that a byte holds.
    pub open spec fn of_byte(value: u8) -> Self {
        LcdControlView {
            lcd_and_ppu_enable: (value / 128) % 2 == 1,
            window_tile_map: TileMapArea::of_bit((value / 64) % 2),
            window_enable: (value / 32) % 2 == 1,
            bg_and_window_data: TileDataArea::of_bit((value / 16) % 2),
            bg_tile_map: TileMapArea::of_bit((value / 8) % 2),
            obj_size: ObjSize::of_bit((value / 4) % 2),
            obj_enable: (value / 2) % 2 == 1,
            bg_and_window_enable: value % 2 == 1,
        }
    }

    /// The byte that the register reads as.
    pub open spec fn byte(self) -> u8 {
        ((if self.lcd_and_ppu_enable { 128int } else { 0 }) + 64 * self.window_tile_map.bit() + (
        if self.window_enable { 32int } else { 0 }) + 16 * self.bg_and_window_data.bit() + 8
            * self.bg_tile_map.bit() + 4 * self.obj_size.bit() + (if self.obj_enable {
            2int
        } else {
            0
        }) + (if self.bg_and_window_enable { 1int } else { 0 })) as u8
    }

    pub open spec fn power_on() -> Self {
        Self::of_byte(0)
    }
}

/// The control register reads back the byte that was written to it.
pub proof fn control_byte_round_trip(control: LcdControlView, value: u8)
    ensures
        LcdControlView::of_byte(value).byte() == value,
        LcdControlView::of_byte(control.byte()) == control,
{
    assert(value == 128 * ((value / 128) % 2) + 64 * ((value / 64) % 2) + 32 * ((value / 32) % 2)
        + 16 * ((value / 16) % 2) + 8 * ((value / 8) % 2) + 4 * ((value / 4) % 2) + 2 * ((value
        / 2) % 2) + value % 2) by (bit_vector);
    let b7: u8 = if control.lcd_and_ppu_enable { 1 } else { 0 };
    let b6 = control.window_tile_map.bit();
    let b5: u8 = if control.window_enable { 1 } else { 0 };
    let b4 = control.bg_and_window_data.bit();
    let b3 = control.bg_tile_map.bit();
    let b2 = control.obj_size.bit();
    let b1: u8 = if control.obj_enable { 1 } else { 0 };
    let b0: u8 = if control.bg_and_window_enable { 1 } else { 0 };
    let byte = control.byte();
    assert((byte / 128) % 2 == b7 && (byte / 64) % 2 == b6 && (byte / 32) % 2 == b5 && (byte / 16)
        % 2 == b4 && (byte / 8) % 2 == b3 && (byte / 4) % 2 == b2 && (byte / 2) % 2 == b1 && byte
        % 2 == b0) by (bit_vector)
        requires
            b7 < 2,
            b6 < 2,
            b5 < 2,
            b4 < 2,
            b3 < 2,
            b2 < 2,
            b1 < 2,
            b0 < 2,
            byte == 128 * b7 + 64 * b6 + 32 * b5 + 16 * b4 + 8 * b3 + 4 * b2 + 2 * b1 + b0,
    ;
}

impl View for LcdControl {
    type V = LcdControlView;

    closed spec fn view(&self) -> LcdControlView {
        LcdControlView {
            lcd_and_ppu_enable: self.lcd_and_ppu_enable,
            window_tile_map: self.window_tile_map,
            window_enable: self.window_enable,
            bg_and_window_data: self.bg_and_window_data,
            bg_tile_map: self.bg_tile_map,
            obj_size: self.obj_size,
            obj_enable: self.obj_enable,
            bg_and_window_enable: self.bg_and_window_enable,
        }
    }
}

impl LcdControl {
    pub fn new() -> (control: Self)
        ensures
            control@ == LcdControlView::power_on(),
    {
        Self {
            lcd_and_ppu_enable: false,
            window_tile_map: TileMapArea::Lower,
            window_enable: false,
            bg_and_window_data: TileDataArea::Lower,
            bg_tile_map: TileMapArea::Lower,
            obj_size: ObjSize::Single,
            obj_enable: false,
            bg_and_window_enable: false,
        }
    }

    pub fn lcd_enabled(&self) -> (enabled: bool)
        ensures
            enabled == self@.lcd_and_ppu_enable,
    {
        self.lcd_and_ppu_enable
    }

    pub fn window_tile_map_area(&self) -> (area: TileMapArea)
        ensures
            area == self@.window_tile_map,
    {
        self.window_tile_map
    }

    pub fn window_enabled(&self) -> (enabled: bool)
        ensures
            enabled == self@.window_enable,
    {
        self.window_enable
    }

    pub fn bg_and_window_tile_data_area(&self) -> (area: TileDataArea)
        ensures
            area == self@.bg_and_window_data,
    {
        self.bg_and_window_data
    }

    pub fn bg_tile_map_area(&self) -> (area: TileMapArea)
        ensures
            area == self@.bg_tile_map,
    {
        self.bg_tile_map
    }

    pub fn obj_size(&self) -> (size: ObjSize)
        ensures
            size == self@.obj_size,
    {
        self.obj_size
    }

    pub fn obj_enabled(&self) -> (enabled: bool)
        ensures
            enabled == self@.obj_enable,
    {
        self.obj_enable
    }

    pub fn bg_and_window_enabled(&self) -> (enabled: bool)
        ensures
            enabled == self@.bg_and_window_enable,
    {
        self.bg_and_window_enable
    }

    pub fn set_from_u8(&mut self, value: u8)
        ensures
            final(self)@ == LcdControlView::of_byte(value),
    {
        self.lcd_and_ppu_enable = (value / 128) % 2 == 1;
        self.window_tile_map = TileMapArea::from((value / 64) % 2);
        self.window_enable = (value / 32) % 2 == 1;
        self.bg_and_window_data = TileDataArea::from((value / 16) % 2);
        self.bg_tile_map = TileMapArea::from((value / 8) % 2);
        self.obj_size = ObjSize::from((value / 4) % 2);
        self.obj_enable = (value / 2) % 2 == 1;
        self.bg_and_window_enable = value % 2 == 1;
    }

    /// The byte that the register reads as.
    pub fn to_u8(&self) -> (value: u8)
        ensures
            value == self@.byte(),
    {
        let b7: u8 = if self.lcd_and_ppu_enable { 128 } else { 0 };
        let b5: u8 = if self.window_enable { 32 } else { 0 };
        let b1: u8 = if self.obj_enable { 2 } else { 0 };
        let b0: u8 = if self.bg_and_window_enable { 1 } else { 0 };
        b7 + 64 * u8::from(self.window_tile_map) + b5 + 16 * u8::from(self.bg_and_window_data) + 8
            * u8::from(self.bg_tile_map) + 4 * u8::from(self.obj_size) + b1 + b0
    }
}

/// The register block of the display.
#[derive(Clone, Copy)]
pub struct Lcd {
    control: LcdControl,
    lcd_y: IORegister,
    lcd_y_compare: IORegister,
    status: LcdStatus,
    scroll_y: IORegister,
    scroll_x: IORegister,
    window_y: IORegister,
    window_x: IORegister,
    background_palette: Palette,
    obj_palette_0: Palette,
    obj_palette_1: Palette,
}

/// What an [`Lcd`] holds.
pub struct LcdView {
    /// LCDC.
    pub control: LcdControlView,
    /// LY, the line that is being drawn.
    pub lcd_y: u8,
    /// LYC, the line to compare LY with.
    pub lcd_y_compare: u8,
    /// STAT.
    pub status: LcdStatusView,
    /// SCY.
    pub scroll_y: u8,
    /// SCX.
    pub scroll_x: u8,
    /// WY.
    pub window_y: u8,
    /// WX.
    pub window_x: u8,
    /// BGP.
    pub background_palette: Palette,
    /// OBP0.
    pub obj_palette_0: Palette,
    /// OBP1.
    pub obj_palette_1: Palette,
}

impl LcdView {
    pub open spec fn power_on() -> Self {
        LcdView {
            control: LcdControlView::power_on(),
            lcd_y: 0,
            lcd_y_compare: 0,
            status: LcdStatusView::power_on(),
            scroll_y: 0,
            scroll_x: 0,
            window_y: 0,
            window_x: 0,
            background_palette: Palette::identity(),
            obj_palette_0: Palette::identity(),
            obj_palette_1: Palette::identity(),
        }
    }

    /// The block once the current line is `value`: the coincidence flag
    /// follows.
    pub open spec fn with_lcd_y(self, value: u8) -> Self {
        LcdView {
            lcd_y: value,
            status: LcdStatusView { lyc_equals_ly: value == self.lcd_y_compare, ..self.status },
            ..self
        }
    }

    /// The block once the pixel processing unit is in `mode`.
    pub open spec fn with_mode(self, mode: PpuMode) -> Self {
        LcdView { status: LcdStatusView { ppu_mode: mode, ..self.status }, ..self }
    }
}

impl View for Lcd {
    type V = LcdView;

    closed spec fn view(&self) -> LcdView {
        LcdView {
            control: self.control@,
            lcd_y: self.lcd_y@,
            lcd_y_compare: self.lcd_y_compare@,
            status: self.status@,
            scroll_y: self.scroll_y@,
            scroll_x: self.scroll_x@,
            window_y: self.window_y@,
            window_x: self.window_x@,
            background_palette: self.background_palette,
            obj_palette_0: self.obj_palette_0,
            obj_palette_1: self.obj_palette_1,
        }
    }
}

impl Lcd {
    pub fn new() -> (lcd: Self)
        ensures
            lcd@ == LcdView::power_on(),
    {
        Self {
            control: LcdControl::new(),
            lcd_y: IORegister::new(),
            lcd_y_compare: IORegister::new(),
            status: LcdStatus::new(),
            scroll_y: IORegister::new(),
            scroll_x: IORegister::new(),
            window_y: IORegister::new(),
            window_x: IORegister::new(),
            background_palette: Palette::default(),
            obj_palette_0: Palette::default(),
            obj_palette_1: Palette::default(),
        }
    }

    pub fn read_control(&self) -> (value: u8)
        ensures
            value == self@.control.byte(),
    {
        self.control.to_u8()
    }

    pub fn write_control(&mut self, value: u8)
        ensures
            final(self)@ == (LcdView { control: LcdControlView::of_byte(value), ..old(self)@ }),
    {
        self.control.set_from_u8(value);
    }

    pub fn control(&self) -> (control: &LcdControl)
        ensures
            control@ == self@.control,
    {
        &self.control
    }

    pub fn control_mut(&mut self) -> (control: &mut LcdControl)
        ensures
            control@ == old(self)@.control,
            final(self)@ == (LcdView { control: final(control)@, ..old(self)@ }),
    {
        &mut self.control
    }

    pub fn status(&self) -> (status: &LcdStatus)
        ensures
            status@ == self@.status,
    {
        &self.status
    }

    pub fn status_mut(&mut self) -> (status: &mut LcdStatus)
        ensures
            status@ == old(self)@.status,
            final(self)@ == (LcdView { status: final(status)@, ..old(self)@ }),
    {
        &mut self.status
    }

    /// Moves the display to line `value` and compares it with LYC.
    pub fn update_lcd_y(&mut self, value: u8)
        ensures
            final(self)@ == old(self)@.with_lcd_y(value),
    {
        self.lcd_y.write(value);
        let equal = value == self.lcd_y_compare.read();
        let mut status = self.status;
        status.lyc_equals_ly = equal;
        self.status = status;
    }

    pub fn read_lcd_y(&self) -> (value: u8)
        ensures
            value == self@.lcd_y,
    {
        self.lcd_y.read()
    }

    /// Sets the current line and leaves the coincidence flag alone.
    pub fn write_lcd_y(&mut self, value: u8)
        ensures
            final(self)@ == (LcdView { lcd_y: value, ..old(self)@ }),
    {
        self.lcd_y.write(value);
    }

    /// What a read of STAT gives.
    pub fn read_status(&self) -> (value: u8)
        ensures
            value == self@.status.register(),
    {
        128 + self.status.to_u8()
    }

    /// A write to STAT.
    pub fn write_status(&mut self, value: u8)
        ensures
            final(self)@ == (LcdView { status: old(self)@.status.written(value), ..old(self)@ }),
    {
        self.status.set_from_u8(value);
    }

    pub fn read_lcd_y_compare(&self) -> (value: u8)
        ensures
            value == self@.lcd_y_compare,
    {
        self.lcd_y_compare.read()
    }

    pub fn write_lcd_y_compare(&mut self, value: u8)
        ensures
            final(self)@ == (LcdView { lcd_y_compare: value, ..old(self)@ }),
    {
        self.lcd_y_compare.write(value);
    }

    pub fn read_scroll_y(&self) -> (value: u8)
        ensures
            value == self@.scroll_y,
    {
        self.scroll_y.read()
    }

    pub fn write_scroll_y(&mut self, value: u8)
        ensures
            final(self)@ == (LcdView { scroll_y: value, ..old(self)@ }),
    {
        self.scroll_y.write(value);
    }

    pub fn read_scroll_x(&self) -> (value: u8)
        ensures
            value == self@.scroll_x,
    {
        self.scroll_x.read()
    }

    pub fn write_scroll_x(&mut self, value: u8)
        ensures
            final(self)@ == (LcdView { scroll_x: value, ..old(self)@ }),
    {
        self.scroll_x.write(value);
    }

    pub fn read_window_y(&self) -> (value: u8)
        ensures
            value == self@.window_y,
    {
        self.window_y.read()
    }

    pub fn write_window_y(&mut self, value: u8)
        ensures
            final(self)@ == (LcdView { window_y: value, ..old(self)@ }),
    {
        self.window_y.write(value);
    }

    pub fn read_window_x(&self) -> (value: u8)
        ensures
            value == self@.window_x,
    {
        self.window_x.read()
    }

    pub fn write_window_x(&mut self, value: u8)
        ensures
            final(self)@ == (LcdView { window_x: value, ..old(self)@ }),
    {
        self.window_x.write(value);
    }

    pub fn background_palette(&self) -> (palette: Palette)
        ensures
            palette == self@.background_palette,
    {
        self.background_palette
    }

    pub fn read_background_palette(&self) -> (value: u8)
        ensures
            value == self@.background_palette.byte(),
    {
        u8::from(self.background_palette)
    }

    pub fn write_background_palette(&mut self, value: u8)
        ensures
            final(self)@ == (LcdView { background_palette: Palette::of_byte(value), ..old(self)@ }),
    {
        self.background_palette = Palette::from(value);
    }

    pub fn obj_palette_0(&self) -> (palette: Palette)
        ensures
            palette == self@.obj_palette_0,
    {
        self.obj_palette_0
    }

    pub fn read_obj_palette_0(&self) -> (value: u8)
        ensures
            value == self@.obj_palette_0.byte(),
    {
        u8::from(self.obj_palette_0)
    }

    pub fn write_obj_palette_0(&mut self, value: u8)
        ensures
            final(self)@ == (LcdView { obj_palette_0: Palette::of_byte(value), ..old(self)@ }),
    {
        self.obj_palette_0 = Palette::from(value);
    }

    pub fn obj_palette_1(&self) -> (palette: Palette)
        ensures
            palette == self@.obj_palette_1,
    {
        self.obj_palette_1
    }

    pub fn read_obj_palette_1(&self) -> (value: u8)
        ensures
            value == self@.obj_palette_1.byte(),
    {
        u8::from(self.obj_palette_1)
    }

    pub fn write_obj_palette_1(&mut self, value: u8)
        ensures
            final(self)@ == (LcdView { obj_palette_1: Palette::of_byte(value), ..old(self)@ }),
    {
        self.obj_palette_1 = Palette::from(value);
    }
}

} // verus!
