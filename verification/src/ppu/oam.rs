use vstd::prelude::*;
use vstd::std_specs::convert::FromSpecImpl;
use super::vram::TileId;

verus! {

/// The first address of object attribute memory.
pub const OAM_START: u16 = 0xFE00;

/// The last address of object attribute memory.
pub const OAM_END: u16 = 0xFE9F;

/// The number of objects.
pub const OBJECT_COUNT: usize = 40;

/// The object palette that an object is shown in.
#[derive(Clone, Copy, Debug, PartialEq, Eq, Structural)]
pub enum PaletteSelection {
    Pallete0,
    Pallete1,
}

/// The attribute flags of an object, the high nibble of its fourth byte.
#[derive(Clone, Copy, Debug, PartialEq, Eq, Structural)]
pub struct Flags {
    /// Bit 7: background colors 1 to 3 cover the object.
    pub priority: bool,
    /// Bit 6: the object is mirrored top to bottom.
    pub y_flip: bool,
    /// Bit 5: the object is mirrored left to right.
    pub x_flip: bool,
    /// Bit 4: the palette of the object.
    pub palette: PaletteSelection,
}

impl Flags {
    /// The flags that an attribute byte holds.
    pub open spec fn of_byte(value: u8) -> Flags {
        Flags {
            priority: (value / 128) % 2 == 1,
            y_flip: (value / 64) % 2 == 1,
            x_flip: (value / 32) % 2 == 1,
            palette: if (value / 16) % 2 == 0 {
                PaletteSelection::Pallete0
            } else {
                PaletteSelection::Pallete1
            },
        }
    }

    /// The attribute byte with these flags and a low nibble of zero.
    pub open spec fn byte(self) -> u8 {
        ((if self.priority { 128int } else { 0 }) + (if self.y_flip { 64int } else { 0 }) + (
        if self.x_flip { 32int } else { 0 }) + (if self.palette == PaletteSelection::Pallete0 {
            0int
        } else {
            16
        })) as u8
    }

    pub fn zeroed() -> (flags: Self)
        ensures
            flags == Flags::of_byte(0),
    {
        Self { priority: false, y_flip: false, x_flip: false, palette: PaletteSelection::Pallete0 }
    }

    pub fn priority(&self) -> (priority: bool)
        ensures
            priority == self.priority,
    {
        self.priority
    }

    pub fn y_flip(&self) -> (flip: bool)
        ensures
            flip == self.y_flip,
    {
        self.y_flip
    }

    pub fn x_flip(&self) -> (flip: bool)
        ensures
            flip == self.x_flip,
    {
        self.x_flip
    }

    pub fn palette(&self) -> (palette: PaletteSelection)
        ensures
            palette == self.palette,
    {
        self.palette
    }
}

impl From<u8> for Flags {
    fn from(value: u8) -> (flags: Flags) {
        Flags {
            priority: (value / 128) % 2 == 1,
            y_flip: (value / 64) % 2 == 1,
            x_flip: (value / 32) % 2 == 1,
            palette: if (value / 16) % 2 == 0 {
                PaletteSelection::Pallete0
            } else {
                PaletteSelection::Pallete1
            },
        }
    }
}

impl FromSpecImpl<u8> for Flags {
    open spec fn obeys_from_spec() -> bool {
        true
    }

    open spec fn from_spec(value: u8) -> Flags {
        Flags::of_byte(value)
    }
}

impl From<&Flags> for u8 {
    fn from(value: &Flags) -> (byte: u8) {
        let b7: u8 = if value.priority { 128 } else { 0 };
        let b6: u8 = if value.y_flip { 64 } else { 0 };
        let b5: u8 = if value.x_flip { 32 } else { 0 };
        let b4: u8 = match value.palette {
            PaletteSelection::Pallete0 => 0,
            PaletteSelection::Pallete1 => 16,
        };
        b7 + b6 + b5 + b4
    }
}

impl FromSpecImpl<&Flags> for u8 {
    open spec fn obeys_from_spec() -> bool {
        true
    }

    open spec fn from_spec(value: &Flags) -> u8 {
        value.byte()
    }
}

/// One object: a sprite of 8 by 8 or 8 by 16 pixels.
#[derive(Clone, Copy, Debug)]
pub struct ObjectAttributes {
    y_position: u8,
    x_position: u8,
    tile_index: TileId,
    attributes: u8,
}

/// The four bytes of an object.
pub struct ObjectAttributesView {
    /// The line of the screen that the top of the object is on, plus 16.
    pub y_position: u8,
    /// The column of the screen that the left of the object is on, plus 8.
    pub x_position: u8,
    /// The tile that the object shows.
    pub tile_index: u8,
    /// The attribute byte. Its high nibble holds the flags.
    pub attributes: u8,
}

impl ObjectAttributesView {
    /// The byte of the object at `offset`, which is 0 to 3.
    pub open spec fn byte(self, offset: int) -> u8 {
        if offset == 0 {
            self.y_position
        } else if offset == 1 {
            self.x_position
        } else if offset == 2 {
            self.tile_index
        } else {
            self.attributes
        }
    }

    pub open spec fn flags(self) -> Flags {
        Flags::of_byte(self.attributes)
    }

    /// Whether the object, `height` lines tall, covers line `line` of the
    /// screen.
    pub open spec fn covers_line(self, line: int, height: int) -> bool {
        self.y_position <= line + 16 < self.y_position + height
    }

    /// Whether the object covers column `column` of the screen.
    pub open spec fn covers_column(self, column: int) -> bool {
        self.x_position <= column + 8 < self.x_position + 8
    }
}

impl View for ObjectAttributes {
    type V = ObjectAttributesView;

    closed spec fn view(&self) -> ObjectAttributesView {
        ObjectAttributesView {
            y_position: self.y_position,
            x_position: self.x_position,
            tile_index: self.tile_index.0,
            attributes: self.attributes,
        }
    }
}

impl ObjectAttributes {
    pub fn zeroed() -> (object: Self)
        ensures
            object@ == (ObjectAttributesView {
                y_position: 0,
                x_position: 0,
                tile_index: 0,
                attributes: 0,
            }),
    {
        Self { y_position: 0, x_position: 0, tile_index: TileId::zeroed(), attributes: 0 }
    }

    pub fn y_pos(&self) -> (y: u8)
        ensures
            y == self@.y_position,
    {
        self.y_position
    }

    pub fn x_pos(&self) -> (x: u8)
        ensures
            x == self@.x_position,
    {
        self.x_position
    }

    pub fn tile_index(&self) -> (id: TileId)
        ensures
            id == TileId(self@.tile_index),
    {
        self.tile_index
    }

    pub fn attributes(&self) -> (flags: Flags)
        ensures
            flags == self@.flags(),
    {
        Flags::from(self.attributes)
    }
}

/// The object in slot `index` of the bytes of object attribute memory.
pub open spec fn object_in(oam: Seq<u8>, index: int) -> ObjectAttributesView {
    ObjectAttributesView {
        y_position: oam[4 * index],
        x_position: oam[4 * index + 1],
        tile_index: oam[4 * index + 2],
        attributes: oam[4 * index + 3],
    }
}

/// Object attribute memory: forty objects of four bytes each.
#[derive(Clone, Copy)]
pub struct ObjectAttributeMemory {
    objects: [ObjectAttributes; 40],
}

impl View for ObjectAttributeMemory {
    type V = Seq<u8>;

    closed spec fn view(&self) -> Seq<u8> {
        Seq::new(160, |i: int| self.objects[i / 4]@.byte(i % 4))
    }
}

impl ObjectAttributeMemory {
    /// Object attribute memory always holds 160 bytes.
    pub proof fn holds_160_bytes(&self)
        ensures
            self@.len() == 160,
    {
    }

    /// Object attribute memory filled with zeros.
    pub fn zeroed() -> (oam: Self)
        ensures
            oam@ == Seq::new(160, |i: int| 0u8),
    {
        let oam = Self { objects: [ObjectAttributes::zeroed(); 40] };
        assert(oam@ =~= Seq::new(160, |i: int| 0u8));
        oam
    }

    /// The forty objects in the order of their slots.
    pub fn objects(&self) -> (objects: &[ObjectAttributes])
        ensures
            objects@.len() == 40,
            forall|i: int| 0 <= i < 40 ==> (#[trigger] objects@[i])@ == object_in(self@, i),
    {
        self.objects.as_slice()
    }

    /// The object in slot `index`.
    pub fn object(&self, index: usize) -> (object: ObjectAttributes)
        requires
            index < 40,
        ensures
            object@ == object_in(self@, index as int),
    {
        self.objects[index]
    }

    /// The byte at `address`, which lies in object attribute memory.
    pub fn read_u8(&self, address: u16) -> (value: u8)
        requires
            OAM_START <= address <= OAM_END,
        ensures
            value == self@[address - OAM_START],
    {
        let oam_addr = address - OAM_START;
        let object_index = (oam_addr / 4) as usize;
        let attribute_index = oam_addr % 4;
        let object = &self.objects[object_index];
        match attribute_index {
            0 => object.y_position,
            1 => object.x_position,
            2 => object.tile_index.0,
            _ => object.attributes,
        }
    }

    /// Stores `data` at `address`, which lies in object attribute memory.
    pub fn write_u8(&mut self, address: u16, data: u8)
        requires
            OAM_START <= address <= OAM_END,
        ensures
            final(self)@ == old(self)@.update(address - OAM_START, data),
            final(self)@.len() == 160,
    {
        let oam_addr = address - OAM_START;
        let object_index = (oam_addr / 4) as usize;
        let attribute_index = oam_addr % 4;
        let mut object = self.objects[object_index];
        match attribute_index {
            0 => object.y_position = data,
            1 => object.x_position = data,
            2 => object.tile_index = TileId::new(data),
            _ => object.attributes = data,
        }
        self.objects[object_index] = object;
        assert(self@ =~= old(self)@.update(address - OAM_START, data));
    }
}

} // verus!
