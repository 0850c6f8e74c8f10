use vstd::prelude::*;
use vstd::std_specs::convert::FromSpecImpl;
use crate::cpu::error::Error;
use crate::io::lcd::TileDataArea;

verus! {

/// The first address of video RAM.
pub const VRAM_START: u16 = 0x8000;

/// The last address of video RAM.
pub const VRAM_END: u16 = 0x9FFF;

/// The offset of the first tile map in video RAM.
pub const TILE_MAP_OFFSET: u16 = 0x1800;

/// The size of a tile map in bytes.
pub const TILE_MAP_SIZE: u16 = 0x0400;

/// A palette-relative color of a pixel in a tile.
#[derive(Clone, Copy, Debug, PartialEq, Eq, Structural)]
pub enum ColorId {
    Zero,
    One,
    Two,
    Three,
}

impl ColorId {
    /// The color id whose high bit is `high` and whose low bit is `low`.
    pub open spec fn of_bits(high: bool, low: bool) -> ColorId {
        match (high, low) {
            (false, false) => ColorId::Zero,
            (false, true) => ColorId::One,
            (true, false) => ColorId::Two,
            (true, true) => ColorId::Three,
        }
    }
}

/// Whether the bit of `plane` that belongs to column `column` is set. Column
/// 0 is the leftmost pixel and sits in bit 7.
pub open spec fn plane_bit(plane: u8, column: int) -> bool {
    (plane >> ((7 - column) as u8)) & 1 == 1
}

/// The color id at `row` and `column` of the tile that `bytes` encodes. Row
/// `r` is made of two bit planes: byte `2r` holds the low bits and byte
/// `2r + 1` the high bits.
pub open spec fn tile_color(bytes: Seq<u8>, row: int, column: int) -> ColorId {
    ColorId::of_bits(plane_bit(bytes[2 * row + 1], column), plane_bit(bytes[2 * row], column))
}

/// One tile: sixteen bytes that encode eight rows of eight pixels, kept
/// together with the color ids that they decode to.
#[derive(Clone, Copy, Debug)]
pub struct Tile {
    data: [u8; 16],
    colors: [[ColorId; 8]; 8],
}

impl View for Tile {
    type V = Seq<u8>;

    closed spec fn view(&self) -> Seq<u8> {
        self.data@
    }
}

fn color_of_planes(low: u8, high: u8, column: usize) -> (color: ColorId)
    requires
        column < 8,
    ensures
        color == ColorId::of_bits(plane_bit(high, column as int), plane_bit(low, column as int)),
{
    let shift: u8 = 7 - column as u8;
    let low_bit = (low >> shift) & 1 == 1;
    let high_bit = (high >> shift) & 1 == 1;
    match (high_bit, low_bit) {
        (false, false) => ColorId::Zero,
        (false, true) => ColorId::One,
        (true, false) => ColorId::Two,
        (true, true) => ColorId::Three,
    }
}

impl Tile {
    /// The cached color ids are those that the bytes decode to.
    #[verifier::type_invariant]
    spec fn cache_is_current(self) -> bool {
        forall|row: int, column: int|
            0 <= row < 8 && 0 <= column < 8 ==> #[trigger] self.colors[row][column] == tile_color(
                self.data@,
                row,
                column,
            )
    }

    /// The tile whose bytes are all zero.
    pub fn zeroed() -> (tile: Self)
        ensures
            tile@ == Seq::new(16, |i: int| 0u8),
    {
        let data = [0u8; 16];
        let colors = [[ColorId::Zero; 8]; 8];
        assert forall|row: int, column: int| 0 <= row < 8 && 0 <= column < 8 implies tile_color(
            data@,
            row,
            column,
        ) == ColorId::Zero by {
            let shift = (7 - column) as u8;
            assert((0u8 >> shift) & 1 == 0) by (bit_vector);
        }
        assert(data@ =~= Seq::new(16, |i: int| 0u8));
        Tile { data, colors }
    }

    pub fn data(&self) -> (data: &[u8; 16])
        ensures
            data@ == self@,
    {
        &self.data
    }

    /// The color ids of the tile, by row and column.
    pub fn color_data(&self) -> (colors: &[[ColorId; 8]; 8])
        ensures
            forall|row: int, column: int|
                0 <= row < 8 && 0 <= column < 8 ==> #[trigger] colors[row][column] == tile_color(
                    self@,
                    row,
                    column,
                ),
    {
        proof {
            use_type_invariant(self);
        }
        &self.colors
    }

    /// The color id at `row` and `column`.
    pub fn color_at(&self, row: usize, column: usize) -> (color: ColorId)
        requires
            row < 8,
            column < 8,
        ensures
            color == tile_color(self@, row as int, column as int),
    {
        proof {
            use_type_invariant(self);
        }
        self.colors[row][column]
    }

    pub fn read(&self, index: usize) -> (value: u8)
        requires
            index < 16,
        ensures
            value == self@[index as int],
    {
        self.data[index]
    }

    /// Stores a byte and decodes the row that it belongs to anew.
    pub fn write(&mut self, index: usize, data: u8)
        requires
            index < 16,
        ensures
            final(self)@ == old(self)@.update(index as int, data),
            final(self)@.len() == 16,
    {
        proof {
            use_type_invariant(&*self);
        }
        let mut bytes = self.data;
        let mut colors = self.colors;
        bytes[index] = data;
        let row: usize = index / 2;
        let low = bytes[2 * row];
        let high = bytes[2 * row + 1];
        let mut line = colors[row];
        let mut column: usize = 0;
        while column < 8
            invariant
                column <= 8,
                row < 8,
                forall|k: int|
                    0 <= k < column ==> #[trigger] line[k] == ColorId::of_bits(
                        plane_bit(high, k),
                        plane_bit(low, k),
                    ),
            decreases 8 - column,
        {
            line[column] = color_of_planes(low, high, column);
            column += 1;
        }
        colors[row] = line;
        *self = Tile { data: bytes, colors };
    }
}

/// Writing the sixteen bytes of a tile one after the other leaves exactly
/// those bytes in it, whatever it held before; its color grid is then the
/// one that they decode to, bit plane by bit plane.
pub proof fn tile_written_in_full(before: Seq<u8>, bytes: Seq<u8>, row: int, column: int)
    requires
        before.len() == 16,
        bytes.len() == 16,
        0 <= row < 8,
        0 <= column < 8,
    ensures
        written_up_to(before, bytes, 16) == bytes,
        tile_color(written_up_to(before, bytes, 16), row, column) == ColorId::of_bits(
            (bytes[2 * row + 1] >> ((7 - column) as u8)) & 1 == 1,
            (bytes[2 * row] >> ((7 - column) as u8)) & 1 == 1,
        ),
{
    written_up_to_prefix(before, bytes, 16);
    assert(written_up_to(before, bytes, 16) =~= bytes);
}

/// The bytes of a tile after the first `count` bytes of `bytes` have been
/// written to it in order.
pub open spec fn written_up_to(before: Seq<u8>, bytes: Seq<u8>, count: nat) -> Seq<u8>
    decreases count,
{
    if count == 0 {
        before
    } else {
        written_up_to(before, bytes, (count - 1) as nat).update(count - 1, bytes[count - 1])
    }
}

proof fn written_up_to_prefix(before: Seq<u8>, bytes: Seq<u8>, count: nat)
    requires
        before.len() == 16,
        bytes.len() == 16,
        count <= 16,
    ensures
        written_up_to(before, bytes, count).len() == 16,
        forall|i: int| 0 <= i < count ==> written_up_to(before, bytes, count)[i] == bytes[i],
        forall|i: int| count <= i < 16 ==> written_up_to(before, bytes, count)[i] == before[i],
    decreases count,
{
    if count > 0 {
        written_up_to_prefix(before, bytes, (count - 1) as nat);
    }
}

/// The number that a tile map entry or an object gives to a tile.
#[derive(Clone, Copy, Debug, PartialEq, Eq, Structural)]
pub struct TileId(pub u8);

impl TileId {
    pub fn new(value: u8) -> (id: Self)
        ensures
            id == TileId(value),
    {
        Self(value)
    }

    pub fn zeroed() -> (id: Self)
        ensures
            id == TileId(0),
    {
        Self(0)
    }

    /// The tile that an entry `id` of a tile map names: with `Lower` the
    /// entry counts from tile 0, with `Upper` it is a signed offset from
    /// tile 256.
    pub open spec fn index_in(area: TileDataArea, id: TileId) -> int {
        match area {
            TileDataArea::Lower => id.0 as int,
            TileDataArea::Upper => if id.0 < 128 {
                256 + id.0
            } else {
                id.0 as int
            },
        }
    }

    /// The two tiles of a tall object: the upper half has the low bit of the
    /// id cleared, the lower half has it set.
    pub open spec fn double(self) -> (TileId, TileId) {
        (TileId((self.0 - self.0 % 2) as u8), TileId((self.0 - self.0 % 2 + 1) as u8))
    }

    /// The ids of the upper and the lower half of a tall object.
    pub fn as_double(self) -> (halves: (TileId, TileId))
        ensures
            halves == self.double(),
    {
        let even = self.0 - self.0 % 2;
        (TileId(even), TileId(even + 1))
    }
}

impl From<u8> for TileId {
    fn from(value: u8) -> (id: TileId) {
        TileId(value)
    }
}

impl FromSpecImpl<u8> for TileId {
    open spec fn obeys_from_spec() -> bool {
        true
    }

    open spec fn from_spec(value: u8) -> TileId {
        TileId(value)
    }
}

impl From<TileId> for u8 {
    fn from(value: TileId) -> (id: u8) {
        value.0
    }
}

impl FromSpecImpl<TileId> for u8 {
    open spec fn obeys_from_spec() -> bool {
        true
    }

    open spec fn from_spec(value: TileId) -> u8 {
        value.0
    }
}

/// A bank of video RAM. The console has a single one.
#[derive(Clone, Copy, Debug)]
pub struct VramBank {}

/// Video RAM: 384 tiles and two tile maps of 32 by 32 entries.
#[derive(Clone, Copy)]
pub struct Vram {
    tiles: [Tile; 384],
    map0: [TileId; 1024],
    map1: [TileId; 1024],
}

/// The sixteen bytes of tile `index` in the bytes of video RAM.
pub open spec fn tile_bytes(vram: Seq<u8>, index: int) -> Seq<u8> {
    vram.subrange(16 * index, 16 * index + 16)
}

/// The entry at `position` of a tile map.
pub open spec fn map_entry(vram: Seq<u8>, area: crate::io::lcd::TileMapArea, position: int) -> TileId {
    match area {
        crate::io::lcd::TileMapArea::Lower => TileId(vram[0x1800 + position]),
        crate::io::lcd::TileMapArea::Upper => TileId(vram[0x1C00 + position]),
    }
}

impl View for Vram {
    type V = Seq<u8>;

    closed spec fn view(&self) -> Seq<u8> {
        Seq::new(
            8192,
            |i: int|
                if i < 0x1800 {
                    self.tiles[i / 16]@[i % 16]
                } else if i < 0x1C00 {
                    self.map0[i - 0x1800].0
                } else {
                    self.map1[i - 0x1C00].0
                },
        )
    }
}

impl Vram {
    /// Video RAM always holds 8192 bytes.
    pub proof fn holds_8192_bytes(&self)
        ensures
            self@.len() == 8192,
    {
    }

    /// Video RAM filled with zeros.
    pub fn zeroed() -> (vram: Self)
        ensures
            vram@ == Seq::new(8192, |i: int| 0u8),
    {
        let vram = Self {
            tiles: [Tile::zeroed(); 384],
            map0: [TileId::zeroed(); 1024],
            map1: [TileId::zeroed(); 1024],
        };
        assert(vram@ =~= Seq::new(8192, |i: int| 0u8));
        vram
    }

    /// The tile with the number `id`, counted from tile 0.
    pub fn get_tile(&self, id: TileId) -> (tile: &Tile)
        ensures
            tile@ == tile_bytes(self@, id.0 as int),
    {
        let tile = &self.tiles[id.0 as usize];
        assert(tile@ =~= tile_bytes(self@, id.0 as int));
        tile
    }

    /// The tile that the entry `id` of a tile map names under `area`.
    pub fn get_tile_in(&self, area: TileDataArea, id: TileId) -> (tile: &Tile)
        ensures
            tile@ == tile_bytes(self@, TileId::index_in(area, id)),
            0 <= TileId::index_in(area, id) < 384,
    {
        let index: usize = match area {
            TileDataArea::Lower => id.0 as usize,
            TileDataArea::Upper => if id.0 < 128 {
                256 + id.0 as usize
            } else {
                id.0 as usize
            },
        };
        let tile = &self.tiles[index];
        assert(tile@ =~= tile_bytes(self@, index as int));
        tile
    }

    /// The tile map at 0x9800.
    pub fn get_map_0(&self) -> (map: &[TileId; 1024])
        ensures
            forall|i: int| 0 <= i < 1024 ==> (#[trigger] map[i]).0 == self@[0x1800 + i],
    {
        &self.map0
    }

    /// The tile map at 0x9C00.
    pub fn get_map_1(&self) -> (map: &[TileId; 1024])
        ensures
            forall|i: int| 0 <= i < 1024 ==> (#[trigger] map[i]).0 == self@[0x1C00 + i],
    {
        &self.map1
    }

    /// The entry at `position` of the tile map `area`.
    pub fn map_entry(&self, area: crate::io::lcd::TileMapArea, position: usize) -> (id: TileId)
        requires
            position < 1024,
        ensures
            id == map_entry(self@, area, position as int),
    {
        match area {
            crate::io::lcd::TileMapArea::Lower => self.map0[position],
            crate::io::lcd::TileMapArea::Upper => self.map1[position],
        }
    }

    /// Reads the byte at `address`. An address outside video RAM faults.
    pub fn read_u8(&self, address: u16) -> (value: Result<u8, Error>)
        ensures
            VRAM_START <= address <= VRAM_END ==> value == Ok::<u8, Error>(
                self@[address - VRAM_START],
            ),
            !(VRAM_START <= address <= VRAM_END) ==> value == Err::<u8, Error>(
                Error::MemoryReadFault(address),
            ),
    {
        if address < VRAM_START || address > VRAM_END {
            return Err(Error::MemoryReadFault(address));
        }
        let vram_addr = address - VRAM_START;
        Ok(
            if vram_addr < TILE_MAP_OFFSET {
                let tile_index = (vram_addr / 16) as usize;
                let byte_index = (vram_addr % 16) as usize;
                self.tiles[tile_index].read(byte_index)
            } else if vram_addr < TILE_MAP_OFFSET + TILE_MAP_SIZE {
                self.map0[(vram_addr - TILE_MAP_OFFSET) as usize].0
            } else {
                self.map1[(vram_addr - TILE_MAP_OFFSET - TILE_MAP_SIZE) as usize].0
            },
        )
    }

    /// Stores `data` at `address`. An address outside video RAM faults and
    /// changes nothing.
    pub fn write_u8(&mut self, address: u16, data: u8) -> (result: Result<(), Error>)
        ensures
            final(self)@.len() == 8192,
            VRAM_START <= address <= VRAM_END ==> result is Ok && final(self)@ == old(self)@.update(
                address - VRAM_START,
                data,
            ),
            !(VRAM_START <= address <= VRAM_END) ==> result == Err::<(), Error>(
                Error::MemoryWriteFault(address, data),
            ) && final(self)@ == old(self)@,
    {
        if address < VRAM_START || address > VRAM_END {
            return Err(Error::MemoryWriteFault(address, data));
        }
        let vram_addr = address - VRAM_START;
        if vram_addr < TILE_MAP_OFFSET {
            let tile_index = (vram_addr / 16) as usize;
            let byte_index = (vram_addr % 16) as usize;
            let mut tile = self.tiles[tile_index];
            tile.write(byte_index, data);
            self.tiles[tile_index] = tile;
        } else if vram_addr < TILE_MAP_OFFSET + TILE_MAP_SIZE {
            self.map0[(vram_addr - TILE_MAP_OFFSET) as usize] = TileId(data);
        } else {
            self.map1[(vram_addr - TILE_MAP_OFFSET - TILE_MAP_SIZE) as usize] = TileId(data);
        }
        assert(self@ =~= old(self)@.update(address - VRAM_START, data));
        Ok(())
    }
}

} // verus!
