//! Tile memory and the cache of decoded tile pixels.
//!
//! The peripheral owns 0x2000 raw bytes. The first 0x1800 of them are tile
//! pixel data: 384 tiles of 16 bytes, two bytes per row of eight pixels. The
//! rest holds tile indices and is stored raw. Beside the raw bytes the
//! peripheral keeps every tile decoded, and refreshes one row of that cache on
//! each write into the pixel data.

use vstd::prelude::*;

verus! {

/// First bus address that belongs to tile memory.
pub const VRAM_BEGIN: usize = 0x8000;

/// Last bus address that belongs to tile memory.
pub const VRAM_END: usize = 0x9FFF;

/// Number of bytes of tile memory.
pub const VRAM_SIZE: usize = VRAM_END - VRAM_BEGIN + 1;

/// Number of bytes of tile pixel data at the start of tile memory.
pub const TILE_DATA_SIZE: usize = 0x1800;

/// Number of tiles in the cache.
pub const TILE_COUNT: usize = 384;

/// The shade of one pixel.
#[derive(Clone, Copy, Debug, PartialEq, Eq, Structural)]
pub enum TilePixelValue {
    Zero,
    One,
    Two,
    Three,
}

/// Eight rows of eight pixels.
pub type Tile = [[TilePixelValue; 8]; 8];

/// Whether bit `pos` of `byte` is set, bit 0 being the least significant.
pub open spec fn bit_set(byte: u8, pos: int) -> bool {
    (byte >> (pos as u8)) & 1 == 1
}

/// The shade that the two plane bits of a pixel form: the low plane gives
/// bit 0 of the shade, the high plane bit 1.
pub open spec fn shade(low: bool, high: bool) -> TilePixelValue {
    if high {
        if low {
            TilePixelValue::Three
        } else {
            TilePixelValue::Two
        }
    } else {
        if low {
            TilePixelValue::One
        } else {
            TilePixelValue::Zero
        }
    }
}

/// The shade of pixel `pixel` of a row stored as the two bytes `low_plane`
/// and `high_plane`. Pixel 0 is the leftmost and comes from bit 7 of each.
pub open spec fn decode_pixel(low_plane: u8, high_plane: u8, pixel: int) -> TilePixelValue {
    shade(bit_set(low_plane, 7 - pixel), bit_set(high_plane, 7 - pixel))
}

/// The eight shades of a row stored as `low_plane` and `high_plane`.
pub open spec fn decode_row(low_plane: u8, high_plane: u8) -> Seq<TilePixelValue> {
    Seq::new(8, |pixel: int| decode_pixel(low_plane, high_plane, pixel))
}

/// What the peripheral holds: its raw bytes, and the decoded tiles, indexed
/// by tile, row and pixel.
#[verifier::ext_equal]
pub struct GpuView {
    pub vram: Seq<u8>,
    pub tiles: Seq<Seq<Seq<TilePixelValue>>>,
}

impl GpuView {
    /// The sizes that every view of a peripheral has.
    pub open spec fn well_shaped(self) -> bool {
        &&& self.vram.len() == VRAM_SIZE
        &&& self.tiles.len() == TILE_COUNT
        &&& forall|tile: int| 0 <= tile < TILE_COUNT ==> (#[trigger] self.tiles[tile]).len() == 8
        &&& forall|tile: int, row: int|
            0 <= tile < TILE_COUNT && 0 <= row < 8 ==> (#[trigger] self.tiles[tile][row]).len()
                == 8
    }

    /// The state at start-up: every byte zero, every pixel of shade zero.
    pub open spec fn initial() -> GpuView {
        GpuView {
            vram: Seq::new(VRAM_SIZE as nat, |i: int| 0u8),
            tiles: Seq::new(
                TILE_COUNT as nat,
                |tile: int| Seq::new(8, |row: int| Seq::new(8, |pixel: int| TilePixelValue::Zero)),
            ),
        }
    }

    /// The state after `val` was written at offset `idx`.
    ///
    /// The byte is stored in any case. Where the offset lies in the tile pixel
    /// data, the row that the byte belongs to is decoded anew from its two
    /// bytes, the even one as low plane and the odd one as high plane; all
    /// other rows stay.
    pub open spec fn write(self, idx: int, val: u8) -> GpuView {
        let vram = self.vram.update(idx, val);
        if idx >= TILE_DATA_SIZE {
            GpuView { vram, tiles: self.tiles }
        } else {
            let low_plane = vram[idx - idx % 2];
            let high_plane = vram[idx - idx % 2 + 1];
            let tile = idx / 16;
            let row = (idx % 16) / 2;
            GpuView {
                vram,
                tiles: self.tiles.update(
                    tile,
                    self.tiles[tile].update(row, decode_row(low_plane, high_plane)),
                ),
            }
        }
    }

    /// Whether every cached row is what its two bytes decode to.
    pub open spec fn coherent(self) -> bool {
        forall|tile: int, row: int|
            0 <= tile < TILE_COUNT && 0 <= row < 8 ==> #[trigger] self.tiles[tile][row]
                == decode_row(self.vram[16 * tile + 2 * row], self.vram[16 * tile + 2 * row + 1])
    }
}

/// A byte of zero has no bit set.
proof fn lemma_zero_has_no_bit(pos: int)
    requires
        0 <= pos < 8,
    ensures
        !bit_set(0, pos),
{
    let p = pos as u8;
    assert((0u8 >> p) & 1 == 0) by (bit_vector)
        requires
            p < 8,
    ;
}

/// The state at start-up is well shaped, and its cache is what its bytes
/// decode to.
pub proof fn lemma_initial_coherent()
    ensures
        GpuView::initial().well_shaped(),
        GpuView::initial().coherent(),
{
    let init = GpuView::initial();
    assert forall|tile: int, row: int| 0 <= tile < TILE_COUNT && 0 <= row < 8 implies (
    #[trigger] init.tiles[tile][row]) == decode_row(
        init.vram[16 * tile + 2 * row],
        init.vram[16 * tile + 2 * row + 1],
    ) by {
        assert forall|pixel: int| 0 <= pixel < 8 implies decode_pixel(0, 0, pixel)
            == TilePixelValue::Zero by {
            lemma_zero_has_no_bit(7 - pixel);
        }
        assert(init.tiles[tile][row] =~= decode_row(0, 0));
    }
}

/// A write keeps the sizes.
pub proof fn lemma_write_well_shaped(view: GpuView, idx: int, val: u8)
    requires
        view.well_shaped(),
        0 <= idx < VRAM_SIZE,
    ensures
        view.write(idx, val).well_shaped(),
{
    let after = view.write(idx, val);
    if idx < TILE_DATA_SIZE {
        assert forall|tile: int| 0 <= tile < TILE_COUNT implies (#[trigger] after.tiles[tile]).len()
            == 8 by {
            assert(view.tiles[tile].len() == 8);
        }
        assert forall|tile: int, row: int| 0 <= tile < TILE_COUNT && 0 <= row < 8 implies (
        #[trigger] after.tiles[tile][row]).len() == 8 by {
            assert(view.tiles[tile].len() == 8);
            assert(view.tiles[tile][row].len() == 8);
        }
    }
}

/// Reading back after a write: the written offset holds the written byte,
/// every other offset holds what it held.
pub proof fn lemma_write_bytes(view: GpuView, idx: int, val: u8, other: int)
    requires
        view.well_shaped(),
        0 <= idx < VRAM_SIZE,
        0 <= other < VRAM_SIZE,
    ensures
        view.write(idx, val).vram[other] == if other == idx {
            val
        } else {
            view.vram[other]
        },
{
}

/// A write into the tile-index region stores the byte and leaves every tile
/// of the cache as it was.
pub proof fn lemma_write_tile_map_keeps_tiles(view: GpuView, idx: int, val: u8)
    requires
        TILE_DATA_SIZE <= idx < VRAM_SIZE,
    ensures
        view.write(idx, val).tiles == view.tiles,
        view.write(idx, val).vram == view.vram.update(idx, val),
{
}

/// A write into the tile pixel data refreshes the row that the byte belongs
/// to, from the byte pair as it stands after the write, whichever of the two
/// bytes was written; every other row of every tile stays.
pub proof fn lemma_write_refreshes_row(view: GpuView, idx: int, val: u8, tile: int, row: int)
    requires
        view.well_shaped(),
        0 <= idx < TILE_DATA_SIZE,
        0 <= tile < TILE_COUNT,
        0 <= row < 8,
    ensures
        view.write(idx, val).tiles[tile][row] == if 16 * tile + 2 * row <= idx < 16 * tile + 2
            * row + 2 {
            decode_row(
                view.write(idx, val).vram[16 * tile + 2 * row],
                view.write(idx, val).vram[16 * tile + 2 * row + 1],
            )
        } else {
            view.tiles[tile][row]
        },
{
    assert(view.tiles[tile].len() == 8);
    assert(view.tiles[idx / 16].len() == 8);
}

/// A cache that agrees with the bytes still agrees after any write.
pub proof fn lemma_write_preserves_coherence(view: GpuView, idx: int, val: u8)
    requires
        view.well_shaped(),
        view.coherent(),
        0 <= idx < VRAM_SIZE,
    ensures
        view.write(idx, val).coherent(),
{
    let after = view.write(idx, val);
    assert forall|tile: int, row: int| 0 <= tile < TILE_COUNT && 0 <= row < 8 implies (
    #[trigger] after.tiles[tile][row]) == decode_row(
        after.vram[16 * tile + 2 * row],
        after.vram[16 * tile + 2 * row + 1],
    ) by {
        assert(view.tiles[tile][row] == decode_row(
            view.vram[16 * tile + 2 * row],
            view.vram[16 * tile + 2 * row + 1],
        ));
        if idx < TILE_DATA_SIZE {
            lemma_write_refreshes_row(view, idx, val, tile, row);
        }
    }
}

/// A tile with every pixel of shade zero.
pub fn empty_tile() -> (tile: Tile)
    ensures
        forall|row: int, pixel: int|
            0 <= row < 8 && 0 <= pixel < 8 ==> tile[row][pixel] == TilePixelValue::Zero,
{
    [[TilePixelValue::Zero; 8]; 8]
}

/// The display peripheral: raw tile memory and the decoded tiles.
pub struct GPU {
    vram: [u8; VRAM_SIZE],
    tile_set: [Tile; 384],
}

impl View for GPU {
    type V = GpuView;

    closed spec fn view(&self) -> GpuView {
        GpuView {
            vram: self.vram@,
            tiles: Seq::new(
                TILE_COUNT as nat,
                |tile: int|
                    Seq::new(8, |row: int| Seq::new(8, |pixel: int| self.tile_set[tile][row][pixel])),
            ),
        }
    }
}

impl GPU {
    /// Every peripheral has a view of the fixed sizes.
    pub proof fn lemma_view_well_shaped(&self)
        ensures
            self@.well_shaped(),
    {
    }

    /// A peripheral in its state at start-up.
    pub fn new() -> (gpu: GPU)
        ensures
            gpu@ == GpuView::initial(),
    {
        let gpu = GPU { vram: [0u8; VRAM_SIZE], tile_set: [empty_tile(); 384] };
        assert(gpu@.vram =~= GpuView::initial().vram);
        assert(gpu@.tiles =~~= GpuView::initial().tiles);
        gpu
    }

    /// Reads the raw byte at an offset into tile memory.
    pub fn read_vram(&self, addr: usize) -> (byte: u8)
        requires
            addr < VRAM_SIZE,
        ensures
            byte == self@.vram[addr as int],
    {
        self.vram[addr]
    }

    /// The shade of one pixel of the cache.
    pub fn tile_pixel(&self, tile: usize, row: usize, pixel: usize) -> (value: TilePixelValue)
        requires
            tile < TILE_COUNT,
            row < 8,
            pixel < 8,
        ensures
            value == self@.tiles[tile as int][row as int][pixel as int],
    {
        self.tile_set[tile][row][pixel]
    }

    /// Stores a raw byte at an offset into tile memory and, where the offset
    /// lies in the tile pixel data, decodes the row it belongs to anew.
    pub fn write_vram(&mut self, idx: usize, val: u8)
        requires
            idx < VRAM_SIZE,
        ensures
            final(self)@ == old(self)@.write(idx as int, val),
    {
        self.vram[idx] = val;
        if idx >= 0x1800 {
            assert(self@.tiles =~~= old(self)@.tiles);
            return ;
        }
        let normal: usize = idx & 0xFFFE;
        assert(idx & 0xFFFE == idx - idx % 2) by (bit_vector)
            requires
                idx < 0x1800,
        ;
        let byte1: u8 = self.vram[normal];
        let byte2: u8 = self.vram[normal + 1];

        let tiling: usize = idx / 16;
        let row: usize = (idx % 16) / 2;

        let mut pixel_idx: usize = 0;
        while pixel_idx < 8
            invariant
                pixel_idx <= 8,
                tiling < 384,
                row < 8,
                self.vram@ == old(self).vram@.update(idx as int, val),
                forall|t: int, r: int, p: int|
                    0 <= t < 384 && 0 <= r < 8 && 0 <= p < 8 ==> #[trigger] self.tile_set[t][r][p]
                        == if t == tiling && r == row && p < pixel_idx {
                        decode_pixel(byte1, byte2, p)
                    } else {
                        old(self).tile_set[t][r][p]
                    },
            decreases 8 - pixel_idx,
        {
            let mask: u8 = 1 << (7 - pixel_idx);
            let lsb: u8 = byte1 & mask;
            let msb: u8 = byte2 & mask;
            proof {
                let shift = (7 - pixel_idx) as u8;
                assert(forall|b: u8| (b & (1u8 << shift) != 0) == ((b >> shift) & 1 == 1))
                    by (bit_vector)
                    requires
                        shift < 8,
                ;
                assert(mask == 1u8 << shift);
            }

            let val = match (lsb != 0, msb != 0) {
                (true, true) => TilePixelValue::Three,
                (false, true) => TilePixelValue::Two,
                (true, false) => TilePixelValue::One,
                (false, false) => TilePixelValue::Zero,
            };
            assert(val == decode_pixel(byte1, byte2, pixel_idx as int));

            self.tile_set[tiling][row][pixel_idx] = val;
            pixel_idx += 1;
        }
        proof {
            let after = old(self)@.write(idx as int, val);
            assert(self@.vram =~= after.vram);
            assert forall|t: int| 0 <= t < 384 implies #[trigger] self@.tiles[t] =~~= after.tiles[t] by {
                assert forall|r: int| 0 <= r < 8 implies #[trigger] self@.tiles[t][r]
                    =~= after.tiles[t][r] by {
                    assert forall|p: int| 0 <= p < 8 implies self@.tiles[t][r][p]
                        == after.tiles[t][r][p] by {
                        assert(self@.tiles[t][r][p] == self.tile_set[t][r][p]);
                    }
                }
            }
            assert(self@.tiles =~~= after.tiles);
        }
    }
}

} // verus!
