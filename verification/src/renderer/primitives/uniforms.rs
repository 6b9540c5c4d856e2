use vstd::prelude::*;

verus! {

/// Division rounded towards negative infinity (the divisor is never zero).
pub open spec fn floor_div(a: int, b: int) -> int
    recommends
        b != 0,
{
    if b > 0 {
        a / b
    } else {
        (-a) / (-b)
    }
}

/// Clamps a value into the range of `i32`, as a float-to-`i32` cast does.
pub open spec fn saturate_i32(v: int) -> int {
    if v > i32::MAX {
        i32::MAX as int
    } else if v < i32::MIN {
        i32::MIN as int
    } else {
        v
    }
}

/// `(extent + tile_size - 1) / tile_size` rounded down, as the division of floats
/// gives it: with a tile size of 0 the quotient is negative infinity for an empty
/// extent, not a number for an extent of 1 (which an `i32` cast makes 0), and positive
/// infinity otherwise.
pub open spec fn tile_quotient(extent: int, tile_size: int) -> int {
    if tile_size == 0 {
        if extent == 0 {
            i32::MIN as int
        } else if extent == 1 {
            0
        } else {
            i32::MAX as int
        }
    } else {
        floor_div(extent + tile_size - 1, tile_size)
    }
}

/// How many tiles of edge `tile_size` cover `extent` pixels:
/// `floor((extent + tile_size - 1) / tile_size)`, clamped to `i32`.
pub open spec fn tile_count(extent: int, tile_size: int) -> int {
    saturate_i32(tile_quotient(extent, tile_size))
}

/// The value an `i32` takes when cast to `u32`.
pub open spec fn i32_as_u32(v: int) -> int {
    if v >= 0 {
        v
    } else {
        v + 0x1_0000_0000
    }
}

/// Byte size of the light id buffer: one `u32` per light slot, plus one for the
/// slot count, for every tile.
pub open spec fn light_id_buffer_size(num_tile_light_slot: int, num_tiles: int) -> int {
    4 * (num_tile_light_slot + 1) * num_tiles
}

/// Parameters of the tiled light culling pass, as uploaded to the GPU.
#[derive(Debug, Clone, Copy, PartialEq, Eq, Structural)]
pub struct TileInfo {
    pub tile_size: i32,
    pub tile_count_x: i32,
    pub tile_count_y: i32,
    pub num_tiles: u32,
    pub num_tile_light_slot: u32,
}

impl Default for TileInfo {
    fn default() -> (info: Self)
        ensures
            info == (TileInfo {
                tile_size: 16,
                num_tile_light_slot: 128,
                tile_count_y: 0,
                tile_count_x: 0,
                num_tiles: 0,
            }),
    {
        Self { tile_size: 16, num_tile_light_slot: 128, tile_count_y: 0, tile_count_x: 0, num_tiles: 0 }
    }
}

/// Floor division on machine integers whose magnitudes keep every step in range.
fn floor_div_i64(a: i64, b: i64) -> (q: i64)
    requires
        b != 0,
        -0x1_0000_0000_0000 <= a <= 0x1_0000_0000_0000,
        -0x1_0000_0000_0000 <= b <= 0x1_0000_0000_0000,
    ensures
        q == floor_div(a as int, b as int),
{
    let (n, d): (i64, i64) = if b > 0 { (a, b) } else { (-a, -b) };
    assert(d > 0);
    if n >= 0 {
        let q: u64 = (n as u64) / (d as u64);
        q as i64
    } else {
        let m: u64 = (-n) as u64;
        let du: u64 = d as u64;
        let c: u64 = (m + du - 1) / du;
        proof {
            lemma_floor_div_negative(n as int, d as int, c as int);
        }
        -(c as i64)
    }
}

proof fn lemma_floor_div_negative(n: int, d: int, c: int)
    requires
        n < 0,
        d > 0,
        c == (-n + d - 1) / d,
    ensures
        n / d == -c,
{
    let m: int = -n;
    let q: int = n / d;
    let r: int = n % d;
    assert(n == d * q + r && 0 <= r < d) by {
        vstd::arithmetic::div_mod::lemma_fundamental_div_mod(n, d);
    }
    let k: int = m + d - 1;
    assert(k == d * (-q) + (d - 1 - r)) by (nonlinear_arith)
        requires
            n == d * q + r,
            m == -n,
            k == m + d - 1,
    ;
    assert(0 <= d - 1 - r < d);
    vstd::arithmetic::div_mod::lemma_fundamental_div_mod_converse(k, d, -q, d - 1 - r);
}

fn saturating_i32(v: i64) -> (r: i32)
    ensures
        r == saturate_i32(v as int),
{
    if v > i32::MAX as i64 {
        i32::MAX
    } else if v < i32::MIN as i64 {
        i32::MIN
    } else {
        v as i32
    }
}

fn tile_count_i32(extent: u32, tile_size: i32) -> (count: i32)
    ensures
        count == tile_count(extent as int, tile_size as int),
{
    if tile_size == 0 {
        if extent == 0 {
            i32::MIN
        } else if extent == 1 {
            0
        } else {
            i32::MAX
        }
    } else {
        let ts: i64 = tile_size as i64;
        saturating_i32(floor_div_i64(extent as i64 + ts - 1, ts))
    }
}

impl TileInfo {
    /// Sets the tile grid for a `width` x `height` pixel canvas and returns the size
    /// in bytes of the buffer that holds the light ids of every tile.
    pub fn calculate_light_id_buffer_size(&mut self, width: u32, height: u32) -> (size: u64)
        requires
            i32::MIN <= tile_count(width as int, old(self).tile_size as int) * tile_count(
                height as int,
                old(self).tile_size as int,
            ) <= i32::MAX,
            old(self).num_tile_light_slot < u32::MAX,
            4 * (old(self).num_tile_light_slot + 1) <= usize::MAX,
            light_id_buffer_size(
                old(self).num_tile_light_slot as int,
                i32_as_u32(
                    tile_count(width as int, old(self).tile_size as int) * tile_count(
                        height as int,
                        old(self).tile_size as int,
                    ),
                ),
            ) <= usize::MAX,
        ensures
            final(self).tile_size == old(self).tile_size,
            final(self).num_tile_light_slot == old(self).num_tile_light_slot,
            final(self).tile_count_x == tile_count(width as int, old(self).tile_size as int),
            final(self).tile_count_y == tile_count(height as int, old(self).tile_size as int),
            final(self).num_tiles == i32_as_u32(
                final(self).tile_count_x * final(self).tile_count_y,
            ),
            size == light_id_buffer_size(
                old(self).num_tile_light_slot as int,
                final(self).num_tiles as int,
            ),
    {
        self.tile_count_x = tile_count_i32(width, self.tile_size);
        self.tile_count_y = tile_count_i32(height, self.tile_size);
        let product: i64 = self.tile_count_x as i64 * self.tile_count_y as i64;
        let tiles: u32 = if product >= 0 {
            product as u32
        } else {
            (product + 0x1_0000_0000) as u32
        };
        self.num_tiles = tiles;
        let slots: usize = (self.num_tile_light_slot + 1) as usize;
        let four: usize = 4;
        let per_tile: usize = four * slots;
        assert(per_tile * (tiles as int) <= usize::MAX) by (nonlinear_arith)
            requires
                per_tile == 4 * slots,
                light_id_buffer_size(slots - 1, tiles as int) <= usize::MAX,
        ;
        let bytes: usize = per_tile * tiles as usize;
        bytes as u64
    }
}

/// With a positive tile size the grid is the smallest one that covers the extent:
/// `count` tiles reach at least `extent` pixels and `count - 1` tiles fall short of it.
pub proof fn tile_grid_covers_extent(extent: nat, tile_size: int)
    requires
        tile_size > 0,
    ensures
        floor_div(extent + tile_size - 1, tile_size) * tile_size >= extent,
        (floor_div(extent + tile_size - 1, tile_size) - 1) * tile_size < extent,
        floor_div(extent + tile_size - 1, tile_size) >= 0,
{
    let a: int = extent + tile_size - 1;
    let q: int = a / tile_size;
    let r: int = a % tile_size;
    vstd::arithmetic::div_mod::lemma_fundamental_div_mod(a, tile_size);
    assert(0 <= r < tile_size) by {
        vstd::arithmetic::div_mod::lemma_mod_bound(a, tile_size);
    }
    assert(a == tile_size * q + r);
    assert(q * tile_size >= extent) by (nonlinear_arith)
        requires
            a == tile_size * q + r,
            r < tile_size,
            a == extent + tile_size - 1,
    ;
    assert((q - 1) * tile_size < extent) by (nonlinear_arith)
        requires
            a == tile_size * q + r,
            0 <= r,
            a == extent + tile_size - 1,
    ;
    assert(q >= 0) by (nonlinear_arith)
        requires
            a == tile_size * q + r,
            r < tile_size,
            a >= 0,
            tile_size > 0,
    ;
}

} // verus!
