//! A scene's tile layer: a grid of tile ids with an origin offset.
use vstd::prelude::*;
use crate::fixed::Vector2;

verus! {

/// Largest width or height of a layer, in tiles.
pub const MAX_LAYER_SIZE: u16 = 0x400;

/// Largest distance of a layer's origin from the world origin, in pixels.
pub const MAX_LAYER_OFFSET: i32 = 0x4000;

/// A layout entry that holds no tile.
pub const EMPTY_TILE: u16 = 0xFFFF;

/// Tile ids, row-major; `position` is the layer's origin in pixels.
pub struct TileLayer {
    pub layout: Vec<u16>,
    pub xsize: u16,
    pub ysize: u16,
    pub position: Vector2,
}

impl TileLayer {
    pub open spec fn wf(&self) -> bool {
        &&& self.xsize <= MAX_LAYER_SIZE
        &&& self.ysize <= MAX_LAYER_SIZE
        &&& self.layout@.len() == self.xsize * self.ysize
        &&& -MAX_LAYER_OFFSET <= self.position.x <= MAX_LAYER_OFFSET
        &&& -MAX_LAYER_OFFSET <= self.position.y <= MAX_LAYER_OFFSET
    }

    /// The entry at tile column `x`, row `y`, if the cell is on the layer.
    pub open spec fn tile_spec(&self, x: int, y: int) -> Option<u16> {
        if 0 <= x < self.xsize && 0 <= y < self.ysize {
            Some(self.layout@[x + y * self.xsize])
        } else {
            None
        }
    }

    /// The layout entry at tile column `x`, row `y`; `None` off the layer.
    pub fn get(&self, x: i32, y: i32) -> (r: Option<u16>)
        requires
            self.wf(),
        ensures
            r == self.tile_spec(x as int, y as int),
    {
        if x >= 0 && y >= 0 && x < self.xsize as i32 && y < self.ysize as i32 {
            let xs = self.xsize as usize;
            let ys = self.ysize as usize;
            let xu = x as usize;
            let yu = y as usize;
            proof {
                assert((yu + 1) * xs <= ys * xs) by (nonlinear_arith)
                    requires
                        yu + 1 <= ys,
                ;
                assert((yu + 1) * xs == yu * xs + xs) by (nonlinear_arith);
                assert(ys * xs == xs * ys) by (nonlinear_arith);
                assert(xs * ys <= 0x100000) by (nonlinear_arith)
                    requires
                        xs <= 0x400,
                        ys <= 0x400,
                ;
            }
            Some(self.layout[xu + yu * xs])
        } else {
            None
        }
    }
}

/// A little-endian 16-bit value from two bytes.
pub open spec fn le16(lo: u8, hi: u8) -> u16 {
    (lo + hi * 256) as u16
}

/// Builds a layer from its decoded layout: `xsize * ysize` little-endian
/// tile ids, row by row. `None` if the sizes or the origin are out of range
/// or the data is short.
pub fn load_tile_layout(data: &Vec<u8>, xsize: u16, ysize: u16, position: Vector2) -> (r: Option<TileLayer>)
    ensures
        r is Some <==> (xsize <= MAX_LAYER_SIZE && ysize <= MAX_LAYER_SIZE && data@.len() >= 2
            * xsize * ysize && -MAX_LAYER_OFFSET <= position.x <= MAX_LAYER_OFFSET
            && -MAX_LAYER_OFFSET <= position.y <= MAX_LAYER_OFFSET),
        r matches Some(l) ==> {
            &&& l.wf()
            &&& l.xsize == xsize && l.ysize == ysize && l.position == position
            &&& forall|i: int|
                0 <= i < l.layout@.len() ==> #[trigger] l.layout@[i] == le16(
                    data@[2 * i],
                    data@[2 * i + 1],
                )
        },
{
    if xsize > MAX_LAYER_SIZE || ysize > MAX_LAYER_SIZE || position.x < -MAX_LAYER_OFFSET
        || position.x > MAX_LAYER_OFFSET || position.y < -MAX_LAYER_OFFSET || position.y
        > MAX_LAYER_OFFSET {
        return None;
    }
    proof {
        assert(xsize * ysize <= 0x100000) by (nonlinear_arith)
            requires
                xsize <= 0x400,
                ysize <= 0x400,
        ;
        assert(2 * xsize * ysize == 2 * (xsize * ysize)) by (nonlinear_arith);
    }
    let n = xsize as usize * ysize as usize;
    if data.len() < 2 * n {
        return None;
    }
    let mut layout: Vec<u16> = Vec::new();
    let mut i: usize = 0;
    while i < n
        invariant
            0 <= i <= n,
            n <= 0x100000,
            data@.len() >= 2 * n,
            layout@.len() == i,
            forall|k: int|
                0 <= k < i ==> #[trigger] layout@[k] == le16(data@[2 * k], data@[2 * k + 1]),
        decreases n - i,
    {
        let lo = data[2 * i];
        let hi = data[2 * i + 1];
        layout.push(lo as u16 + (hi as u16) * 256);
        i = i + 1;
    }
    Some(TileLayer { layout, xsize, ysize, position })
}

} // verus!
