//! Map data: a packed bitmap, a generic tile grid, and the per-tile
//! state assembled from the raw map layers.

use crate::linalg::Point2;
use vstd::prelude::*;

verus! {

/// A bitmap over a rectangular map: one bit per position, packed eight
/// to a byte, row by row, highest bit first.
#[derive(Debug, Default, Clone, PartialEq, Eq, Hash)]
pub struct BitMap {
    data: Vec<u8>,
    size: Point2,
}

impl BitMap {
    /// The well-formedness the constructor establishes: a non-negative
    /// size whose bit count fits the machine, and exactly enough bytes.
    pub closed spec fn wf(self) -> bool {
        &&& 0 <= self.size.x
        &&& 0 <= self.size.y
        &&& self.size.x * self.size.y + 7 <= usize::MAX
        &&& self.data@.len() == (self.size.x * self.size.y + 7) / 8
    }

    /// The size, as contracts see it.
    pub closed spec fn spec_size(self) -> Point2 {
        self.size
    }

    /// Whether a position lies on the map.
    pub closed spec fn in_bounds(self, pos: Point2) -> bool {
        0 <= pos.x < self.size.x && 0 <= pos.y < self.size.y
    }

    /// The bit position of a map position.
    pub closed spec fn bit_index(self, pos: Point2) -> int {
        pos.x + pos.y * self.size.x
    }

    /// The packed bytes, as contracts see them.
    pub closed spec fn spec_data(self) -> Seq<u8> {
        self.data@
    }

    /// The bit at a position; off the map it reads as clear.
    pub closed spec fn spec_get(self, pos: Point2) -> bool {
        self.in_bounds(pos) && {
            let i = self.bit_index(pos);
            (self.data@[i / 8] >> ((7 - (i % 8)) as u8)) & 1 == 1
        }
    }

    /// Wrap packed bitmap bytes; the data length must match the size.
    pub fn new(data: Vec<u8>, size: Point2) -> (r: BitMap)
        requires
            0 <= size.x,
            0 <= size.y,
            size.x * size.y + 7 <= usize::MAX,
            data@.len() == (size.x * size.y + 7) / 8,
        ensures
            r.wf(),
            r.spec_size() == size,
            r.spec_data() == data@,
    {
        BitMap { data, size }
    }

    /// The map size.
    pub fn size(&self) -> (s: Point2)
        ensures
            s == self.spec_size(),
    {
        self.size
    }

    /// The byte index and bit shift of a position, or `None` off the map.
    fn idx(&self, pos: Point2) -> (r: Option<(usize, u8)>)
        requires
            self.wf(),
        ensures
            self.in_bounds(pos) ==> (r matches Some(p) && p.0 == self.bit_index(pos) / 8 && p.1
                == (7 - self.bit_index(pos) % 8) as u8 && p.0 < self.data@.len()),
            !self.in_bounds(pos) ==> r is None,
    {
        if pos.x < 0 || pos.y < 0 || pos.x >= self.size.x || pos.y >= self.size.y {
            return None;
        }
        proof {
            assert(pos.x + pos.y * self.size.x < self.size.x * self.size.y) by (nonlinear_arith)
                requires
                    0 <= pos.x < self.size.x,
                    0 <= pos.y < self.size.y,
            ;
            assert(0 <= pos.y * self.size.x) by (nonlinear_arith)
                requires
                    0 <= pos.y,
                    0 <= self.size.x,
            ;
        }
        let i: usize = (pos.x as usize) + (pos.y as usize) * (self.size.x as usize);
        let byte = i / 8;
        let shift = (7 - (i % 8)) as u8;
        Some((byte, shift))
    }

    /// The bit at a position; off the map it reads as clear.
    pub fn get(&self, pos: Point2) -> (r: bool)
        requires
            self.wf(),
        ensures
            r == self.spec_get(pos),
    {
        match self.idx(pos) {
            None => false,
            Some((byte, shift)) => (self.data[byte] >> shift) & 1 == 1,
        }
    }

    /// Set the bit at a position to `val`; off the map nothing changes.
    pub fn set(&mut self, pos: Point2, val: bool)
        requires
            old(self).wf(),
        ensures
            final(self).wf(),
            final(self).spec_size() == old(self).spec_size(),
            forall|p: Point2| #[trigger] final(self).spec_get(p) == if p == pos && old(
                self,
            ).in_bounds(pos) {
                val
            } else {
                old(self).spec_get(p)
            },
    {
        let ghost old_self = *self;
        match self.idx(pos) {
            None => {
                proof {
                    assert(forall|p: Point2| #[trigger] self.spec_get(p) == old_self.spec_get(p));
                }
            },
            Some((byte, shift)) => {
                let b = self.data[byte];
                let nb = if val {
                    b | (1u8 << shift)
                } else {
                    b & !(1u8 << shift)
                };
                self.data.set(byte, nb);
                proof {
                    lemma_bit_set(b, nb, shift, val);
                    let j = old_self.bit_index(pos);
                    assert(self.data@ == old_self.data@.update(byte as int, nb));
                    assert forall|p: Point2| #[trigger] self.spec_get(p) == if p == pos
                        && old_self.in_bounds(pos) {
                        val
                    } else {
                        old_self.spec_get(p)
                    } by {
                        if old_self.in_bounds(p) {
                            let i = old_self.bit_index(p);
                            assert(0 <= i < old_self.size.x * old_self.size.y)
                                by (nonlinear_arith)
                                requires
                                    0 <= p.x < old_self.size.x,
                                    0 <= p.y < old_self.size.y,
                                    i == p.x + p.y * old_self.size.x,
                            ;
                            assert(i / 8 < old_self.data@.len());
                            if p == pos {
                                assert(self.data@[j / 8] == nb);
                                assert((nb >> shift) & 1 == (if val {
                                    1u8
                                } else {
                                    0u8
                                }));
                            } else {
                                lemma_bit_index_injective(old_self, p, pos);
                                let t = (7 - i % 8) as u8;
                                if i / 8 == j / 8 {
                                    assert(i % 8 != j % 8);
                                    assert(t < 8 && t != shift);
                                    assert((nb >> t) & 1 == (b >> t) & 1);
                                    assert(self.data@[i / 8] == nb);
                                } else {
                                    assert(self.data@[i / 8] == old_self.data@[i / 8]);
                                }
                            }
                        } else {
                            assert(!self.in_bounds(p));
                        }
                    }
                }
            },
        }
    }
}

/// How the packed bytes encode the bits: a position inside the
/// rectangle reads the bit `x + y * width` of the data, counted row by
/// row with the highest bit of each byte first, and any other position
/// reads as clear. This opens the otherwise abstract [`BitMap::spec_get`]
/// to callers, in terms of [`BitMap::spec_size`] and
/// [`BitMap::spec_data`] alone.
pub proof fn lemma_bitmap_layout(m: BitMap, pos: Point2)
    requires
        m.wf(),
    ensures
        m.spec_data().len() == (m.spec_size().x * m.spec_size().y + 7) / 8,
        m.spec_get(pos) == (0 <= pos.x < m.spec_size().x && 0 <= pos.y < m.spec_size().y && {
            let i = pos.x + pos.y * m.spec_size().x;
            (m.spec_data()[i / 8] >> ((7 - (i % 8)) as u8)) & 1 == 1
        }),
{
}

/// Setting one bit leaves every other bit of the byte unchanged.
proof fn lemma_bit_set(b: u8, nb: u8, shift: u8, val: bool)
    requires
        shift < 8,
        nb == if val {
            b | (1u8 << shift)
        } else {
            b & !(1u8 << shift)
        },
    ensures
        (nb >> shift) & 1 == (if val {
            1u8
        } else {
            0u8
        }),
        forall|t: u8| t < 8 && t != shift ==> ((nb >> t) & 1 == #[trigger] ((b >> t) & 1)),
{
    assert((((b | (1u8 << shift)) >> shift) & 1 == 1) && (((b & !(1u8 << shift)) >> shift) & 1
        == 0)) by (bit_vector)
        requires
            shift < 8,
    ;
    assert forall|t: u8| t < 8 && t != shift implies ((nb >> t) & 1 == ((b >> t) & 1)) by {
        assert((((b | (1u8 << shift)) >> t) & 1 == ((b >> t) & 1)) && (((b & !(1u8 << shift)) >> t)
            & 1 == ((b >> t) & 1))) by (bit_vector)
            requires
                shift < 8,
                t < 8,
                t != shift,
        ;
    }
}

/// Distinct in-bounds positions have distinct bit positions.
proof fn lemma_bit_index_injective(m: BitMap, p: Point2, q: Point2)
    requires
        m.in_bounds(p),
        m.in_bounds(q),
        p != q,
    ensures
        m.bit_index(p) != m.bit_index(q),
{
    assert(p.x + p.y * m.size.x != q.x + q.y * m.size.x) by (nonlinear_arith)
        requires
            0 <= p.x < m.size.x,
            0 <= q.x < m.size.x,
            0 <= p.y,
            0 <= q.y,
            p.x != q.x || p.y != q.y,
    ;
}

/// A rectangular grid of values, one per map position, row by row.
#[derive(Debug, Default, Clone, PartialEq, Eq, Hash)]
pub struct Grid<T> {
    data: Vec<T>,
    size: Point2,
}

impl<T> Grid<T> {
    /// The well-formedness the constructor establishes.
    pub closed spec fn wf(self) -> bool {
        &&& 0 <= self.size.x
        &&& 0 <= self.size.y
        &&& self.size.x * self.size.y <= usize::MAX
        &&& self.data@.len() == self.size.x * self.size.y
    }

    /// The size, as contracts see it.
    pub closed spec fn spec_size(self) -> Point2 {
        self.size
    }

    /// The values, as contracts see them.
    pub closed spec fn spec_data(self) -> Seq<T> {
        self.data@
    }

    /// Whether a position lies on the grid.
    pub closed spec fn in_bounds(self, pos: Point2) -> bool {
        0 <= pos.x < self.size.x && 0 <= pos.y < self.size.y
    }

    /// The element position of a map position.
    pub closed spec fn index_of(self, pos: Point2) -> int {
        pos.x + pos.y * self.size.x
    }

    /// Wrap grid values; the data length must match the size.
    pub fn new(data: Vec<T>, size: Point2) -> (r: Grid<T>)
        requires
            0 <= size.x,
            0 <= size.y,
            size.x * size.y <= usize::MAX,
            data@.len() == size.x * size.y,
        ensures
            r.wf(),
            r.spec_size() == size,
            r.spec_data() == data@,
    {
        Grid { data, size }
    }

    /// The grid size.
    pub fn size(&self) -> (s: Point2)
        ensures
            s == self.spec_size(),
    {
        self.size
    }

    /// The flat element position of a map position, or `None` off grid.
    fn idx(&self, pos: Point2) -> (r: Option<usize>)
        requires
            self.wf(),
        ensures
            self.in_bounds(pos) ==> (r matches Some(i) && i == self.index_of(pos) && i
                < self.data@.len()),
            !self.in_bounds(pos) ==> r is None,
    {
        if pos.x < 0 || pos.y < 0 || pos.x >= self.size.x || pos.y >= self.size.y {
            return None;
        }
        proof {
            assert(pos.x + pos.y * self.size.x < self.size.x * self.size.y) by (nonlinear_arith)
                requires
                    0 <= pos.x < self.size.x,
                    0 <= pos.y < self.size.y,
            ;
            assert(0 <= pos.y * self.size.x) by (nonlinear_arith)
                requires
                    0 <= pos.y,
                    0 <= self.size.x,
            ;
        }
        Some((pos.x as usize) + (pos.y as usize) * (self.size.x as usize))
    }

    /// The value at a position, or `None` off the grid.
    pub fn get(&self, pos: Point2) -> (r: Option<&T>)
        requires
            self.wf(),
        ensures
            self.in_bounds(pos) ==> (r matches Some(v) && *v == self.spec_data()[self.index_of(
                pos,
            )]),
            !self.in_bounds(pos) ==> r is None,
    {
        match self.idx(pos) {
            None => None,
            Some(i) => Some(&self.data[i]),
        }
    }

    /// Replace the value at a position; off the grid nothing changes.
    pub fn set(&mut self, pos: Point2, val: T)
        requires
            old(self).wf(),
        ensures
            final(self).wf(),
            final(self).spec_size() == old(self).spec_size(),
            old(self).in_bounds(pos) ==> final(self).spec_data() == old(self).spec_data().update(
                old(self).index_of(pos),
                val,
            ),
            !old(self).in_bounds(pos) ==> final(self).spec_data() == old(self).spec_data(),
    {
        match self.idx(pos) {
            None => {},
            Some(i) => {
                self.data.set(i, val);
            },
        }
    }
}

/// How the grid stores its values: row by row, the position `(x, y)` at
/// flat index `x + y * width`. This opens the otherwise abstract
/// [`Grid::in_bounds`] and [`Grid::index_of`] to callers, in terms of
/// [`Grid::spec_size`] and [`Grid::spec_data`] alone.
pub proof fn lemma_grid_layout<T>(g: Grid<T>, pos: Point2)
    requires
        g.wf(),
    ensures
        g.spec_data().len() == g.spec_size().x * g.spec_size().y,
        g.in_bounds(pos) == (0 <= pos.x < g.spec_size().x && 0 <= pos.y < g.spec_size().y),
        g.index_of(pos) == pos.x + pos.y * g.spec_size().x,
{
}

/// Terrain height at one position, in the game's packed byte encoding.
#[derive(Debug, Default, Clone, Copy, PartialEq, Eq, Hash, Structural)]
pub struct Height(pub u8);

/// Visibility of one position.
#[derive(Debug, Default, Clone, Copy, PartialEq, Eq, Hash, Structural)]
pub enum Vision {
    Hidden,
    Fog,
    Clear,
    #[default]
    Black,
}

impl Vision {
    /// Whether the position is currently in full view.
    pub fn is_clear(self) -> (r: bool)
        ensures
            r == (self is Clear),
    {
        match self {
            Vision::Clear => true,
            _ => false,
        }
    }

    /// The vision level a raw visibility byte stands for.
    pub fn from_raw(val: u8) -> (r: Vision)
        ensures
            r == spec_vision_from_raw(val),
    {
        if val == 0 {
            Vision::Hidden
        } else if val == 1 {
            Vision::Fog
        } else if val == 2 {
            Vision::Clear
        } else {
            Vision::Black
        }
    }
}

/// The vision level a raw visibility byte stands for.
pub open spec fn spec_vision_from_raw(val: u8) -> Vision {
    if val == 0 {
        Vision::Hidden
    } else if val == 1 {
        Vision::Fog
    } else if val == 2 {
        Vision::Clear
    } else {
        Vision::Black
    }
}

/// Per-tile terrain flags, packed as bits.
#[derive(Debug, Default, Clone, Copy, PartialEq, Eq, Hash, Structural)]
pub struct TileFlags(pub u8);

/// The pathable-terrain flag bit.
pub const PATH: u8 = 1;

/// The placeable-terrain flag bit.
pub const PLACE: u8 = 1 << 1;

/// The creep flag bit.
pub const CREEP: u8 = 1 << 2;

impl TileFlags {
    /// Whether every bit of `bits` is set.
    pub fn contains(self, bits: u8) -> (r: bool)
        ensures
            r == (self.0 & bits == bits),
    {
        self.0 & bits == bits
    }

    /// The flags with every bit of `bits` set.
    pub fn insert(self, bits: u8) -> (r: TileFlags)
        ensures
            r.0 == self.0 | bits,
    {
        TileFlags(self.0 | bits)
    }

    /// The flags with every bit of `bits` set to `val`.
    pub fn set(self, bits: u8, val: bool) -> (r: TileFlags)
        ensures
            r.0 == if val {
                self.0 | bits
            } else {
                self.0 & !bits
            },
    {
        if val {
            TileFlags(self.0 | bits)
        } else {
            TileFlags(self.0 & !bits)
        }
    }
}

/// Everything the map knows about one position.
#[derive(Debug, Default, Clone, Copy, PartialEq, Eq, Hash, Structural)]
pub struct Tile {
    pub flags: TileFlags,
    pub height: Height,
    pub vision: Vision,
    pub last_seen: u32,
}

/// The tile the raw map layers define at flat index `i` of a map that is
/// `w` positions wide.
pub open spec fn spec_raw_tile(
    pathing: BitMap,
    placement: BitMap,
    creep: BitMap,
    height: Grid<u8>,
    vision: Grid<u8>,
    w: int,
    i: int,
) -> Tile {
    let pos = Point2 { x: (i % w) as i32, y: (i / w) as i32 };
    Tile {
        flags: TileFlags(
            (if pathing.spec_get(pos) {
                PATH
            } else {
                0
            }) | (if placement.spec_get(pos) {
                PLACE
            } else {
                0
            }) | (if creep.spec_get(pos) {
                CREEP
            } else {
                0
            }),
        ),
        height: Height(height.spec_data()[i]),
        vision: spec_vision_from_raw(vision.spec_data()[i]),
        last_seen: 0,
    }
}

/// The tile after one observation update: the creep flag follows the
/// new creep layer, the vision level follows the new visibility byte,
/// and a tile in full view remembers the current game loop.
pub open spec fn spec_updated_tile(t: Tile, creep_set: bool, vis: u8, game_loop: u32) -> Tile {
    let vision = spec_vision_from_raw(vis);
    Tile {
        flags: TileFlags(
            if creep_set {
                t.flags.0 | CREEP
            } else {
                t.flags.0 & !CREEP
            },
        ),
        height: t.height,
        vision,
        last_seen: if vision is Clear {
            game_loop
        } else {
            t.last_seen
        },
    }
}

impl Grid<Tile> {
    /// Assemble the tile map from the raw start-of-game layers: the
    /// pathing, placement and creep bitmaps and the terrain-height and
    /// visibility grids, all of one size.
    #[verifier::loop_isolation(false)]
    pub fn from_raw(
        pathing: &BitMap,
        placement: &BitMap,
        creep: &BitMap,
        height: &Grid<u8>,
        vision: &Grid<u8>,
    ) -> (r: Grid<Tile>)
        requires
            pathing.wf(),
            placement.wf(),
            creep.wf(),
            height.wf(),
            vision.wf(),
            placement.spec_size() == pathing.spec_size(),
            creep.spec_size() == pathing.spec_size(),
            height.spec_size() == pathing.spec_size(),
            vision.spec_size() == pathing.spec_size(),
        ensures
            r.wf(),
            r.spec_size() == pathing.spec_size(),
            r.spec_data().len() == pathing.spec_size().x * pathing.spec_size().y,
            forall|i: int| 0 <= i < r.spec_data().len() ==> r.spec_data()[i] == spec_raw_tile(
                *pathing,
                *placement,
                *creep,
                *height,
                *vision,
                pathing.spec_size().x as int,
                i,
            ),
    {
        let size = pathing.size();
        let w = size.x as usize;
        let h = size.y as usize;
        let n = w * h;
        let mut data: Vec<Tile> = Vec::new();
        let mut i: usize = 0;
        while i < n
            invariant
                data@.len() == i,
                i <= n,
                forall|j: int| 0 <= j < i ==> data@[j] == spec_raw_tile(
                    *pathing,
                    *placement,
                    *creep,
                    *height,
                    *vision,
                    w as int,
                    j,
                ),
            decreases n - i,
        {
            proof {
                assert(0 < w) by (nonlinear_arith)
                    requires
                        0 <= w,
                        (i as int) < (w as int) * (h as int),
                ;
            }
            let x = i % w;
            let y = i / w;
            proof {
                vstd::arithmetic::div_mod::lemma_fundamental_div_mod(i as int, w as int);
                assert(y < h) by (nonlinear_arith)
                    requires
                        0 < w,
                        (i as int) < (w as int) * (h as int),
                        (i as int) == (w as int) * (y as int) + (x as int),
                        0 <= (x as int) < (w as int),
                        0 <= y,
                ;
            }
            let pos = Point2::new(x as i32, y as i32);
            proof {
                assert((w as int) == (size.x as int));
                assert((h as int) == (size.y as int));
                assert(pathing.spec_size() == size);
                assert((x as int) == ((x as i32) as int));
                assert((y as int) == ((y as i32) as int));
                assert((i as int) == (x as int) + (y as int) * (w as int));
                assert(pathing.bit_index(pos) == i);
                assert(height.index_of(pos) == i);
            }
            let pf: u8 = if pathing.get(pos) {
                PATH
            } else {
                0
            };
            let plf: u8 = if placement.get(pos) {
                PLACE
            } else {
                0
            };
            let cf: u8 = if creep.get(pos) {
                CREEP
            } else {
                0
            };
            let flags = TileFlags(pf | plf | cf);
            let hv: u8 = match height.get(pos) {
                Some(v) => *v,
                None => 0,
            };
            let vv: u8 = match vision.get(pos) {
                Some(v) => *v,
                None => 0,
            };
            data.push(
                Tile { flags, height: Height(hv), vision: Vision::from_raw(vv), last_seen: 0 },
            );
            proof {
                assert(data@[i as int] == spec_raw_tile(
                    *pathing,
                    *placement,
                    *creep,
                    *height,
                    *vision,
                    w as int,
                    i as int,
                ));
            }
            i = i + 1;
        }
        Grid::new(data, size)
    }

    /// Fold one observation into the tile map: refresh the creep layer,
    /// the vision levels and, for tiles in full view, the game loop at
    /// which they were last seen.
    #[verifier::loop_isolation(false)]
    pub fn update(&mut self, creep: &BitMap, visibility: &Grid<u8>, game_loop: u32)
        requires
            old(self).wf(),
            creep.wf(),
            visibility.wf(),
            creep.spec_size() == old(self).spec_size(),
            visibility.spec_size() == old(self).spec_size(),
        ensures
            final(self).wf(),
            final(self).spec_size() == old(self).spec_size(),
            final(self).spec_data().len() == old(self).spec_data().len(),
            forall|i: int| 0 <= i < final(self).spec_data().len() ==> final(self).spec_data()[i]
                == spec_updated_tile(
                old(self).spec_data()[i],
                creep.spec_get(
                    Point2 {
                        x: (i % (old(self).spec_size().x as int)) as i32,
                        y: (i / (old(self).spec_size().x as int)) as i32,
                    },
                ),
                visibility.spec_data()[i],
                game_loop,
            ),
    {
        let w = self.size.x as usize;
        let n = self.data.len();
        proof {
            assert(n <= w * (self.size.y as usize)) by (nonlinear_arith)
                requires
                    (n as int) == (self.size.x as int) * (self.size.y as int),
                    w == self.size.x as int,
            ;
        }
        let mut i: usize = 0;
        while i < n
            invariant
                self.size == old(self).spec_size(),
                self.data@.len() == n,
                i <= n,
                forall|j: int| i <= j < n ==> self.data@[j] == old(self).spec_data()[j],
                forall|j: int| 0 <= j < i ==> self.data@[j] == spec_updated_tile(
                    old(self).spec_data()[j],
                    creep.spec_get(
                        Point2 { x: (j % (w as int)) as i32, y: (j / (w as int)) as i32 },
                    ),
                    visibility.spec_data()[j],
                    game_loop,
                ),
            decreases n - i,
        {
            proof {
                assert(0 < w) by (nonlinear_arith)
                    requires
                        0 <= w,
                        (i as int) < (w as int) * (self.size.y as int),
                ;
            }
            let x = i % w;
            let y = i / w;
            proof {
                vstd::arithmetic::div_mod::lemma_fundamental_div_mod(i as int, w as int);
                assert(y < self.size.y) by (nonlinear_arith)
                    requires
                        0 < w,
                        (i as int) < (w as int) * (self.size.y as int),
                        (i as int) == (w as int) * (y as int) + (x as int),
                        0 <= (x as int) < (w as int),
                        0 <= y,
                ;
            }
            let pos = Point2::new(x as i32, y as i32);
            proof {
                assert((w as int) == (self.size.x as int));
                assert(creep.spec_size() == self.size);
                assert((x as int) == ((x as i32) as int));
                assert((y as int) == ((y as i32) as int));
                assert((i as int) == (x as int) + (y as int) * (w as int));
                assert(creep.bit_index(pos) == i);
                assert(visibility.index_of(pos) == i);
            }
            let t = self.data[i];
            let vv: u8 = match visibility.get(pos) {
                Some(v) => *v,
                None => 0,
            };
            let vision = Vision::from_raw(vv);
            let updated = Tile {
                flags: t.flags.set(CREEP, creep.get(pos)),
                height: t.height,
                vision,
                last_seen: if vision.is_clear() {
                    game_loop
                } else {
                    t.last_seen
                },
            };
            self.data.set(i, updated);
            proof {
                assert(self.data@[i as int] == spec_updated_tile(
                    old(self).spec_data()[i as int],
                    creep.spec_get(pos),
                    visibility.spec_data()[i as int],
                    game_loop,
                ));
            }
            i = i + 1;
        }
    }
}

} // verus!
