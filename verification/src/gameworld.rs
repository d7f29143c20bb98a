//! The world is cut into square tiles on an integer lattice. Around the
//! player's tile a 20 × 20 block of tiles is kept loaded; when the player
//! crosses into another tile, the tiles of the new block that the old block
//! lacked are spawned, and tiles that drift beyond the render distance are
//! culled.

use vstd::prelude::*;
use vstd::arithmetic::div_mod::{lemma_fundamental_div_mod, lemma_fundamental_div_mod_converse, lemma_mod_pos_bound};

verus! {

/// A position on the tile lattice, counted in tiles.
#[derive(Debug, Clone, Copy, PartialEq, Eq, Structural)]
pub struct TileCoord {
    pub x: i32,
    pub y: i32,
}

/// A tile whose Manhattan distance from the player's tile exceeds this is culled.
pub const RENDER_DISTANCE: u32 = 20;

/// The loaded block reaches this many tiles below the centre on each axis,
/// and one tile fewer above it: offsets `-LOAD_RADIUS .. LOAD_RADIUS`.
pub const LOAD_RADIUS: i32 = 10;

/// `|a - b|`.
pub open spec fn abs_diff(a: int, b: int) -> int {
    if a >= b {
        a - b
    } else {
        b - a
    }
}

impl TileCoord {
    /// The Manhattan distance between two lattice positions.
    pub open spec fn manhattan(self, rhs: TileCoord) -> int {
        abs_diff(self.x as int, rhs.x as int) + abs_diff(self.y as int, rhs.y as int)
    }

    /// The Manhattan distance between two lattice positions, which must fit
    /// in a `u32` (the sum of the two axis distances is not checked for
    /// overflow otherwise).
    pub fn manhattan_distance(self, rhs: TileCoord) -> (d: u32)
        requires
            self.manhattan(rhs) <= u32::MAX,
        ensures
            d == self.manhattan(rhs),
    {
        let dx: i64 = if self.x >= rhs.x {
            self.x as i64 - rhs.x as i64
        } else {
            rhs.x as i64 - self.x as i64
        };
        let dy: i64 = if self.y >= rhs.y {
            self.y as i64 - rhs.y as i64
        } else {
            rhs.y as i64 - self.y as i64
        };
        (dx + dy) as u32
    }
}

/// Something that sits on one lattice position.
pub trait Tile {
    /// The lattice position of the tile.
    spec fn tile_pos(&self) -> TileCoord;

    /// A tile at `pos`.
    fn new(pos: TileCoord) -> (tile: Self) where Self: std::marker::Sized
        ensures
            tile.tile_pos() == pos,
    ;

    /// The lattice position of the tile.
    fn pos(&self) -> (p: TileCoord)
        ensures
            p == self.tile_pos(),
    ;

    /// Manhattan distance from the tile to `rhs`, in tiles.
    fn distance(&self, rhs: TileCoord) -> (d: u32)
        requires
            self.tile_pos().manhattan(rhs) <= u32::MAX,
        ensures
            d == self.tile_pos().manhattan(rhs),
    {
        self.pos().manhattan_distance(rhs)
    }
}

/// A tile of the world that has been spawned.
#[derive(Debug, Clone, Copy, PartialEq, Eq, Structural)]
pub struct WorldTile(TileCoord);

impl Tile for WorldTile {
    closed spec fn tile_pos(&self) -> TileCoord {
        self.0
    }

    fn new(pos: TileCoord) -> (tile: WorldTile) {
        WorldTile(pos)
    }

    fn pos(&self) -> (p: TileCoord) {
        self.0
    }
}

/// The tile around which the loaded block was last laid out.
#[derive(Debug, Clone, Copy, PartialEq, Eq, Structural)]
pub struct CentreTile(TileCoord);

impl Tile for CentreTile {
    closed spec fn tile_pos(&self) -> TileCoord {
        self.0
    }

    fn new(pos: TileCoord) -> (tile: CentreTile) {
        CentreTile(pos)
    }

    fn pos(&self) -> (p: TileCoord) {
        self.0
    }
}

/// Every tile of the block around `c` has coordinates that fit in an `i32`.
pub open spec fn loaded_window_in_range(c: TileCoord) -> bool {
    &&& i32::MIN + LOAD_RADIUS <= c.x
    &&& c.x + LOAD_RADIUS - 1 <= i32::MAX
    &&& i32::MIN + LOAD_RADIUS <= c.y
    &&& c.y + LOAD_RADIUS - 1 <= i32::MAX
}

/// `p` lies in the block that is loaded around `c`.
pub open spec fn in_loaded_window(c: TileCoord, p: TileCoord) -> bool {
    &&& c.x - LOAD_RADIUS <= p.x < c.x + LOAD_RADIUS
    &&& c.y - LOAD_RADIUS <= p.y < c.y + LOAD_RADIUS
}

/// The `k`-th tile of the block around `c`: the block is walked column by
/// column (`x` outer, `y` inner), each column holding 20 tiles.
pub open spec fn loaded_tile_at(c: TileCoord, k: int) -> TileCoord {
    TileCoord { x: (c.x + k / 20 - LOAD_RADIUS) as i32, y: (c.y + k % 20 - LOAD_RADIUS) as i32 }
}

/// The 400 tiles of the block around `c`, in walking order.
pub open spec fn loaded_window(c: TileCoord) -> Seq<TileCoord> {
    Seq::new(400, |k: int| loaded_tile_at(c, k))
}

/// The predicate "not among the tiles of `s`".
pub open spec fn absent_from(s: Seq<TileCoord>) -> spec_fn(TileCoord) -> bool {
    |p: TileCoord| !s.contains(p)
}

/// The tiles that moving the loaded block from around `old` to around
/// `current` brings in: those of the new block, in its order, that the old
/// block lacks.
pub open spec fn tiles_brought_in(old: TileCoord, current: TileCoord) -> Seq<TileCoord> {
    loaded_window(current).filter(absent_from(loaded_window(old)))
}

/// The 20 × 20 block of tile positions loaded around `lattice_pos`.
pub fn loaded_tiles(lattice_pos: TileCoord) -> (tiles: Vec<TileCoord>)
    requires
        loaded_window_in_range(lattice_pos),
    ensures
        tiles@ == loaded_window(lattice_pos),
{
    let mut tiles: Vec<TileCoord> = Vec::new();
    let mut i: i32 = -LOAD_RADIUS;
    while i < LOAD_RADIUS
        invariant
            -LOAD_RADIUS <= i <= LOAD_RADIUS,
            loaded_window_in_range(lattice_pos),
            tiles@.len() == 20 * (i + LOAD_RADIUS),
            forall|k: int|
                0 <= k < tiles@.len() ==> #[trigger] tiles@[k] == loaded_tile_at(lattice_pos, k),
        decreases LOAD_RADIUS - i,
    {
        let mut j: i32 = -LOAD_RADIUS;
        while j < LOAD_RADIUS
            invariant
                -LOAD_RADIUS <= i < LOAD_RADIUS,
                -LOAD_RADIUS <= j <= LOAD_RADIUS,
                loaded_window_in_range(lattice_pos),
                tiles@.len() == 20 * (i + LOAD_RADIUS) + (j + LOAD_RADIUS),
                forall|k: int|
                    0 <= k < tiles@.len() ==> #[trigger] tiles@[k] == loaded_tile_at(
                        lattice_pos,
                        k,
                    ),
            decreases LOAD_RADIUS - j,
        {
            proof {
                lemma_fundamental_div_mod_converse(
                    tiles@.len() as int,
                    20,
                    (i + LOAD_RADIUS) as int,
                    (j + LOAD_RADIUS) as int,
                );
            }
            tiles.push(TileCoord { x: lattice_pos.x + i, y: lattice_pos.y + j });
            j = j + 1;
        }
        i = i + 1;
    }
    assert(tiles@ =~= loaded_window(lattice_pos));
    tiles
}

/// The lattice position the player starts on.
pub open spec fn start_tile() -> TileCoord {
    TileCoord { x: 0, y: 0 }
}

/// The world as the game starts: the centre tile at the origin, and the
/// tiles to spawn, which are the block loaded around that centre.
pub fn starting_world() -> (world: (CentreTile, Vec<TileCoord>))
    ensures
        world.0.tile_pos() == start_tile(),
        world.1@ == loaded_window(world.0.tile_pos()),
{
    let origin = TileCoord { x: 0, y: 0 };
    let centre = CentreTile::new(origin);
    let tiles = loaded_tiles(origin);
    (centre, tiles)
}

/// Re-centres the loaded block on `current_lattice_pos`, the tile the
/// player now stands on, and returns the tile positions to spawn: none when
/// the player is still on the centre tile, and otherwise the tiles of the
/// new block that the old block lacked, in the block's walking order.
pub fn spawn_new_tiles(centre_tile: &mut CentreTile, current_lattice_pos: TileCoord) -> (spawned:
    Vec<TileCoord>)
    requires
        old(centre_tile).tile_pos() != current_lattice_pos ==> {
            &&& loaded_window_in_range(old(centre_tile).tile_pos())
            &&& loaded_window_in_range(current_lattice_pos)
        },
    ensures
        final(centre_tile).tile_pos() == current_lattice_pos,
        old(centre_tile).tile_pos() == current_lattice_pos ==> spawned@ == Seq::<TileCoord>::empty(),
        old(centre_tile).tile_pos() != current_lattice_pos ==> spawned@ == tiles_brought_in(
            old(centre_tile).tile_pos(),
            current_lattice_pos,
        ),
{
    let mut spawned: Vec<TileCoord> = Vec::new();
    let centre = centre_tile.pos();
    if current_lattice_pos != centre {
        let new_tiles = loaded_tiles(current_lattice_pos);
        let old_tiles = loaded_tiles(centre);
        let ghost pred = absent_from(old_tiles@);
        let mut n: usize = 0;
        while n < new_tiles.len()
            invariant
                n <= new_tiles@.len(),
                pred == absent_from(old_tiles@),
                spawned@ == new_tiles@.take(n as int).filter(pred),
            decreases new_tiles@.len() - n,
        {
            let nt = new_tiles[n];
            let mut loaded = false;
            let mut o: usize = 0;
            while o < old_tiles.len()
                invariant
                    o <= old_tiles@.len(),
                    loaded == old_tiles@.take(o as int).contains(nt),
                decreases old_tiles@.len() - o,
            {
                proof {
                    assert(old_tiles@.take(o + 1) =~= old_tiles@.take(o as int).push(old_tiles@[o as int]));
                    if old_tiles@.take(o as int).contains(nt) {
                        let w = choose|w: int| 0 <= w < o && old_tiles@.take(o as int)[w] == nt;
                        assert(old_tiles@.take(o + 1)[w] == nt);
                    }
                    if old_tiles@[o as int] == nt {
                        assert(old_tiles@.take(o + 1)[o as int] == nt);
                    }
                }
                if nt == old_tiles[o] {
                    loaded = true;
                }
                o = o + 1;
            }
            proof {
                assert(old_tiles@.take(old_tiles@.len() as int) =~= old_tiles@);
                assert(new_tiles@.take(n + 1) =~= new_tiles@.take(n as int).push(nt));
                new_tiles@.take(n as int).lemma_filter_push(nt, pred);
            }
            if !loaded {
                spawned.push(nt);
            }
            n = n + 1;
        }
        assert(new_tiles@.take(new_tiles@.len() as int) =~= new_tiles@);
    }
    *centre_tile = CentreTile::new(current_lattice_pos);
    spawned
}

/// Whether `tile` lies beyond the render distance of the player's tile
/// `current_tile` and so is to be removed.
pub fn should_cull(tile: &WorldTile, current_tile: TileCoord) -> (cull: bool)
    requires
        tile.tile_pos().manhattan(current_tile) <= u32::MAX,
    ensures
        cull == (tile.tile_pos().manhattan(current_tile) > RENDER_DISTANCE),
{
    tile.distance(current_tile) > RENDER_DISTANCE
}

/// The block loaded around `c` holds exactly the positions `p` with
/// `c.x - 10 <= p.x < c.x + 10` and `c.y - 10 <= p.y < c.y + 10`.
pub proof fn lemma_loaded_window_membership(c: TileCoord, p: TileCoord)
    requires
        loaded_window_in_range(c),
    ensures
        loaded_window(c).contains(p) <==> in_loaded_window(c, p),
{
    if in_loaded_window(c, p) {
        let q = p.x - c.x + LOAD_RADIUS;
        let r = p.y - c.y + LOAD_RADIUS;
        let k = q * 20 + r;
        lemma_fundamental_div_mod_converse(k, 20, q, r);
        assert(loaded_window(c)[k] == p);
    }
    if loaded_window(c).contains(p) {
        let k = choose|k: int| 0 <= k < loaded_window(c).len() && loaded_window(c)[k] == p;
        lemma_fundamental_div_mod(k, 20);
        lemma_mod_pos_bound(k, 20);
        assert(loaded_tile_at(c, k) == p);
    }
}

/// No position occurs twice in a loaded block.
pub proof fn lemma_loaded_window_distinct(c: TileCoord)
    requires
        loaded_window_in_range(c),
    ensures
        loaded_window(c).no_duplicates(),
{
    let w = loaded_window(c);
    assert forall|a: int, b: int| 0 <= a < w.len() && 0 <= b < w.len() && a != b implies w[a]
        != w[b] by {
        lemma_fundamental_div_mod(a, 20);
        lemma_mod_pos_bound(a, 20);
        lemma_fundamental_div_mod(b, 20);
        lemma_mod_pos_bound(b, 20);
        assert(0 <= a / 20 < 20);
        assert(0 <= b / 20 < 20);
        if w[a] == w[b] {
            assert(loaded_tile_at(c, a) == loaded_tile_at(c, b));
            assert(a / 20 == b / 20);
            assert(a % 20 == b % 20);
        }
    }
}

/// Filtering keeps a sequence free of repeats.
proof fn lemma_filter_keeps_distinct(s: Seq<TileCoord>, pred: spec_fn(TileCoord) -> bool)
    requires
        s.no_duplicates(),
    ensures
        s.filter(pred).no_duplicates(),
    decreases s.len(),
{
    reveal(Seq::filter);
    if s.len() > 0 {
        let rest = s.drop_last();
        assert(rest.no_duplicates());
        lemma_filter_keeps_distinct(rest, pred);
        if pred(s.last()) {
            if rest.filter(pred).contains(s.last()) {
                rest.lemma_filter_contains_rev(pred, s.last());
                let i = choose|i: int| 0 <= i < rest.len() && rest[i] == s.last();
                assert(s[i] == s[s.len() - 1]);
            }
        }
    }
}

/// When the player crosses from the tile `old` to the tile `current`, the
/// tiles spawned are exactly the positions of the block around `current`
/// that lie outside the block around `old`, and none is spawned twice. So
/// afterwards every position of the new block is either one that was
/// already loaded or one that was just spawned.
pub proof fn law_move_spawns_exactly_the_new_positions(old: TileCoord, current: TileCoord)
    requires
        loaded_window_in_range(old),
        loaded_window_in_range(current),
    ensures
        forall|p: TileCoord|
            #[trigger] tiles_brought_in(old, current).contains(p) <==> (in_loaded_window(current, p)
                && !in_loaded_window(old, p)),
        tiles_brought_in(old, current).no_duplicates(),
{
    let pred = absent_from(loaded_window(old));
    let fresh = loaded_window(current);
    assert forall|p: TileCoord|
        #[trigger] tiles_brought_in(old, current).contains(p) <==> (in_loaded_window(current, p)
            && !in_loaded_window(old, p)) by {
        lemma_loaded_window_membership(old, p);
        lemma_loaded_window_membership(current, p);
        if tiles_brought_in(old, current).contains(p) {
            fresh.lemma_filter_contains_rev(pred, p);
            let i = choose|i: int|
                0 <= i < fresh.filter(pred).len() && fresh.filter(pred)[i] == p;
            fresh.lemma_filter_pred(pred, i);
        }
        if in_loaded_window(current, p) && !in_loaded_window(old, p) {
            let i = choose|i: int| 0 <= i < fresh.len() && fresh[i] == p;
            fresh.lemma_filter_contains(pred, i);
        }
    }
    lemma_loaded_window_distinct(current);
    lemma_filter_keeps_distinct(fresh, pred);
}

/// Every position of the block loaded around the player's tile lies within
/// the render distance, so culling never removes a tile of that block.
pub proof fn law_loaded_block_is_never_culled(c: TileCoord, p: TileCoord)
    requires
        in_loaded_window(c, p),
    ensures
        p.manhattan(c) <= RENDER_DISTANCE,
{
}

/// Manhattan distance is symmetric, and zero from a position to itself.
pub proof fn law_manhattan_symmetric(a: TileCoord, b: TileCoord)
    ensures
        a.manhattan(b) == b.manhattan(a),
        a.manhattan(a) == 0,
{
}

/// Two positions that share their `x` are as far apart as their `y`
/// values, and two that share their `y` as far apart as their `x` values.
pub proof fn law_manhattan_along_an_axis(a: TileCoord, b: TileCoord)
    ensures
        a.x == b.x ==> a.manhattan(b) == (if a.y >= b.y {
            a.y - b.y
        } else {
            b.y - a.y
        }),
        a.y == b.y ==> a.manhattan(b) == (if a.x >= b.x {
            a.x - b.x
        } else {
            b.x - a.x
        }),
{
}

/// Going from `a` to `b` by way of the corner that has `b`'s `x` and `a`'s
/// `y` is no detour: the distance is the sum of the two straight legs.
pub proof fn law_manhattan_through_the_corner(a: TileCoord, b: TileCoord)
    ensures
        a.manhattan(b) == a.manhattan(TileCoord { x: b.x, y: a.y }) + (TileCoord {
            x: b.x,
            y: a.y,
        }).manhattan(b),
{
}

} // verus!
