//! The world: one player actor, a roster of other actors, and a fixed tile
//! grid with collision and text rendering.

use vstd::prelude::*;
use vstd::string::StringExecFns;
use crate::actor::Actor;
use crate::log::{add_to_log, pos_update_msg, Log};

verus! {

/// Kind of one grid cell.
#[derive(Clone, Copy, Debug, PartialEq, Eq, Structural)]
pub enum ETileType {
    Floor,
    Wall,
}

impl ETileType {
    /// The map glyph of this tile kind.
    pub open spec fn char_spec(self) -> char {
        match self {
            ETileType::Floor => '.',
            ETileType::Wall => '#',
        }
    }

    /// The map glyph of this tile kind.
    pub fn get_char(&self) -> (c: char)
        ensures
            c == self.char_spec(),
    {
        match self {
            ETileType::Floor => '.',
            ETileType::Wall => '#',
        }
    }
}

/// One grid cell: an immutable (kind, position) pair.
#[derive(Clone, Copy, Debug)]
pub struct Tile {
    pub ttype: ETileType,
    pub position: (i16, i16),
}

/// The fixed grid of tiles, its extents, and a render-origin offset.
/// The origin translates render space only; logical lookup ignores it.
pub struct TileMap {
    pub origin: (i16, i16),
    pub tiles: Vec<Tile>,
    pub limit_x: i16,
    pub limit_y: i16,
}

/// Whether a coordinate lies on the border of a grid with these extents.
pub open spec fn on_border(x: int, y: int, limit_x: int, limit_y: int) -> bool {
    x == 0 || x == limit_x - 1 || y == 0 || y == limit_y - 1
}

/// The kind of the first stored tile at the exact coordinate, if any.
pub open spec fn find_tile(tiles: Seq<Tile>, x: int, y: int) -> Option<ETileType>
    decreases tiles.len(),
{
    if tiles.len() == 0 {
        None
    } else if tiles[0].position.0 == x && tiles[0].position.1 == y {
        Some(tiles[0].ttype)
    } else {
        find_tile(tiles.drop_first(), x, y)
    }
}

/// A coordinate only ever matches a stored tile when it fits the tiles'
/// own integer width.
pub proof fn lemma_find_tile_some_bounds(tiles: Seq<Tile>, x: int, y: int)
    ensures
        find_tile(tiles, x, y) is Some ==> i16::MIN <= x <= i16::MAX && i16::MIN <= y <= i16::MAX,
    decreases tiles.len(),
{
    if tiles.len() > 0 && !(tiles[0].position.0 == x && tiles[0].position.1 == y) {
        lemma_find_tile_some_bounds(tiles.drop_first(), x, y);
    }
}

/// The tile stored at index `i` belongs to the coordinate the storage order
/// assigns to `i` — row-major with the vertical coordinate fast-varying —
/// and has the bordered-square kind.
pub open spec fn tile_ok_at(tiles: Seq<Tile>, limit_x: int, limit_y: int, i: int) -> bool {
    let x = i / limit_y;
    let y = i % limit_y;
    tiles[i].position.0 == x && tiles[i].position.1 == y && tiles[i].ttype == (if on_border(
        x,
        y,
        limit_x,
        limit_y,
    ) {
        ETileType::Wall
    } else {
        ETileType::Floor
    })
}

impl TileMap {
    /// One tile per coordinate of `[0, limit_x) x [0, limit_y)`, stored
    /// row-major with the vertical coordinate fast-varying; the border is
    /// Wall and the interior Floor.
    pub open spec fn wf(self) -> bool {
        0 < self.limit_x && 0 < self.limit_y && self.tiles@.len() == self.limit_x * self.limit_y
            && forall|i: int|
            0 <= i < self.tiles@.len() ==> tile_ok_at(
                self.tiles@,
                self.limit_x as int,
                self.limit_y as int,
                i,
            )
    }

    /// The stored tiles.
    pub fn get_tiles(&self) -> (r: &Vec<Tile>)
        ensures
            r@ == self.tiles@,
    {
        &self.tiles
    }

    /// Builds the fixed bordered 10 x 10 square map at origin (0, 0).
    pub fn init_basic_square() -> (m: TileMap)
        ensures
            m.wf(),
            m.limit_x == 10,
            m.limit_y == 10,
            m.origin == (0i16, 0i16),
            m.tiles@.len() == 100,
    {
        let mut square_map = TileMap { tiles: Vec::new(), limit_x: 10, limit_y: 10, origin: (0, 0) };

        let mut x: i16 = 0;
        while x < 10
            invariant
                0 <= x <= 10,
                square_map.limit_x == 10,
                square_map.limit_y == 10,
                square_map.origin == (0i16, 0i16),
                square_map.tiles@.len() == x * 10,
                forall|i: int|
                    0 <= i < square_map.tiles@.len() ==> tile_ok_at(square_map.tiles@, 10, 10, i),
            decreases 10 - x,
        {
            let mut y: i16 = 0;
            while y < 10
                invariant
                    0 <= x < 10,
                    0 <= y <= 10,
                    square_map.limit_x == 10,
                    square_map.limit_y == 10,
                    square_map.origin == (0i16, 0i16),
                    square_map.tiles@.len() == x * 10 + y,
                    forall|i: int|
                        0 <= i < square_map.tiles@.len() ==> tile_ok_at(
                            square_map.tiles@,
                            10,
                            10,
                            i,
                        ),
                decreases 10 - y,
            {
                let mut tile_type = ETileType::Floor;
                if x == 0 || x == 10 - 1 || y == 0 || y == 10 - 1 {
                    tile_type = ETileType::Wall;
                }
                let ghost prev = square_map.tiles@;
                square_map.tiles.push(Tile { ttype: tile_type, position: (x, y) });
                proof {
                    let i = square_map.tiles@.len() - 1;
                    assert(i == x * 10 + y);
                    assert(i / 10 == x as int && i % 10 == y as int) by (nonlinear_arith)
                        requires
                            i == x * 10 + y,
                            0 <= x < 10,
                            0 <= y < 10,
                    ;
                    assert(tile_ok_at(square_map.tiles@, 10, 10, i));
                    assert forall|j: int|
                        0 <= j < square_map.tiles@.len() implies tile_ok_at(
                        square_map.tiles@,
                        10,
                        10,
                        j,
                    ) by {
                        if j < i {
                            assert(tile_ok_at(prev, 10, 10, j));
                            assert(square_map.tiles@[j] == prev[j]);
                        }
                    }
                }
                y = y + 1;
            }
            x = x + 1;
        }
        square_map
    }
}

/// Number of Wall tiles in a stored tile sequence.
pub open spec fn wall_count(tiles: Seq<Tile>) -> int
    decreases tiles.len(),
{
    if tiles.len() == 0 {
        0
    } else {
        (if tiles[0].ttype == ETileType::Wall {
            1int
        } else {
            0int
        }) + wall_count(tiles.drop_first())
    }
}

/// Number of Floor tiles in a stored tile sequence.
pub open spec fn floor_count(tiles: Seq<Tile>) -> int
    decreases tiles.len(),
{
    if tiles.len() == 0 {
        0
    } else {
        (if tiles[0].ttype == ETileType::Floor {
            1int
        } else {
            0int
        }) + floor_count(tiles.drop_first())
    }
}

/// Every tile is either Wall or Floor, so the two counts partition the grid.
pub proof fn lemma_counts_partition(tiles: Seq<Tile>)
    ensures
        wall_count(tiles) + floor_count(tiles) == tiles.len(),
    decreases tiles.len(),
{
    if tiles.len() > 0 {
        lemma_counts_partition(tiles.drop_first());
    }
}

proof fn lemma_wall_count_concat(a: Seq<Tile>, b: Seq<Tile>)
    ensures
        wall_count(a + b) == wall_count(a) + wall_count(b),
    decreases a.len(),
{
    if a.len() == 0 {
        assert(a + b =~= b);
    } else {
        assert((a + b).drop_first() =~= a.drop_first() + b);
        assert((a + b)[0] == a[0]);
        lemma_wall_count_concat(a.drop_first(), b);
    }
}

proof fn lemma_wall_count_one(t: Tile)
    ensures
        wall_count(seq![t]) == (if t.ttype == ETileType::Wall {
            1int
        } else {
            0int
        }),
{
    assert(seq![t].drop_first() =~= Seq::<Tile>::empty());
    assert(seq![t][0] == t);
    assert(wall_count(Seq::<Tile>::empty()) == 0);
}

/// Wall tiles among the first `c` cells of row `r` of a bordered grid:
/// all of them on a border row, otherwise only the two side cells.
pub open spec fn row_prefix_walls(r: int, c: int, lx: int, ly: int) -> int {
    if r == 0 || r == lx - 1 {
        c
    } else if c <= 0 {
        0
    } else if c < ly {
        1
    } else {
        2
    }
}

proof fn lemma_row_walls(m: TileMap, r: int, c: int)
    requires
        m.wf(),
        2 <= m.limit_x,
        2 <= m.limit_y,
        0 <= r < m.limit_x,
        0 <= c <= m.limit_y,
    ensures
        wall_count(
            m.tiles@.subrange(r * (m.limit_y as int), r * (m.limit_y as int) + c),
        ) == row_prefix_walls(r, c, m.limit_x as int, m.limit_y as int),
    decreases c,
{
    let lx = m.limit_x as int;
    let ly = m.limit_y as int;
    assert(0 <= r * ly && r * ly + ly <= lx * ly) by (nonlinear_arith)
        requires
            0 <= r < lx,
            0 < ly,
    ;
    if c == 0 {
        assert(m.tiles@.subrange(r * ly, r * ly) =~= Seq::<Tile>::empty());
    } else {
        lemma_row_walls(m, r, c - 1);
        let k = r * ly + c - 1;
        assert(k / ly == r && k % ly == c - 1) by (nonlinear_arith)
            requires
                k == r * ly + c - 1,
                0 <= c - 1 < ly,
                0 <= r,
    ;
        assert(tile_ok_at(m.tiles@, lx, ly, k));
        assert(m.tiles@.subrange(r * ly, r * ly + c) =~= m.tiles@.subrange(r * ly, r * ly + c - 1)
            + seq![m.tiles@[k]]);
        lemma_wall_count_concat(m.tiles@.subrange(r * ly, r * ly + c - 1), seq![m.tiles@[k]]);
        lemma_wall_count_one(m.tiles@[k]);
    }
}

/// Wall tiles in the first `r` complete rows of a bordered grid.
pub open spec fn rows_walls(r: int, lx: int, ly: int) -> int
    decreases r,
{
    if r <= 0 {
        0
    } else {
        rows_walls(r - 1, lx, ly) + (if r - 1 == 0 || r - 1 == lx - 1 {
            ly
        } else {
            2
        })
    }
}

proof fn lemma_rows_walls(m: TileMap, r: int)
    requires
        m.wf(),
        2 <= m.limit_x,
        2 <= m.limit_y,
        0 <= r <= m.limit_x,
    ensures
        wall_count(m.tiles@.take(r * (m.limit_y as int))) == rows_walls(
            r,
            m.limit_x as int,
            m.limit_y as int,
        ),
    decreases r,
{
    let lx = m.limit_x as int;
    let ly = m.limit_y as int;
    if r == 0 {
        assert(m.tiles@.take(0) =~= Seq::<Tile>::empty());
    } else {
        lemma_rows_walls(m, r - 1);
        lemma_row_walls(m, r - 1, ly);
        assert((r - 1) * ly + ly == r * ly && 0 <= (r - 1) * ly && r * ly <= lx * ly)
            by (nonlinear_arith)
            requires
                1 <= r <= lx,
                0 < ly,
        ;
        assert(m.tiles@.take(r * ly) =~= m.tiles@.take((r - 1) * ly) + m.tiles@.subrange(
            (r - 1) * ly,
            (r - 1) * ly + ly,
        ));
        lemma_wall_count_concat(
            m.tiles@.take((r - 1) * ly),
            m.tiles@.subrange((r - 1) * ly, (r - 1) * ly + ly),
        );
        assert(rows_walls(r, lx, ly) == rows_walls(r - 1, lx, ly) + (if r - 1 == 0 || r - 1 == lx
            - 1 {
            ly
        } else {
            2int
        }));
        assert(row_prefix_walls(r - 1, ly, lx, ly) == (if r - 1 == 0 || r - 1 == lx - 1 {
            ly
        } else {
            2int
        }));
    }
}

proof fn lemma_rows_walls_closed(r: int, lx: int, ly: int)
    requires
        2 <= lx,
        2 <= ly,
        1 <= r <= lx - 1,
    ensures
        rows_walls(r, lx, ly) == ly + 2 * (r - 1),
    decreases r,
{
    assert(rows_walls(r, lx, ly) == rows_walls(r - 1, lx, ly) + (if r - 1 == 0 || r - 1 == lx - 1 {
        ly
    } else {
        2int
    }));
    if r > 1 {
        lemma_rows_walls_closed(r - 1, lx, ly);
    } else {
        assert(rows_walls(0, lx, ly) == 0);
    }
}

/// Law: in a well-formed bordered grid the Wall tiles are exactly the
/// perimeter, `2*limit_x + 2*limit_y - 4` of them, and the Floor tiles are
/// all the rest.
pub proof fn lemma_wall_count_perimeter(m: TileMap)
    requires
        m.wf(),
        2 <= m.limit_x,
        2 <= m.limit_y,
    ensures
        wall_count(m.tiles@) == 2 * (m.limit_x as int) + 2 * (m.limit_y as int) - 4,
        floor_count(m.tiles@) == (m.limit_x as int) * (m.limit_y as int) - 2 * (m.limit_x as int)
            - 2 * (m.limit_y as int) + 4,
{
    let lx = m.limit_x as int;
    let ly = m.limit_y as int;
    lemma_rows_walls(m, lx);
    lemma_rows_walls_closed(lx - 1, lx, ly);
    assert(m.tiles@.take(lx * ly) =~= m.tiles@);
    lemma_counts_partition(m.tiles@);
}

/// Law: the generated bordered 10 x 10 square holds exactly 36 Wall tiles —
/// its border — and 64 Floor tiles among its 100.
pub proof fn lemma_square_wall_count(m: TileMap)
    requires
        m.wf(),
        m.limit_x == 10,
        m.limit_y == 10,
    ensures
        wall_count(m.tiles@) == 36,
        floor_count(m.tiles@) == 64,
{
    lemma_wall_count_perimeter(m);
}

/// Narration of a blocked move: `A hitted a wall.`
pub open spec fn wall_msg(actor: Seq<char>) -> Seq<char> {
    actor + " hitted a wall."@
}

/// The characters one stored tile contributes to the storage-order render:
/// the player glyph on the player's cell, the tile's own glyph otherwise,
/// and a line break after the cell that closes a storage row.
pub open spec fn render_cell(t: Tile, player: (i16, i16), limit_y: int) -> Seq<char> {
    (if t.position == player {
        seq!['@']
    } else {
        seq![t.ttype.char_spec()]
    }) + (if t.position.1 + 1 == limit_y {
        seq!['\n']
    } else {
        Seq::<char>::empty()
    })
}

/// The render text of the first `n` stored tiles, in storage order.
pub open spec fn render_storage_upto(
    tiles: Seq<Tile>,
    player: (i16, i16),
    limit_y: int,
    n: int,
) -> Seq<char>
    decreases n,
{
    if n <= 0 {
        Seq::<char>::empty()
    } else {
        render_storage_upto(tiles, player, limit_y, n - 1) + render_cell(
            tiles[n - 1],
            player,
            limit_y,
        )
    }
}

/// The render text of the whole map, in storage order.
pub open spec fn render_storage(tiles: Seq<Tile>, player: (i16, i16), limit_y: int) -> Seq<char> {
    render_storage_upto(tiles, player, limit_y, tiles.len() as int)
}

/// The glyph the origin-relative renderer shows at offset (x, y): that of
/// the first stored tile at origin + (x, y), with the player marked by its
/// pre-offset coordinate; nothing where no tile exists.
pub open spec fn origin_cell(
    tiles: Seq<Tile>,
    origin: (i16, i16),
    player: (i16, i16),
    x: int,
    y: int,
) -> Seq<char> {
    match find_tile(tiles, origin.0 + x, origin.1 + y) {
        Some(t) => seq![
            if player.0 == origin.0 + x && player.1 == origin.1 + y {
                '@'
            } else {
                t.char_spec()
            },
        ],
        None => Seq::<char>::empty(),
    }
}

/// The first `n` cells of the origin-relative row at offset `y`.
pub open spec fn origin_row(
    tiles: Seq<Tile>,
    origin: (i16, i16),
    player: (i16, i16),
    y: int,
    n: int,
) -> Seq<char>
    decreases n,
{
    if n <= 0 {
        Seq::<char>::empty()
    } else {
        origin_row(tiles, origin, player, y, n - 1) + origin_cell(tiles, origin, player, n - 1, y)
    }
}

/// The first `m` origin-relative rows, each closed by a line break.
pub open spec fn origin_rows(
    tiles: Seq<Tile>,
    origin: (i16, i16),
    player: (i16, i16),
    limit_x: int,
    m: int,
) -> Seq<char>
    decreases m,
{
    if m <= 0 {
        Seq::<char>::empty()
    } else {
        origin_rows(tiles, origin, player, limit_x, m - 1) + origin_row(
            tiles,
            origin,
            player,
            m - 1,
            limit_x,
        ) + seq!['\n']
    }
}

/// The whole origin-relative render text: `limit_y` rows of up to
/// `limit_x` cells.
pub open spec fn render_origin(
    tiles: Seq<Tile>,
    origin: (i16, i16),
    player: (i16, i16),
    limit_x: int,
    limit_y: int,
) -> Seq<char> {
    origin_rows(tiles, origin, player, limit_x, limit_y)
}

/// Lookup succeeds whenever some stored tile sits at the coordinate.
pub proof fn lemma_find_tile_exists(tiles: Seq<Tile>, x: int, y: int)
    requires
        exists|i: int|
            0 <= i < tiles.len() && tiles[i].position.0 == x && tiles[i].position.1 == y,
    ensures
        find_tile(tiles, x, y) is Some,
    decreases tiles.len(),
{
    if !(tiles[0].position.0 == x && tiles[0].position.1 == y) {
        let i = choose|i: int|
            0 <= i < tiles.len() && tiles[i].position.0 == x && tiles[i].position.1 == y;
        assert(tiles.drop_first()[i - 1] == tiles[i]);
        lemma_find_tile_exists(tiles.drop_first(), x, y);
    }
}

/// On a well-formed map rendered from origin (0, 0), every in-range offset
/// shows exactly one glyph, and never a line break.
proof fn lemma_origin_cell_one(m: TileMap, player: (i16, i16), x: int, y: int)
    requires
        m.wf(),
        m.origin == (0i16, 0i16),
        0 <= x < m.limit_x,
        0 <= y < m.limit_y,
    ensures
        origin_cell(m.tiles@, m.origin, player, x, y).len() == 1,
        origin_cell(m.tiles@, m.origin, player, x, y)[0] != '\n',
{
    let lx = m.limit_x as int;
    let ly = m.limit_y as int;
    let k = x * ly + y;
    assert(0 <= k < lx * ly && k / ly == x && k % ly == y) by (nonlinear_arith)
        requires
            k == x * ly + y,
            0 <= x < lx,
            0 <= y < ly,
    ;
    assert(tile_ok_at(m.tiles@, lx, ly, k));
    assert(m.tiles@[k].position.0 == x && m.tiles@[k].position.1 == y);
    lemma_find_tile_exists(m.tiles@, x, y);
}

/// The first `n` cells of a row of a well-formed map rendered from origin
/// (0, 0) are `n` glyphs with no line break among them.
proof fn lemma_origin_row_shape(m: TileMap, player: (i16, i16), y: int, n: int)
    requires
        m.wf(),
        m.origin == (0i16, 0i16),
        0 <= y < m.limit_y,
        0 <= n <= m.limit_x,
    ensures
        origin_row(m.tiles@, m.origin, player, y, n).len() == n,
        forall|j: int|
            0 <= j < n ==> origin_row(m.tiles@, m.origin, player, y, n)[j] != '\n',
    decreases n,
{
    if n > 0 {
        lemma_origin_row_shape(m, player, y, n - 1);
        lemma_origin_cell_one(m, player, n - 1, y);
    }
}

/// Render text whose shape is `h` lines of `w` glyphs, each line closed by
/// one line break: a break stands exactly at every position congruent to
/// `w` modulo the line stride `w + 1`.
pub open spec fn line_shaped(text: Seq<char>, w: int, h: int) -> bool {
    text.len() == h * (w + 1) && forall|idx: int|
        0 <= idx < text.len() ==> ((#[trigger] text[idx]) == '\n' <==> idx % (w + 1) == w)
}

/// The first `rows` origin-relative rows of a well-formed map rendered from
/// origin (0, 0) are line-shaped.
proof fn lemma_origin_rows_shape(m: TileMap, player: (i16, i16), rows: int)
    requires
        m.wf(),
        m.origin == (0i16, 0i16),
        0 <= rows <= m.limit_y,
    ensures
        line_shaped(
            origin_rows(m.tiles@, m.origin, player, m.limit_x as int, rows),
            m.limit_x as int,
            rows,
        ),
    decreases rows,
{
    let w = m.limit_x as int;
    if rows > 0 {
        lemma_origin_rows_shape(m, player, rows - 1);
        lemma_origin_row_shape(m, player, rows - 1, w);
        let prev = origin_rows(m.tiles@, m.origin, player, w, rows - 1);
        let row = origin_row(m.tiles@, m.origin, player, rows - 1, w);
        let text = origin_rows(m.tiles@, m.origin, player, w, rows);
        assert(rows * (w + 1) == (rows - 1) * (w + 1) + (w + 1)) by (nonlinear_arith);
        assert(text.len() == rows * (w + 1));
        assert forall|idx: int| 0 <= idx < text.len() implies ((#[trigger] text[idx]) == '\n' <==> idx
            % (w + 1) == w) by {
            if idx < prev.len() {
                assert(text[idx] == prev[idx]);
            } else {
                let c = idx - prev.len();
                assert(0 <= c <= w);
                assert(idx % (w + 1) == c) by (nonlinear_arith)
                    requires
                        idx == (rows - 1) * (w + 1) + c,
                        0 <= c <= w,
                        1 <= rows,
                        0 <= w,
                ;
                if c < w {
                    assert(text[idx] == row[c]);
                } else {
                    assert(text[idx] == '\n');
                }
            }
        }
    }
}

/// Law: the origin-relative rendering of a well-formed map at origin (0, 0)
/// consists of exactly `limit_y` lines of exactly `limit_x` glyphs each,
/// every line closed by one line break.
pub proof fn lemma_render_origin_shape(m: TileMap, player: (i16, i16))
    requires
        m.wf(),
        m.origin == (0i16, 0i16),
    ensures
        line_shaped(
            render_origin(m.tiles@, m.origin, player, m.limit_x as int, m.limit_y as int),
            m.limit_x as int,
            m.limit_y as int,
        ),
{
    lemma_origin_rows_shape(m, player, m.limit_y as int);
}

/// The kind of the first stored tile at the exact coordinate, if any.
fn tile_type_at(tiles: &Vec<Tile>, x: i32, y: i32) -> (r: Option<ETileType>)
    ensures
        r == find_tile(tiles@, x as int, y as int),
{
    proof {
        assert(tiles@.skip(0) =~= tiles@);
    }
    let mut i: usize = 0;
    while i < tiles.len()
        invariant
            i <= tiles@.len(),
            find_tile(tiles@, x as int, y as int) == find_tile(
                tiles@.skip(i as int),
                x as int,
                y as int,
            ),
        decreases tiles@.len() - i,
    {
        let t = &tiles[i];
        proof {
            assert(tiles@.skip(i as int)[0] == tiles@[i as int]);
        }
        if t.position.0 as i32 == x && t.position.1 as i32 == y {
            return Some(t.ttype);
        }
        proof {
            assert(tiles@.skip(i as int).drop_first() =~= tiles@.skip(i as int + 1));
        }
        i = i + 1;
    }
    None
}

/// The world: the sole mutator of the player's position and the composer
/// of map and actor state into render text.
pub struct World {
    pub player: Actor,
    pub actors: Vec<Option<Actor>>,
    pub map: TileMap,
}

/// The coordinate one step from the world's player in the given direction.
pub open spec fn dest_of(w: World, direction: (i16, i16)) -> (int, int) {
    (w.player.position.0 + direction.0, w.player.position.1 + direction.1)
}

/// The tile kind at the player's destination, if a tile exists there.
pub open spec fn dest_tile(w: World, direction: (i16, i16)) -> Option<ETileType> {
    find_tile(w.map.tiles@, dest_of(w, direction).0, dest_of(w, direction).1)
}

impl World {
    /// Validates and applies one player move: onto Floor the player
    /// relocates (narrating the new position), into Wall the move is
    /// absorbed as a wall-bump narration, and off-grid it is silently
    /// ignored.
    pub fn player_move(&mut self, direction: (i16, i16), log: &mut Log)
        ensures
            final(self).map == old(self).map,
            final(self).actors == old(self).actors,
            dest_tile(*old(self), direction) == Some(ETileType::Floor) ==> (
                final(self).player.position.0 == dest_of(*old(self), direction).0
                && final(self).player.position.1 == dest_of(*old(self), direction).1
                && final(self).player.id == old(self).player.id
                && final(self).player.role == old(self).player.role
                && final(self).player.name == old(self).player.name
                && final(self).player.battler == old(self).player.battler
                && final(self).player.action_timer == old(self).player.action_timer
                && final(log)@ == old(log)@.push(
                    pos_update_msg(
                        old(self).player.name@,
                        dest_of(*old(self), direction).0,
                        dest_of(*old(self), direction).1,
                    ),
                )
            ),
            dest_tile(*old(self), direction) == Some(ETileType::Wall) ==> (final(self).player
                == old(self).player && final(log)@ == old(log)@.push(
                wall_msg(old(self).player.name@),
            )),
            dest_tile(*old(self), direction) is None ==> final(self).player == old(self).player
                && final(log)@ == old(log)@,
    {
        let dx: i32 = self.player.get_position().0 as i32 + direction.0 as i32;
        let dy: i32 = self.player.get_position().1 as i32 + direction.1 as i32;

        let tile_to_move = tile_type_at(&self.map.tiles, dx, dy);
        match tile_to_move {
            Some(ETileType::Floor) => {
                proof {
                    lemma_find_tile_some_bounds(self.map.tiles@, dx as int, dy as int);
                }
                self.player.move_to_direction(direction, log);
            },
            Some(ETileType::Wall) => {
                let mut m = self.player.get_name().as_str().to_owned();
                m.append(" hitted a wall.");
                add_to_log(log, m);
            },
            None => {},
        }
    }

    /// Renders the tiles in storage order into one text block, with the
    /// player glyph at the player's exact coordinate and a line break after
    /// each tile that closes a storage row. Line breaks land correctly only
    /// while storage order keeps the vertical coordinate fast-varying, as
    /// the well-formed map does.
    pub fn print_map(&self) -> (r: String)
        ensures
            r@ == render_storage(self.map.tiles@, self.player.position, self.map.limit_y as int),
    {
        let mut map_str = String::new();
        let p = self.player.get_position();
        let mut i: usize = 0;
        while i < self.map.tiles.len()
            invariant
                i <= self.map.tiles@.len(),
                p == self.player.position,
                map_str@ == render_storage_upto(
                    self.map.tiles@,
                    self.player.position,
                    self.map.limit_y as int,
                    i as int,
                ),
            decreases self.map.tiles@.len() - i,
        {
            let t = &self.map.tiles[i];
            let ghost pre = map_str@;
            if p.0 == t.position.0 && p.1 == t.position.1 {
                map_str.append("@");
            } else {
                match t.ttype {
                    ETileType::Floor => map_str.append("."),
                    ETileType::Wall => map_str.append("#"),
                }
            }
            if t.position.1 as i32 + 1 == self.map.limit_y as i32 {
                map_str.append("\n");
            }
            proof {
                reveal_strlit("@");
                reveal_strlit(".");
                reveal_strlit("#");
                reveal_strlit("\n");
                assert(map_str@ =~= pre + render_cell(
                    self.map.tiles@[i as int],
                    self.player.position,
                    self.map.limit_y as int,
                ));
            }
            i = i + 1;
        }
        map_str
    }

    /// Renders the grid relative to the map's origin: row-major over the
    /// offsets `[0, limit_x) x [0, limit_y)`, each row closed by a line
    /// break, showing the tile stored at origin + offset and marking the
    /// player by its pre-offset coordinate.
    pub fn print_map_other_origin(&self) -> (r: String)
        ensures
            r@ == render_origin(
                self.map.tiles@,
                self.map.origin,
                self.player.position,
                self.map.limit_x as int,
                self.map.limit_y as int,
            ),
    {
        let mut map_str = String::new();
        let p = self.player.get_position();
        let ox: i16 = self.map.origin.0;
        let oy: i16 = self.map.origin.1;
        let mut y: i16 = 0;
        while y < self.map.limit_y
            invariant
                0 <= y,
                y <= self.map.limit_y || y == 0,
                p == self.player.position,
                ox == self.map.origin.0,
                oy == self.map.origin.1,
                map_str@ == origin_rows(
                    self.map.tiles@,
                    self.map.origin,
                    self.player.position,
                    self.map.limit_x as int,
                    y as int,
                ),
            decreases self.map.limit_y - y,
        {
            let mut x: i16 = 0;
            while x < self.map.limit_x
                invariant
                    0 <= x,
                    x <= self.map.limit_x || x == 0,
                    0 <= y < self.map.limit_y,
                    p == self.player.position,
                    ox == self.map.origin.0,
                    oy == self.map.origin.1,
                    map_str@ == origin_rows(
                        self.map.tiles@,
                        self.map.origin,
                        self.player.position,
                        self.map.limit_x as int,
                        y as int,
                    ) + origin_row(
                        self.map.tiles@,
                        self.map.origin,
                        self.player.position,
                        y as int,
                        x as int,
                    ),
                decreases self.map.limit_x - x,
            {
                let cx: i32 = ox as i32 + x as i32;
                let cy: i32 = oy as i32 + y as i32;
                let ghost pre = map_str@;
                let tt = tile_type_at(&self.map.tiles, cx, cy);
                match tt {
                    Some(t) => {
                        if p.0 as i32 == cx && p.1 as i32 == cy {
                            map_str.append("@");
                        } else {
                            match t {
                                ETileType::Floor => map_str.append("."),
                                ETileType::Wall => map_str.append("#"),
                            }
                        }
                    },
                    None => {},
                }
                proof {
                    reveal_strlit("@");
                    reveal_strlit(".");
                    reveal_strlit("#");
                    assert(map_str@ =~= pre + origin_cell(
                        self.map.tiles@,
                        self.map.origin,
                        self.player.position,
                        x as int,
                        y as int,
                    ));
                }
                x = x + 1;
            }
            map_str.append("\n");
            proof {
                reveal_strlit("\n");
                assert(map_str@ =~= origin_rows(
                    self.map.tiles@,
                    self.map.origin,
                    self.player.position,
                    self.map.limit_x as int,
                    y as int + 1,
                ));
            }
            y = y + 1;
        }
        map_str
    }

    /// Constructs a world from the given player, an empty roster, and the
    /// fixed bordered square map.
    pub fn start_empty_square(player: Actor) -> (w: World)
        ensures
            w.player == player,
            w.actors@ == Seq::<Option<Actor>>::empty(),
            w.map.wf(),
            w.map.limit_x == 10,
            w.map.limit_y == 10,
            w.map.origin == (0i16, 0i16),
    {
        World { player, actors: Vec::new(), map: TileMap::init_basic_square() }
    }

    /// The world's map.
    pub fn get_map(&self) -> (r: &TileMap)
        ensures
            r == self.map,
    {
        &self.map
    }
}

} // verus!
