//! Levels: walls on a grid of cells, and where the player starts.
use crate::geometry::{Pos, Rect, SUB};
use vstd::prelude::*;

verus! {

#[derive(Debug, Clone, Copy, PartialEq, Eq, Structural)]
pub enum TileType {
    Wall,
}

impl TileType {
    /// The tile a level character stands for.
    pub fn try_from(c: char) -> (r: Result<TileType, &'static str>)
        ensures
            r is Ok <==> c == '#',
            r is Ok ==> r == Ok::<TileType, &'static str>(TileType::Wall),
    {
        if c == '#' {
            Ok(TileType::Wall)
        } else {
            Err("Invalid tile character")
        }
    }

    /// The character a tile is drawn with.
    pub fn glyph(&self) -> (r: char)
        ensures
            *self == TileType::Wall ==> r == '#',
    {
        match self {
            TileType::Wall => '#',
        }
    }
}

/// One cell of a level.
#[derive(Debug, Clone, Copy, PartialEq, Eq, Structural)]
pub struct Tile {
    pub rect: Rect,
    pub kind: TileType,
}

impl Tile {
    pub fn glyph(&self) -> (r: char)
        ensures
            self.kind == TileType::Wall ==> r == '#',
    {
        self.kind.glyph()
    }
}

#[derive(Debug)]
pub struct Level {
    pub start_pos: Pos,
    pub level: Vec<Tile>,
    pub seen: Vec<Tile>,
}

/// Longest level text accepted, in characters.
pub const MAX_LEVEL_CHARS: usize = 1_000_000_000;

/// Column of character `i` of a level text: characters since the last line
/// break before it.
pub open spec fn col_of(t: Seq<char>, i: int) -> int
    decreases i,
{
    if i <= 0 {
        0
    } else if t[i - 1] == '\n' {
        0
    } else {
        col_of(t, i - 1) + 1
    }
}

/// Row of character `i` of a level text: line breaks before it.
pub open spec fn row_of(t: Seq<char>, i: int) -> int
    decreases i,
{
    if i <= 0 {
        0
    } else if t[i - 1] == '\n' {
        row_of(t, i - 1) + 1
    } else {
        row_of(t, i - 1)
    }
}

/// Index of the first line break at or after `i`, or the length.
pub open spec fn line_end(t: Seq<char>, i: int) -> int
    decreases t.len() - i,
{
    if i >= t.len() {
        t.len() as int
    } else if t[i] == '\n' {
        i
    } else {
        line_end(t, i + 1)
    }
}

/// Width of a level: the length of its first line, without a carriage
/// return before the break.
pub open spec fn level_width(t: Seq<char>) -> int {
    let e = line_end(t, 0);
    if e > 0 && t[e - 1] == '\r' {
        e - 1
    } else {
        e
    }
}

/// Cell `(col, row)`, in sub-units.
pub open spec fn cell_pos(t: Seq<char>, i: int) -> Pos {
    Pos((col_of(t, i) * SUB) as i64, (row_of(t, i) * SUB) as i64)
}

/// Character `i` is a wall within the level's width.
pub open spec fn is_wall(t: Seq<char>, i: int) -> bool {
    t[i] == '#' && col_of(t, i) < level_width(t)
}

/// Character `i` marks the start within the level's width.
pub open spec fn is_start(t: Seq<char>, i: int) -> bool {
    t[i] == '@' && col_of(t, i) < level_width(t)
}

pub open spec fn wall_tile(t: Seq<char>, i: int) -> Tile {
    Tile { rect: Rect { pos: cell_pos(t, i), w: SUB, h: SUB }, kind: TileType::Wall }
}

/// The wall tiles among the first `n` characters, in text order.
pub open spec fn walls(t: Seq<char>, n: int) -> Seq<Tile> {
    Seq::new(n as nat, |k: int| k).filter(|k: int| is_wall(t, k)).map_values(
        |k: int| wall_tile(t, k),
    )
}

/// The cell of the last start mark among the first `n` characters, or the
/// origin if there is none.
pub open spec fn start_of(t: Seq<char>, n: int) -> Pos
    decreases n,
{
    if n <= 0 {
        Pos(0, 0)
    } else if is_start(t, n - 1) {
        cell_pos(t, n - 1)
    } else {
        start_of(t, n - 1)
    }
}

proof fn lemma_col_row_bounded(t: Seq<char>, i: int)
    requires
        0 <= i,
    ensures
        0 <= col_of(t, i) <= i,
        0 <= row_of(t, i) <= i,
    decreases i,
{
    if i > 0 {
        lemma_col_row_bounded(t, i - 1);
    }
}

impl Level {
    /// Reads a level: one row per line, one cell per character. Rows are
    /// read up to the width of the first line; `#` is a wall and `@` the
    /// player's start (the last one counts; the origin if none).
    pub fn parse(text: &str) -> (r: Level)
        requires
            text@.len() <= MAX_LEVEL_CHARS,
        ensures
            r.level@ == walls(text@, text@.len() as int),
            r.start_pos == start_of(text@, text@.len() as int),
            r.seen@.len() == 0,
    {
        let ghost t = text@;
        let n = text.unicode_len();
        let mut e: usize = 0;
        while e < n && text.get_char(e) != '\n'
            invariant
                t == text@,
                n == t.len(),
                0 <= e <= n,
                line_end(t, 0) == line_end(t, e as int),
            decreases n - e,
        {
            e = e + 1;
        }
        let width: usize = if e > 0 && text.get_char(e - 1) == '\r' {
            e - 1
        } else {
            e
        };
        let mut level: Vec<Tile> = Vec::new();
        let mut start = Pos(0, 0);
        let mut col: usize = 0;
        let mut row: usize = 0;
        let mut i: usize = 0;
        while i < n
            invariant
                t == text@,
                n == t.len(),
                n <= MAX_LEVEL_CHARS,
                width == level_width(t),
                0 <= i <= n,
                col == col_of(t, i as int),
                row == row_of(t, i as int),
                level@ == walls(t, i as int),
                start == start_of(t, i as int),
            decreases n - i,
        {
            proof {
                lemma_col_row_bounded(t, i as int);
            }
            let c = text.get_char(i);
            proof {
                let s1 = Seq::new((i + 1) as nat, |k: int| k);
                assert(s1.drop_last() =~= Seq::new(i as nat, |k: int| k));
                reveal(Seq::filter);
                assert(walls(t, i + 1) =~= if is_wall(t, i as int) {
                    walls(t, i as int).push(wall_tile(t, i as int))
                } else {
                    walls(t, i as int)
                });
            }
            if c == '\n' {
                row = row + 1;
                col = 0;
            } else {
                if col < width {
                    let p = Pos(col as i64 * SUB, row as i64 * SUB);
                    if c == '#' {
                        level.push(Tile { rect: Rect::new(&p, SUB, SUB), kind: TileType::Wall });
                    } else if c == '@' {
                        start = p;
                    }
                }
                col = col + 1;
            }
            i = i + 1;
        }
        Level { start_pos: start, level, seen: Vec::new() }
    }
}

} // verus!
