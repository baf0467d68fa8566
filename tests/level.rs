use breach::geometry::{Pos, Rect, SUB};
use breach::map::{Level, Tile, TileType};

fn wall(x: i64, y: i64) -> Tile {
    Tile { rect: Rect::new(&Pos(x * SUB, y * SUB), SUB, SUB), kind: TileType::Wall }
}

#[test]
fn parse_walls_and_start() {
    let l = Level::parse("#.#\n.@.\n###");
    assert_eq!(l.level, vec![wall(0, 0), wall(2, 0), wall(0, 2), wall(1, 2), wall(2, 2)]);
    assert_eq!(l.start_pos, Pos(SUB, SUB));
    assert!(l.seen.is_empty());
}

#[test]
fn parse_reads_rows_up_to_first_width() {
    let l = Level::parse("##\r\n####\n#\n");
    assert_eq!(l.level, vec![wall(0, 0), wall(1, 0), wall(0, 1), wall(1, 1), wall(0, 2)]);
    assert_eq!(l.start_pos, Pos(0, 0));
}

#[test]
fn parse_empty_level() {
    let l = Level::parse("");
    assert!(l.level.is_empty());
    assert_eq!(l.start_pos, Pos(0, 0));
}

#[test]
fn tile_characters() {
    assert_eq!(TileType::try_from('#'), Ok(TileType::Wall));
    assert!(TileType::try_from('.').is_err());
    assert!(TileType::try_from('@').is_err());
    assert_eq!(wall(0, 0).glyph(), '#');
}
