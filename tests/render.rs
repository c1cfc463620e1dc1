use babel::frame::{Alignment, DrawOp, Palette};
use babel::gui::{tile_look, Menu, PlayerView, Position, Tcod, Tile, TileType};

fn menu(options: &[&str], cursor_index: i16) -> Menu {
    Menu {
        cursor_index,
        menu_size: options.len() as i16,
        options: options.iter().map(|s| s.to_string()).collect(),
    }
}

fn tile(x: i32, y: i32, tile_type: TileType) -> Tile {
    Tile { x, y, tile_type }
}

fn is_player_glyph(op: &DrawOp) -> bool {
    matches!(op, DrawOp::PutChar { glyph: '@', .. } | DrawOp::PutCharEx { glyph: '@', .. })
}

#[test]
fn new_surface_is_empty() {
    let t = Tcod::new(80, 50);
    assert_eq!(t.width(), 80);
    assert_eq!(t.height(), 50);
    assert!(t.frame().is_empty());
    assert_eq!(t.glyph_at(0, 0), None);
}

#[test]
fn main_menu_layout() {
    let mut t = Tcod::new(80, 50);
    t.render_main_menu(menu(&["New Game", "Quit"], 0));
    let expected = vec![
        DrawOp::SetDefaultBackground(Palette::Black),
        DrawOp::SetDefaultForeground(Palette::White),
        DrawOp::SetAlignment(Alignment::Center),
        DrawOp::Clear,
        DrawOp::Print { x: 40, y: 25, text: "BABEL".to_string() },
        DrawOp::Print { x: 40, y: 26, text: "New Game".to_string() },
        DrawOp::Print { x: 40, y: 27, text: "Quit".to_string() },
        DrawOp::PutChar { x: 35, y: 26, glyph: '>' },
    ];
    assert_eq!(t.frame(), &expected);
}

#[test]
fn main_menu_counts_and_centering() {
    let mut t = Tcod::new(61, 21);
    t.render_main_menu(menu(&["a", "b", "c", "d"], 2));
    let frame = t.frame();
    let prints: Vec<&DrawOp> = frame.iter().filter(|op| matches!(op, DrawOp::Print { .. })).collect();
    assert_eq!(prints.len(), 5);
    for op in &prints {
        match op {
            DrawOp::Print { x, .. } => assert_eq!(*x, 30),
            _ => unreachable!(),
        }
    }
    let cursors: Vec<&DrawOp> = frame.iter().filter(|op| matches!(op, DrawOp::PutChar { .. })).collect();
    assert_eq!(cursors.len(), 1);
    assert_eq!(frame[7], DrawOp::Print { x: 30, y: 13, text: "c".to_string() });
    assert_eq!(*cursors[0], DrawOp::PutChar { x: 25, y: 13, glyph: '>' });
}

#[test]
fn main_menu_cursor_on_second_option() {
    let mut t = Tcod::new(80, 50);
    t.render_main_menu(menu(&["New Game", "Quit"], 1));
    let frame = t.frame();
    let title_row = match &frame[4] {
        DrawOp::Print { y, text, .. } if text == "BABEL" => *y,
        other => panic!("unexpected title call {:?}", other),
    };
    match &frame[6] {
        DrawOp::Print { y, text, .. } => {
            assert_eq!(text, "Quit");
            assert_eq!(*y, title_row + 2);
        }
        other => panic!("unexpected option call {:?}", other),
    }
    assert_eq!(frame.last(), Some(&DrawOp::PutChar { x: 35, y: title_row + 2, glyph: '>' }));
}

#[test]
fn main_menu_cursor_is_not_clamped() {
    let mut t = Tcod::new(80, 50);
    t.render_main_menu(menu(&["New Game", "Quit"], 5));
    assert_eq!(t.frame().last(), Some(&DrawOp::PutChar { x: 35, y: 31, glyph: '>' }));
}

#[test]
fn main_menu_without_options() {
    let mut t = Tcod::new(20, 10);
    t.render_main_menu(menu(&[], 0));
    assert_eq!(t.frame().len(), 6);
    assert_eq!(t.frame()[5], DrawOp::PutChar { x: 5, y: 6, glyph: '>' });
    assert_eq!(t.glyph_at(5, 6), Some('>'));
}

#[test]
fn tile_looks() {
    assert_eq!(tile_look(TileType::Ground, false), ('.', Palette::LightGrey));
    assert_eq!(tile_look(TileType::Water, false), ('.', Palette::Blue));
    assert_eq!(tile_look(TileType::Wall, false), ('X', Palette::LightGrey));
    assert_eq!(tile_look(TileType::Ground, true), ('.', Palette::LightestGrey));
    assert_eq!(tile_look(TileType::Water, true), ('.', Palette::LightBlue));
    assert_eq!(tile_look(TileType::Wall, true), ('X', Palette::White));
}

#[test]
fn game_player_over_view_over_memory() {
    let mut t = Tcod::new(10, 10);
    let visited = vec![tile(1, 1, TileType::Ground)];
    let player = Some(PlayerView {
        pos: Position { x: 1, y: 1 },
        in_view: vec![tile(1, 1, TileType::Wall)],
    });
    t.render_game(&visited, &player);
    let expected = vec![
        DrawOp::SetDefaultForeground(Palette::White),
        DrawOp::Clear,
        DrawOp::PutCharEx { x: 1, y: 1, glyph: '.', fg: Palette::LightGrey, bg: Palette::Black },
        DrawOp::PutCharEx { x: 1, y: 1, glyph: 'X', fg: Palette::White, bg: Palette::Black },
        DrawOp::PutChar { x: 1, y: 1, glyph: '@' },
    ];
    assert_eq!(t.frame(), &expected);
    assert_eq!(t.glyph_at(1, 1), Some('@'));
}

#[test]
fn game_view_overrides_memory_away_from_player() {
    let mut t = Tcod::new(10, 10);
    let visited = vec![tile(2, 3, TileType::Water), tile(4, 4, TileType::Ground)];
    let player = Some(PlayerView {
        pos: Position { x: 0, y: 0 },
        in_view: vec![tile(2, 3, TileType::Wall)],
    });
    t.render_game(&visited, &player);
    assert_eq!(t.glyph_at(2, 3), Some('X'));
    assert_eq!(t.glyph_at(4, 4), Some('.'));
    assert_eq!(t.glyph_at(0, 0), Some('@'));
    assert_eq!(t.glyph_at(9, 9), None);
    assert_eq!(
        t.frame()[4],
        DrawOp::PutCharEx { x: 2, y: 3, glyph: 'X', fg: Palette::White, bg: Palette::Black }
    );
}

#[test]
fn game_without_player_draws_map_only() {
    let mut t = Tcod::new(10, 10);
    let visited = vec![tile(1, 2, TileType::Wall), tile(3, 3, TileType::Water)];
    t.render_game(&visited, &None);
    let frame = t.frame();
    assert_eq!(frame.len(), 4);
    assert!(!frame.iter().any(is_player_glyph));
    assert_eq!(
        frame[3],
        DrawOp::PutCharEx { x: 3, y: 3, glyph: '.', fg: Palette::Blue, bg: Palette::Black }
    );
    assert_eq!(t.glyph_at(1, 2), Some('X'));
}

#[test]
fn game_player_glyph_last_at_position() {
    let mut t = Tcod::new(10, 10);
    let visited = vec![tile(3, 4, TileType::Ground), tile(5, 5, TileType::Wall)];
    let player = Some(PlayerView {
        pos: Position { x: 3, y: 4 },
        in_view: vec![tile(3, 4, TileType::Ground), tile(2, 4, TileType::Water)],
    });
    t.render_game(&visited, &player);
    let frame = t.frame();
    assert_eq!(frame.len(), 7);
    assert_eq!(frame.last(), Some(&DrawOp::PutChar { x: 3, y: 4, glyph: '@' }));
    assert_eq!(frame.iter().filter(|op| is_player_glyph(op)).count(), 1);
    assert_eq!(t.glyph_at(3, 4), Some('@'));
}

#[test]
fn game_render_twice_is_identical() {
    let mut t = Tcod::new(10, 10);
    let visited = vec![tile(1, 1, TileType::Ground), tile(2, 1, TileType::Wall)];
    let player = Some(PlayerView {
        pos: Position { x: 1, y: 1 },
        in_view: vec![tile(2, 1, TileType::Wall)],
    });
    t.render_game(&visited, &player);
    let first = t.frame().clone();
    t.render_game(&visited, &player);
    assert_eq!(t.frame(), &first);
}

#[test]
fn game_replaces_menu_frame() {
    let mut t = Tcod::new(80, 50);
    t.render_main_menu(menu(&["New Game", "Quit"], 0));
    t.render_game(&vec![], &None);
    assert_eq!(
        t.frame(),
        &vec![DrawOp::SetDefaultForeground(Palette::White), DrawOp::Clear]
    );
    assert_eq!(t.glyph_at(35, 26), None);
}
