use vstd::prelude::*;

use crate::frame::{cmds_of, glyph_of, last_put, Alignment, Cmd, DrawOp, Palette};

verus! {

/// The kinds of terrain a map tile can have.
#[derive(Clone, Copy, Debug, PartialEq, Eq, Structural)]
pub enum TileType {
    Ground,
    Water,
    Wall,
}

/// A map cell and its terrain.
#[derive(Clone, Copy, Debug, PartialEq, Eq, Structural)]
pub struct Tile {
    pub x: i32,
    pub y: i32,
    pub tile_type: TileType,
}

/// Where an entity stands on the map.
#[derive(Clone, Copy, Debug, PartialEq, Eq, Structural)]
pub struct Position {
    pub x: i32,
    pub y: i32,
}

/// The player's position together with the tiles visible from it.
#[derive(Clone, Debug)]
pub struct PlayerView {
    pub pos: Position,
    pub in_view: Vec<Tile>,
}

/// A list of options to choose from, with the highlighted one.
///
/// `cursor_index` is meant to lie in `[0, options.len())` and `menu_size` to
/// equal `options.len()`; keeping them so is the job of whoever moves the
/// cursor, and rendering draws the cursor where the index says even when it
/// lies outside the list.
#[derive(Clone)]
pub struct Menu {
    pub cursor_index: i16,
    pub menu_size: i16,
    pub options: Vec<String>,
}

impl Menu {
    /// The cursor points at an option and the size is the number of options.
    pub open spec fn wf(&self) -> bool {
        &&& self.menu_size as int == self.options@.len()
        &&& 0 <= self.cursor_index < self.menu_size
    }

    /// The option labels, as character sequences.
    pub open spec fn labels(&self) -> Seq<Seq<char>> {
        self.options@.map_values(|s: String| s@)
    }
}

/// The state of the drawing surface: its size in cells and the calls that
/// make up the frame it holds.
pub struct SurfaceView {
    pub width: int,
    pub height: int,
    pub frame: Seq<Cmd>,
}

/// The off-screen drawing surface: its size in cells and the frame last
/// rendered into it, as the ordered drawing calls that produce it.
pub struct Tcod {
    width: i32,
    height: i32,
    frame: Vec<DrawOp>,
}

/// The title shown above the menu.
pub open spec fn title() -> Seq<char> {
    seq!['B', 'A', 'B', 'E', 'L']
}

/// The menu screen on a surface of the given size: reset colours, centred
/// text and a cleared buffer; the title at the centre; each option on its own
/// row below it, centred; then the cursor five columns left of centre on the
/// row of the highlighted option.
pub open spec fn menu_frame(width: int, height: int, options: Seq<Seq<char>>, cursor: int) -> Seq<
    Cmd,
> {
    seq![
        Cmd::SetDefaultBackground(Palette::Black),
        Cmd::SetDefaultForeground(Palette::White),
        Cmd::SetAlignment(Alignment::Center),
        Cmd::Clear,
        Cmd::Print { x: width / 2, y: height / 2, text: title() },
    ] + Seq::new(
        options.len(),
        |i: int| Cmd::Print { x: width / 2, y: height / 2 + 1 + i, text: options[i] },
    ) + seq![Cmd::PutChar { x: width / 2 - 5, y: height / 2 + 1 + cursor, glyph: '>' }]
}

/// Glyph and colour of a tile: remembered tiles are drawn dim, visible ones bright.
pub open spec fn look(t: TileType, fresh: bool) -> (char, Palette) {
    match t {
        TileType::Ground => ('.', if fresh { Palette::LightestGrey } else { Palette::LightGrey }),
        TileType::Water => ('.', if fresh { Palette::LightBlue } else { Palette::Blue }),
        TileType::Wall => ('X', if fresh { Palette::White } else { Palette::LightGrey }),
    }
}

/// The call that draws one tile, on a black background.
pub open spec fn tile_cmd(t: Tile, fresh: bool) -> Cmd {
    Cmd::PutCharEx {
        x: t.x as int,
        y: t.y as int,
        glyph: look(t.tile_type, fresh).0,
        fg: look(t.tile_type, fresh).1,
        bg: Palette::Black,
    }
}

/// The calls that draw a set of tiles, one each, in the order given.
pub open spec fn layer(tiles: Seq<Tile>, fresh: bool) -> Seq<Cmd> {
    tiles.map_values(|t: Tile| tile_cmd(t, fresh))
}

/// The call that draws the player.
pub open spec fn player_cmd(p: Position) -> Cmd {
    Cmd::PutChar { x: p.x as int, y: p.y as int, glyph: '@' }
}

/// The calls that follow the remembered tiles: with a player position, the
/// visible tiles and then the player; without one, nothing.
pub open spec fn player_part(player: Option<PlayerView>) -> Seq<Cmd> {
    match player {
        Some(pv) => layer(pv.in_view@, true).push(player_cmd(pv.pos)),
        None => Seq::empty(),
    }
}

/// The game screen: white foreground and a cleared buffer, the remembered
/// tiles, then what the player sees.
pub open spec fn game_frame(visited: Seq<Tile>, player: Option<PlayerView>) -> Seq<Cmd> {
    seq![Cmd::SetDefaultForeground(Palette::White), Cmd::Clear] + layer(visited, false)
        + player_part(player)
}

/// Glyph and colour of a tile type, dim for a remembered tile and bright for
/// a visible one.
pub fn tile_look(t: TileType, fresh: bool) -> (r: (char, Palette))
    ensures
        r == look(t, fresh),
{
    match t {
        TileType::Ground => ('.', if fresh { Palette::LightestGrey } else { Palette::LightGrey }),
        TileType::Water => ('.', if fresh { Palette::LightBlue } else { Palette::Blue }),
        TileType::Wall => ('X', if fresh { Palette::White } else { Palette::LightGrey }),
    }
}

/// Appends one call per tile.
fn draw_layer(frame: &mut Vec<DrawOp>, tiles: &Vec<Tile>, fresh: bool)
    ensures
        cmds_of(final(frame)@) == cmds_of(old(frame)@) + layer(tiles@, fresh),
{
    let ghost start = cmds_of(frame@);
    let mut i: usize = 0;
    while i < tiles.len()
        invariant
            i <= tiles@.len(),
            cmds_of(frame@) == start + layer(tiles@.subrange(0, i as int), fresh),
        decreases tiles.len() - i,
    {
        let ghost before = cmds_of(frame@);
        let t = tiles[i];
        let (glyph, fg) = tile_look(t.tile_type, fresh);
        frame.push(DrawOp::PutCharEx { x: t.x, y: t.y, glyph, fg, bg: Palette::Black });
        assert(cmds_of(frame@) =~= before.push(frame@.last()@));
        assert(layer(tiles@.subrange(0, i + 1), fresh) =~= layer(tiles@.subrange(0, i as int), fresh).push(
            tile_cmd(t, fresh),
        ));
        i = i + 1;
    }
    assert(tiles@.subrange(0, tiles@.len() as int) =~= tiles@);
}

/// The surface after the main menu is rendered into it.
pub open spec fn after_menu(s: SurfaceView, menu: Menu) -> SurfaceView {
    SurfaceView {
        width: s.width,
        height: s.height,
        frame: menu_frame(s.width, s.height, menu.labels(), menu.cursor_index as int),
    }
}

/// The surface after the game screen is rendered into it.
pub open spec fn after_game(s: SurfaceView, visited: Seq<Tile>, player: Option<PlayerView>) -> SurfaceView {
    SurfaceView { width: s.width, height: s.height, frame: game_frame(visited, player) }
}

/// What cell (x, y) shows once a frame is drawn: the glyph last put there
/// since the last clear, if any.
pub open spec fn shown_glyph(frame: Seq<Cmd>, x: int, y: int) -> Option<char> {
    match last_put(frame, x, y) {
        Some(c) => glyph_of(c),
        None => None,
    }
}

impl View for Tcod {
    type V = SurfaceView;

    closed spec fn view(&self) -> SurfaceView {
        SurfaceView { width: self.width as int, height: self.height as int, frame: cmds_of(self.frame@) }
    }
}

impl Tcod {
    /// The surface has a positive size.
    pub open spec fn wf(&self) -> bool {
        self@.width > 0 && self@.height > 0
    }

    /// An empty surface of `width` by `height` cells.
    pub fn new(width: i32, height: i32) -> (r: Tcod)
        requires
            width > 0,
            height > 0,
        ensures
            r.wf(),
            r@.width == width,
            r@.height == height,
            r@.frame.len() == 0,
    {
        let r = Tcod { width, height, frame: Vec::new() };
        assert(r@.frame =~= Seq::<Cmd>::empty());
        r
    }

    /// The width in cells.
    pub fn width(&self) -> (r: i32)
        ensures
            r == self@.width,
    {
        self.width
    }

    /// The height in cells.
    pub fn height(&self) -> (r: i32)
        ensures
            r == self@.height,
    {
        self.height
    }

    /// The drawing calls of the current frame, in order.
    pub fn frame(&self) -> (r: &Vec<DrawOp>)
        ensures
            cmds_of(r@) == self@.frame,
    {
        &self.frame
    }

    /// The glyph that cell (x, y) shows once the frame is drawn, if the frame
    /// puts one there.
    pub fn glyph_at(&self, x: i32, y: i32) -> (r: Option<char>)
        ensures
            r == shown_glyph(self@.frame, x as int, y as int),
    {
        let ghost all = cmds_of(self.frame@);
        let mut i: usize = self.frame.len();
        assert(all.subrange(0, i as int) =~= all);
        while i > 0
            invariant
                i <= self.frame@.len(),
                all == cmds_of(self.frame@),
                last_put(all, x as int, y as int) == last_put(all.subrange(0, i as int), x as int, y as int),
            decreases i,
        {
            let ghost part = all.subrange(0, i as int);
            assert(part.last() == self.frame@[i - 1]@);
            assert(part.drop_last() =~= all.subrange(0, i - 1));
            match &self.frame[i - 1] {
                DrawOp::PutChar { x: cx, y: cy, glyph } => {
                    if *cx == x && *cy == y {
                        return Some(*glyph);
                    }
                },
                DrawOp::PutCharEx { x: cx, y: cy, glyph, .. } => {
                    if *cx == x && *cy == y {
                        return Some(*glyph);
                    }
                },
                DrawOp::Clear => {
                    return None;
                },
                _ => {},
            }
            i = i - 1;
        }
        assert(all.subrange(0, 0) =~= Seq::<Cmd>::empty());
        None
    }

    /// Lays out the main menu, replacing the frame.
    pub fn render_main_menu(&mut self, menu: Menu)
        requires
            old(self).wf(),
            old(self)@.height / 2 + 1 + menu.options@.len() <= i32::MAX,
        ensures
            final(self).wf(),
            final(self)@ == after_menu(old(self)@, menu),
    {
        let cx: i32 = self.width / 2;
        let cy: i32 = self.height / 2;
        let mut frame: Vec<DrawOp> = Vec::new();
        frame.push(DrawOp::SetDefaultBackground(Palette::Black));
        frame.push(DrawOp::SetDefaultForeground(Palette::White));
        frame.push(DrawOp::SetAlignment(Alignment::Center));
        frame.push(DrawOp::Clear);
        let title_text = "BABEL".to_owned();
        proof {
            reveal_strlit("BABEL");
            assert(title_text@ =~= title());
        }
        frame.push(DrawOp::Print { x: cx, y: cy, text: title_text });
        let ghost head = cmds_of(frame@);
        assert(head =~= seq![
            Cmd::SetDefaultBackground(Palette::Black),
            Cmd::SetDefaultForeground(Palette::White),
            Cmd::SetAlignment(Alignment::Center),
            Cmd::Clear,
            Cmd::Print { x: cx as int, y: cy as int, text: title() },
        ]);
        let n = menu.options.len();
        let mut i: usize = 0;
        while i < n
            invariant
                n == menu.options@.len(),
                i <= n,
                cx as int == self@.width / 2,
                cy as int == self@.height / 2,
                cy >= 0,
                cy + 1 + n <= i32::MAX,
                head.len() == 5,
                cmds_of(frame@) == head + Seq::new(
                    i as nat,
                    |k: int| Cmd::Print { x: cx as int, y: cy + 1 + k, text: menu.labels()[k] },
                ),
            decreases n - i,
        {
            let ghost before = cmds_of(frame@);
            let row: i32 = cy + 1 + i as i32;
            frame.push(DrawOp::Print { x: cx, y: row, text: menu.options[i].clone() });
            assert(cmds_of(frame@) =~= before.push(frame@.last()@));
            assert(menu.labels()[i as int] == menu.options@[i as int]@);
            assert(cmds_of(frame@) =~= head + Seq::new(
                (i + 1) as nat,
                |k: int| Cmd::Print { x: cx as int, y: cy + 1 + k, text: menu.labels()[k] },
            ));
            i = i + 1;
        }
        let ghost body = cmds_of(frame@);
        frame.push(DrawOp::PutChar { x: cx - 5, y: cy + 1 + menu.cursor_index as i32, glyph: '>' });
        assert(cmds_of(frame@) =~= body.push(frame@.last()@));
        self.frame = frame;
        assert(self@.frame =~= menu_frame(
            self@.width,
            self@.height,
            menu.labels(),
            menu.cursor_index as int,
        ));
    }

    /// Lays out the game screen, replacing the frame: the remembered tiles,
    /// and where the player has a position, the tiles visible from it and the
    /// player's glyph on top.
    pub fn render_game(&mut self, visited: &Vec<Tile>, player: &Option<PlayerView>)
        requires
            old(self).wf(),
        ensures
            final(self).wf(),
            final(self)@ == after_game(old(self)@, visited@, *player),
    {
        let mut frame: Vec<DrawOp> = Vec::new();
        frame.push(DrawOp::SetDefaultForeground(Palette::White));
        frame.push(DrawOp::Clear);
        let ghost head = cmds_of(frame@);
        assert(head =~= seq![Cmd::SetDefaultForeground(Palette::White), Cmd::Clear]);
        draw_layer(&mut frame, visited, false);
        let ghost map = cmds_of(frame@);
        match player {
            Some(pv) => {
                draw_layer(&mut frame, &pv.in_view, true);
                let ghost seen = cmds_of(frame@);
                frame.push(DrawOp::PutChar { x: pv.pos.x, y: pv.pos.y, glyph: '@' });
                assert(cmds_of(frame@) =~= seen.push(frame@.last()@));
            },
            None => {},
        }
        self.frame = frame;
        assert(self@.frame =~= game_frame(visited@, *player));
    }
}

} // verus!
