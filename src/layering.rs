use vstd::prelude::*;

use crate::frame::{glyph_of, last_put, lemma_last_put_append, puts_at, settles, Cmd};
use crate::gui::{
    after_game, game_frame, layer, menu_frame, player_cmd, tile_cmd, title, PlayerView,
    SurfaceView, Tile,
};

verus! {

/// Whether a tile stands in cell (x, y).
pub open spec fn tile_at(t: Tile, x: int, y: int) -> bool {
    t.x as int == x && t.y as int == y
}

/// Within one layer of tiles, a cell that some tile of the layer stands in
/// shows the glyph of a tile of that layer at that cell.
pub proof fn lemma_layer_covers(tiles: Seq<Tile>, fresh: bool, x: int, y: int)
    requires
        exists|j: int| 0 <= j < tiles.len() && tile_at(#[trigger] tiles[j], x, y),
    ensures
        exists|k: int|
            0 <= k < tiles.len() && tile_at(#[trigger] tiles[k], x, y) && last_put(
                layer(tiles, fresh),
                x,
                y,
            ) == Some(tile_cmd(tiles[k], fresh)),
    decreases tiles.len(),
{
    let l = layer(tiles, fresh);
    let n = tiles.len() - 1;
    assert(l.last() == tile_cmd(tiles[n], fresh));
    if tile_at(tiles[n], x, y) {
        assert(puts_at(l.last(), x, y));
    } else {
        let rest = tiles.drop_last();
        assert(l.drop_last() =~= layer(rest, fresh));
        let j = choose|j: int| 0 <= j < tiles.len() && tile_at(#[trigger] tiles[j], x, y);
        assert(rest[j] == tiles[j]);
        lemma_layer_covers(rest, fresh, x, y);
        let k = choose|k: int|
            0 <= k < rest.len() && tile_at(#[trigger] rest[k], x, y) && last_put(
                layer(rest, fresh),
                x,
                y,
            ) == Some(tile_cmd(rest[k], fresh));
        assert(tiles[k] == rest[k]);
    }
}

/// The menu screen of a menu whose cursor points at an option: five set-up
/// calls ending in the title, one centred print per option in order, and a
/// single glyph, the cursor, on the row of the highlighted option.
pub proof fn lemma_menu_layout(width: int, height: int, options: Seq<Seq<char>>, cursor: int)
    requires
        0 <= cursor < options.len(),
    ensures
        ({
            let f = menu_frame(width, height, options, cursor);
            &&& f.len() == options.len() + 6
            &&& forall|k: int| 0 <= k < f.len() ==> (#[trigger] f[k] is Print <==> 4 <= k < options.len() + 5)
            &&& forall|k: int| 0 <= k < f.len() && #[trigger] f[k] is Print ==> f[k]->Print_x == width / 2
            &&& f[4] == Cmd::Print { x: width / 2, y: height / 2, text: title() }
            &&& forall|i: int|
                0 <= i < options.len() ==> #[trigger] f[5 + i] == Cmd::Print {
                    x: width / 2,
                    y: height / 2 + 1 + i,
                    text: options[i],
                }
            &&& forall|k: int| 0 <= k < f.len() ==> (glyph_of(#[trigger] f[k]) is Some <==> k == f.len() - 1)
            &&& f.last() == Cmd::PutChar { x: width / 2 - 5, y: f[5 + cursor]->Print_y, glyph: '>' }
        }),
{
    let f = menu_frame(width, height, options, cursor);
    assert(f.len() == options.len() + 6);
    assert forall|k: int| 5 <= k < options.len() + 5 implies f[k] == Cmd::Print {
        x: width / 2,
        y: height / 2 + 1 + (k - 5),
        text: options[k - 5],
    } by {}
    assert forall|i: int| 0 <= i < options.len() implies #[trigger] f[5 + i] == Cmd::Print {
        x: width / 2,
        y: height / 2 + 1 + i,
        text: options[i],
    } by {
        assert(f[5 + i] == Cmd::Print {
            x: width / 2,
            y: height / 2 + 1 + ((5 + i) - 5),
            text: options[(5 + i) - 5],
        });
    }
}

/// Remembered tiles are drawn first, one call each in order, and the tiles in
/// view after them, one call each in order; a cell that a visible tile stands
/// in shows a visible tile's look before the player is drawn, never a
/// remembered one's, and keeps it unless the player stands there.
pub proof fn lemma_visible_over_remembered(visited: Seq<Tile>, pv: PlayerView, x: int, y: int)
    requires
        exists|j: int| 0 <= j < pv.in_view@.len() && tile_at(#[trigger] pv.in_view@[j], x, y),
    ensures
        ({
            let f = game_frame(visited, Some(pv));
            let view = pv.in_view@;
            &&& f.len() == visited.len() + view.len() + 3
            &&& forall|i: int| 0 <= i < visited.len() ==> #[trigger] f[2 + i] == tile_cmd(visited[i], false)
            &&& forall|j: int|
                0 <= j < view.len() ==> #[trigger] f[2 + visited.len() + j] == tile_cmd(view[j], true)
            &&& exists|k: int|
                0 <= k < view.len() && tile_at(#[trigger] view[k], x, y) && last_put(f.drop_last(), x, y)
                    == Some(tile_cmd(view[k], true))
            &&& !(pv.pos.x as int == x && pv.pos.y as int == y) ==> last_put(f, x, y) == last_put(f.drop_last(), x, y)
        }),
{
    let f = game_frame(visited, Some(pv));
    let view = pv.in_view@;
    let head = seq![Cmd::SetDefaultForeground(crate::frame::Palette::White), Cmd::Clear]
        + layer(visited, false);
    let lv = layer(view, true);
    assert(f.drop_last() =~= head + lv);
    assert(f =~= (head + lv).push(player_cmd(pv.pos)));
    assert forall|j: int| 0 <= j < view.len() implies #[trigger] f[2 + visited.len() + j] == tile_cmd(
        view[j],
        true,
    ) by {
        assert(f[2 + visited.len() + j] == lv[j]);
    }
    lemma_layer_covers(view, true, x, y);
    let j = choose|j: int| 0 <= j < view.len() && tile_at(#[trigger] view[j], x, y);
    assert(settles(lv[j], x, y));
    lemma_last_put_append(head, lv, x, y);
    assert(f.last() == player_cmd(pv.pos));
    assert(f.drop_last() =~= f.subrange(0, f.len() - 1));
}

/// Without a player position the frame is the remembered tiles alone: no
/// visible tile is drawn and no cell is given the player's glyph.
pub proof fn lemma_absent_player(visited: Seq<Tile>)
    ensures
        ({
            let f = game_frame(visited, None);
            &&& f.len() == visited.len() + 2
            &&& forall|i: int| 0 <= i < visited.len() ==> #[trigger] f[2 + i] == tile_cmd(visited[i], false)
            &&& forall|k: int| 0 <= k < f.len() ==> glyph_of(#[trigger] f[k]) != Some('@')
        }),
{
    let f = game_frame(visited, None);
    assert forall|k: int| 0 <= k < f.len() implies glyph_of(#[trigger] f[k]) != Some('@') by {
        if k >= 2 {
            assert(f[k] == tile_cmd(visited[k - 2], false));
        }
    }
}

/// With a player position, the player's glyph is the last call of the frame,
/// at that position, and the only one that puts the player's glyph; so the
/// cell there shows it.
pub proof fn lemma_player_on_top(visited: Seq<Tile>, pv: PlayerView)
    ensures
        ({
            let f = game_frame(visited, Some(pv));
            &&& f.last() == player_cmd(pv.pos)
            &&& forall|k: int| 0 <= k < f.len() - 1 ==> glyph_of(#[trigger] f[k]) != Some('@')
            &&& last_put(f, pv.pos.x as int, pv.pos.y as int) == Some(player_cmd(pv.pos))
        }),
{
    let f = game_frame(visited, Some(pv));
    let view = pv.in_view@;
    assert forall|k: int| 0 <= k < f.len() - 1 implies glyph_of(#[trigger] f[k]) != Some('@') by {
        if 2 <= k < 2 + visited.len() {
            assert(f[k] == tile_cmd(visited[k - 2], false));
        } else if k >= 2 + visited.len() {
            assert(f[k] == tile_cmd(view[k - 2 - visited.len()], true));
        }
    }
    assert(puts_at(f.last(), pv.pos.x as int, pv.pos.y as int));
}

/// Rendering the game screen depends on its inputs alone: doing it twice in a
/// row gives what doing it once gives, whatever the surface held before.
pub proof fn lemma_render_game_repeatable(
    s1: SurfaceView,
    s2: SurfaceView,
    visited: Seq<Tile>,
    player: Option<PlayerView>,
)
    ensures
        after_game(after_game(s1, visited, player), visited, player) == after_game(s1, visited, player),
        after_game(s1, visited, player).frame == after_game(s2, visited, player).frame,
{
}

} // verus!
