use vstd::prelude::*;

verus! {

/// The colours the renderer draws with.
#[derive(Clone, Copy, Debug, PartialEq, Eq, Structural)]
pub enum Palette {
    Black,
    White,
    LightGrey,
    LightestGrey,
    Blue,
    LightBlue,
}

/// Where a printed string stands relative to its x coordinate.
#[derive(Clone, Copy, Debug, PartialEq, Eq, Structural)]
pub enum Alignment {
    Left,
    Center,
    Right,
}

/// One drawing call on the off-screen console, in the order it is made.
#[derive(Clone, Debug, PartialEq, Eq)]
pub enum DrawOp {
    SetDefaultBackground(Palette),
    SetDefaultForeground(Palette),
    SetAlignment(Alignment),
    /// Resets every cell to the default background.
    Clear,
    /// A string at (x, y), placed by the current alignment.
    Print { x: i32, y: i32, text: String },
    /// A glyph in the default foreground, leaving the background as it is.
    PutChar { x: i32, y: i32, glyph: char },
    /// A glyph with explicit foreground and background colours.
    PutCharEx { x: i32, y: i32, glyph: char, fg: Palette, bg: Palette },
}

/// The mathematical form of a drawing call.
pub enum Cmd {
    SetDefaultBackground(Palette),
    SetDefaultForeground(Palette),
    SetAlignment(Alignment),
    Clear,
    Print { x: int, y: int, text: Seq<char> },
    PutChar { x: int, y: int, glyph: char },
    PutCharEx { x: int, y: int, glyph: char, fg: Palette, bg: Palette },
}

impl View for DrawOp {
    type V = Cmd;

    open spec fn view(&self) -> Cmd {
        match self {
            DrawOp::SetDefaultBackground(c) => Cmd::SetDefaultBackground(*c),
            DrawOp::SetDefaultForeground(c) => Cmd::SetDefaultForeground(*c),
            DrawOp::SetAlignment(a) => Cmd::SetAlignment(*a),
            DrawOp::Clear => Cmd::Clear,
            DrawOp::Print { x, y, text } => Cmd::Print { x: *x as int, y: *y as int, text: text@ },
            DrawOp::PutChar { x, y, glyph } => Cmd::PutChar {
                x: *x as int,
                y: *y as int,
                glyph: *glyph,
            },
            DrawOp::PutCharEx { x, y, glyph, fg, bg } => Cmd::PutCharEx {
                x: *x as int,
                y: *y as int,
                glyph: *glyph,
                fg: *fg,
                bg: *bg,
            },
        }
    }
}

/// The calls of a frame, as commands.
pub open spec fn cmds_of(ops: Seq<DrawOp>) -> Seq<Cmd> {
    ops.map_values(|o: DrawOp| o@)
}

/// Whether a command puts a glyph in cell (x, y).
pub open spec fn puts_at(c: Cmd, x: int, y: int) -> bool {
    match c {
        Cmd::PutChar { x: cx, y: cy, .. } => cx == x && cy == y,
        Cmd::PutCharEx { x: cx, y: cy, .. } => cx == x && cy == y,
        _ => false,
    }
}

/// Whether a command decides what cell (x, y) holds, by a glyph or a clear.
pub open spec fn settles(c: Cmd, x: int, y: int) -> bool {
    puts_at(c, x, y) || c is Clear
}

/// The last glyph put in cell (x, y) since the last clear: that is the glyph
/// the cell shows once the frame is drawn, later writes overwriting earlier ones.
pub open spec fn last_put(cmds: Seq<Cmd>, x: int, y: int) -> Option<Cmd>
    decreases cmds.len(),
{
    if cmds.len() == 0 {
        None
    } else if puts_at(cmds.last(), x, y) {
        Some(cmds.last())
    } else if cmds.last() is Clear {
        None
    } else {
        last_put(cmds.drop_last(), x, y)
    }
}

/// The glyph of a command that puts one.
pub open spec fn glyph_of(c: Cmd) -> Option<char> {
    match c {
        Cmd::PutChar { glyph, .. } => Some(glyph),
        Cmd::PutCharEx { glyph, .. } => Some(glyph),
        _ => None,
    }
}

/// What a cell shows depends on the later part of a frame alone wherever that
/// part puts a glyph there or clears, and on the earlier part otherwise.
pub proof fn lemma_last_put_append(a: Seq<Cmd>, b: Seq<Cmd>, x: int, y: int)
    ensures
        (exists|i: int| 0 <= i < b.len() && settles(#[trigger] b[i], x, y)) ==> last_put(a + b, x, y)
            == last_put(b, x, y),
        (forall|i: int| 0 <= i < b.len() ==> !settles(#[trigger] b[i], x, y)) ==> last_put(a + b, x, y)
            == last_put(a, x, y),
    decreases b.len(),
{
    if b.len() == 0 {
        assert(a + b =~= a);
    } else {
        let ab = a + b;
        assert(ab.last() == b.last());
        assert(ab.drop_last() =~= a + b.drop_last());
        lemma_last_put_append(a, b.drop_last(), x, y);
        if !settles(b.last(), x, y) {
            if exists|i: int| 0 <= i < b.len() && settles(#[trigger] b[i], x, y) {
                let i = choose|i: int| 0 <= i < b.len() && settles(#[trigger] b[i], x, y);
                assert(i < b.len() - 1);
                assert(b.drop_last()[i] == b[i]);
            }
            if forall|i: int| 0 <= i < b.len() ==> !settles(#[trigger] b[i], x, y) {
                assert forall|i: int| 0 <= i < b.drop_last().len() implies !settles(
                    #[trigger] b.drop_last()[i],
                    x,
                    y,
                ) by {
                    assert(b.drop_last()[i] == b[i]);
                }
            }
        } else {
            assert(settles(b[b.len() - 1], x, y));
        }
    }
}

} // verus!
