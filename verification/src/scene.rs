use vstd::prelude::*;
use vstd::string::*;

use crate::spinner::{spinner_glyph, spinner_text};

verus! {

/// The colours the screens use.
#[derive(Clone, Copy, Debug, PartialEq, Eq, Structural)]
pub enum Color {
    Black,
    Gray,
    Blue,
    Red,
    Yellow,
    White,
    Green,
}

/// One drawing command of a 640 by 480 window.
#[derive(Clone, Debug, PartialEq, Eq)]
pub enum DrawCmd {
    /// Fill the window.
    Clear(Color),
    /// Write `text` with its top-left corner at (`x`, `y`), `size` pixels high.
    Text { text: String, x: i32, y: i32, size: i32, color: Color },
    /// Draw a straight line.
    Line { x1: i32, y1: i32, x2: i32, y2: i32, color: Color },
}

/// A drawing command as the contracts see it.
pub enum DrawOp {
    Clear(Color),
    Text(Seq<char>, int, int, int, Color),
    Line(int, int, int, int, Color),
}

impl View for DrawCmd {
    type V = DrawOp;

    open spec fn view(&self) -> DrawOp {
        match self {
            DrawCmd::Clear(c) => DrawOp::Clear(*c),
            DrawCmd::Text { text, x, y, size, color } => DrawOp::Text(
                text@,
                *x as int,
                *y as int,
                *size as int,
                *color,
            ),
            DrawCmd::Line { x1, y1, x2, y2, color } => DrawOp::Line(
                *x1 as int,
                *y1 as int,
                *x2 as int,
                *y2 as int,
                *color,
            ),
        }
    }
}

/// A list of drawing commands, carried out in order.
pub struct Scene {
    cmds: Vec<DrawCmd>,
}

impl View for Scene {
    type V = Seq<DrawOp>;

    closed spec fn view(&self) -> Seq<DrawOp> {
        self.cmds@.map_values(|c: DrawCmd| c@)
    }
}

pub open spec fn text_op(t: Seq<char>, x: int, y: int, size: int, color: Color) -> DrawOp {
    DrawOp::Text(t, x, y, size, color)
}

/// The top of every front-end screen: a black window, the name, the
/// version and a rule.
pub open spec fn header_ops() -> Seq<DrawOp> {
    seq![
        DrawOp::Clear(Color::Black),
        text_op("RETRO VENEER"@, 12, 12, 40, Color::Gray),
        text_op("v0.1"@, 580, 12, 20, Color::Gray),
        DrawOp::Line(6, 58, 632, 58, Color::Gray),
    ]
}

/// The bottom of every front-end screen: a rule and the author.
pub open spec fn footer_ops() -> Seq<DrawOp> {
    seq![
        DrawOp::Line(6, 442, 632, 442, Color::Gray),
        text_op("by: ModernRetroDev"@, 420, 450, 20, Color::Gray),
    ]
}

/// A screen title.
pub open spec fn title_ops(t: Seq<char>) -> Seq<DrawOp> {
    seq![text_op(t, 12, 70, 40, Color::Blue)]
}

/// A menu entry at (`x`, `y`): the selected entry is yellow over a red
/// shadow, the others are plain in their own colour.
pub open spec fn entry_ops(label: Seq<char>, x: int, y: int, selected: bool, idle: Color) -> Seq<DrawOp> {
    if selected {
        seq![text_op(label, x + 2, y + 2, 30, Color::Red), text_op(label, x, y, 30, Color::Yellow)]
    } else {
        seq![text_op(label, x, y, 30, idle)]
    }
}

/// A value shown under a menu entry: gray, with a blue shadow while the
/// entry is selected.
pub open spec fn detail_ops(t: Seq<char>, x: int, y: int, selected: bool) -> Seq<DrawOp> {
    if selected {
        seq![text_op(t, x + 2, y + 2, 30, Color::Blue), text_op(t, x, y, 30, Color::Gray)]
    } else {
        seq![text_op(t, x, y, 30, Color::Gray)]
    }
}

/// The busy indicator at (`x`, `y`): yellow over a red shadow.
pub open spec fn spinner_ops(phase: u8, x: int, y: int) -> Seq<DrawOp> {
    seq![
        text_op(spinner_text(phase), x + 2, y + 2, 30, Color::Red),
        text_op(spinner_text(phase), x, y, 30, Color::Yellow),
    ]
}

impl Scene {
    /// No commands.
    pub fn new() -> (r: Scene)
        ensures
            r@ == Seq::<DrawOp>::empty(),
    {
        let r = Scene { cmds: Vec::new() };
        assert(r@ =~= Seq::<DrawOp>::empty());
        r
    }

    /// The header of every front-end screen, alone.
    pub fn framed() -> (r: Scene)
        ensures
            r@ == header_ops(),
    {
        let mut r = Scene::new();
        r.header();
        assert(r@ =~= header_ops());
        r
    }

    /// The commands, in order.
    pub fn commands(&self) -> (r: &Vec<DrawCmd>)
        ensures
            r@.map_values(|c: DrawCmd| c@) == self@,
    {
        &self.cmds
    }

    /// Gives up the commands, in order.
    pub fn into_commands(self) -> (r: Vec<DrawCmd>)
        ensures
            r@.map_values(|c: DrawCmd| c@) == self@,
    {
        self.cmds
    }

    fn push(&mut self, c: DrawCmd)
        ensures
            final(self)@ == old(self)@.push(c@),
    {
        self.cmds.push(c);
        assert(self@ =~= old(self)@.push(c@));
    }

    /// Adds the command that fills the window.
    pub fn clear(&mut self, color: Color)
        ensures
            final(self)@ == old(self)@.push(DrawOp::Clear(color)),
    {
        self.push(DrawCmd::Clear(color));
    }

    /// Adds a text command.
    pub fn text(&mut self, text: &str, x: i32, y: i32, size: i32, color: Color)
        ensures
            final(self)@ == old(self)@.push(text_op(text@, x as int, y as int, size as int, color)),
    {
        self.push(DrawCmd::Text { text: String::from_str(text), x, y, size, color });
    }

    /// Adds a line command.
    pub fn line(&mut self, x1: i32, y1: i32, x2: i32, y2: i32, color: Color)
        ensures
            final(self)@ == old(self)@.push(
                DrawOp::Line(x1 as int, y1 as int, x2 as int, y2 as int, color),
            ),
    {
        self.push(DrawCmd::Line { x1, y1, x2, y2, color });
    }

    pub(crate) fn header(&mut self)
        ensures
            final(self)@ == old(self)@ + header_ops(),
    {
        self.clear(Color::Black);
        self.text("RETRO VENEER", 12, 12, 40, Color::Gray);
        self.text("v0.1", 580, 12, 20, Color::Gray);
        self.line(6, 58, 632, 58, Color::Gray);
        assert(final(self)@ =~= old(self)@ + header_ops());
    }

    pub(crate) fn footer(&mut self)
        ensures
            final(self)@ == old(self)@ + footer_ops(),
    {
        self.line(6, 442, 632, 442, Color::Gray);
        self.text("by: ModernRetroDev", 420, 450, 20, Color::Gray);
        assert(final(self)@ =~= old(self)@ + footer_ops());
    }

    pub(crate) fn title(&mut self, t: &str)
        ensures
            final(self)@ == old(self)@ + title_ops(t@),
    {
        self.text(t, 12, 70, 40, Color::Blue);
        assert(final(self)@ =~= old(self)@ + title_ops(t@));
    }

    pub(crate) fn entry(&mut self, label: &str, x: i32, y: i32, selected: bool, idle: Color)
        requires
            0 <= x <= 1000,
            0 <= y <= 1000,
        ensures
            final(self)@ == old(self)@ + entry_ops(label@, x as int, y as int, selected, idle),
    {
        if selected {
            self.text(label, x + 2, y + 2, 30, Color::Red);
            self.text(label, x, y, 30, Color::Yellow);
        } else {
            self.text(label, x, y, 30, idle);
        }
        assert(final(self)@ =~= old(self)@ + entry_ops(label@, x as int, y as int, selected, idle));
    }

    pub(crate) fn detail(&mut self, t: &str, x: i32, y: i32, selected: bool)
        requires
            0 <= x <= 1000,
            0 <= y <= 1000,
        ensures
            final(self)@ == old(self)@ + detail_ops(t@, x as int, y as int, selected),
    {
        if selected {
            self.text(t, x + 2, y + 2, 30, Color::Blue);
        }
        self.text(t, x, y, 30, Color::Gray);
        assert(final(self)@ =~= old(self)@ + detail_ops(t@, x as int, y as int, selected));
    }

    pub(crate) fn spinner(&mut self, phase: u8, x: i32, y: i32)
        requires
            0 <= x <= 1000,
            0 <= y <= 1000,
        ensures
            final(self)@ == old(self)@ + spinner_ops(phase, x as int, y as int),
    {
        let glyph = spinner_glyph(phase);
        self.text(glyph, x + 2, y + 2, 30, Color::Red);
        self.text(glyph, x, y, 30, Color::Yellow);
        assert(final(self)@ =~= old(self)@ + spinner_ops(phase, x as int, y as int));
    }
}

} // verus!
