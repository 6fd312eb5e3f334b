//! The state of a drawing surface and what it decides on every click.

use crate::shapes::{Pixel, PixelCircle, PixelLine, PixelRect, Trace};
use vstd::prelude::*;

verus! {

/// What the next completed pair of clicks becomes.
#[derive(Clone, Copy, Debug, PartialEq, Eq, Structural)]
pub enum Mode {
    Line,
    Rectangle,
    Circle,
}

/// The color shapes are painted in.
#[derive(Clone, Copy, Debug, PartialEq, Eq, Structural)]
pub enum Ink {
    /// The color of a fresh surface.
    Black,
    /// A color picked by its red, green and blue parts.
    Rgb { r: u8, g: u8, b: u8 },
}

/// One thing the painter has to do after a click, in the order given.
#[derive(Clone, Copy, Debug, PartialEq, Eq, Structural)]
pub enum Action {
    /// Mark the clicked position.
    Mark { at: Pixel },
    /// Paint a new line.
    PaintLine { trace: Trace, ink: Ink },
    /// Paint a new circle, filled or as an outline.
    PaintCircle { circle: PixelCircle, fill: bool, ink: Ink },
    /// Paint a new rectangle, filled or as an outline.
    PaintRectangle { rect: PixelRect, fill: bool, ink: Ink },
    /// Mark where the new line meets a stored line.
    CrossLines { fresh_line: PixelLine, stored_line: PixelLine },
    /// Mark where `line` meets `circle`; one of the two is new.
    CrossLineCircle { line: PixelLine, circle: PixelCircle },
    /// Mark where the new circle meets a stored circle.
    CrossCircles { fresh_circle: PixelCircle, stored_circle: PixelCircle },
}

/// A surface as contracts see it.
pub struct CanvasState {
    pub mode: Mode,
    pub fill: bool,
    pub ink: Ink,
    /// Every click since the surface was last cleared, oldest first.
    pub points: Seq<Pixel>,
    /// The click that waits for a second one to make a shape.
    pub pending: Option<Pixel>,
    /// The lines drawn so far, oldest first.
    pub lines: Seq<PixelLine>,
    /// The circles drawn so far, oldest first.
    pub circles: Seq<PixelCircle>,
}

/// The mode that a triple of radio buttons (line, rectangle, circle) asks for:
/// the line button alone selects lines, the rectangle button alone selects
/// rectangles, and every other combination selects circles.
pub open spec fn mode_of(buttons: (bool, bool, bool)) -> Mode {
    if buttons.0 && !buttons.1 && !buttons.2 {
        Mode::Line
    } else if !buttons.0 && buttons.1 && !buttons.2 {
        Mode::Rectangle
    } else {
        Mode::Circle
    }
}

/// The crossings of a new line with each stored line, oldest first.
pub open spec fn line_crossings(fresh: PixelLine, lines: Seq<PixelLine>) -> Seq<Action> {
    Seq::new(lines.len(), |i: int| Action::CrossLines { fresh_line: fresh, stored_line: lines[i] })
}

/// The crossings of a new line with each stored circle, oldest first.
pub open spec fn circle_crossings_of_line(line: PixelLine, circles: Seq<PixelCircle>) -> Seq<
    Action,
> {
    Seq::new(circles.len(), |i: int| Action::CrossLineCircle { line, circle: circles[i] })
}

/// The crossings of a new circle with each stored circle, oldest first.
pub open spec fn circle_crossings(fresh: PixelCircle, circles: Seq<PixelCircle>) -> Seq<Action> {
    Seq::new(
        circles.len(),
        |i: int| Action::CrossCircles { fresh_circle: fresh, stored_circle: circles[i] },
    )
}

/// The crossings of a new circle with each stored line, oldest first.
pub open spec fn line_crossings_of_circle(circle: PixelCircle, lines: Seq<PixelLine>) -> Seq<
    Action,
> {
    Seq::new(lines.len(), |i: int| Action::CrossLineCircle { line: lines[i], circle })
}

/// The surface after a click at `p`.
///
/// The click is always recorded. A first click waits; a second one makes the
/// shape of the current mode with the waiting click and leaves nothing
/// waiting. Lines and circles are stored, rectangles are not.
pub open spec fn pressed(s: CanvasState, p: Pixel) -> CanvasState {
    match s.pending {
        None => CanvasState { points: s.points.push(p), pending: Some(p), ..s },
        Some(q) => match s.mode {
            Mode::Line => CanvasState {
                points: s.points.push(p),
                pending: None,
                lines: s.lines.push(PixelLine { a: p, b: q }),
                ..s
            },
            Mode::Circle => CanvasState {
                points: s.points.push(p),
                pending: None,
                circles: s.circles.push(PixelCircle { center: q, sidepoint: p }),
                ..s
            },
            Mode::Rectangle => CanvasState { points: s.points.push(p), pending: None, ..s },
        },
    }
}

/// What the painter is asked to do after a click at `p` on the surface `s`.
///
/// The click is marked first. If it completes a shape, the shape is painted
/// next, and then it is crossed with everything stored before it: a line with
/// the lines and then the circles, a circle with the circles and then the
/// lines. A rectangle is crossed with nothing.
pub open spec fn press_actions(s: CanvasState, p: Pixel) -> Seq<Action> {
    match s.pending {
        None => seq![Action::Mark { at: p }],
        Some(q) => match s.mode {
            Mode::Line => {
                let fresh = PixelLine { a: p, b: q };
                seq![
                    Action::Mark { at: p },
                    Action::PaintLine { trace: fresh.trace_spec(), ink: s.ink },
                ] + line_crossings(fresh, s.lines) + circle_crossings_of_line(fresh, s.circles)
            },
            Mode::Circle => {
                let fresh = PixelCircle { center: q, sidepoint: p };
                seq![
                    Action::Mark { at: p },
                    Action::PaintCircle { circle: fresh, fill: s.fill, ink: s.ink },
                ] + circle_crossings(fresh, s.circles) + line_crossings_of_circle(fresh, s.lines)
            },
            Mode::Rectangle => seq![
                Action::Mark { at: p },
                Action::PaintRectangle { rect: PixelRect::spanned(p, q), fill: s.fill, ink: s.ink },
            ],
        },
    }
}

/// Two clicks on a surface where nothing waits make exactly one shape of the
/// current mode: a line through the second click and the first, a circle
/// around the first click through the second, or a rectangle, which is not
/// stored. Both clicks are recorded, nothing is left waiting, and the mode and
/// the paint settings stay as they are.
pub proof fn two_clicks_make_one_shape(s: CanvasState, p: Pixel, q: Pixel)
    requires
        s.pending is None,
    ensures
        ({
            let t = pressed(pressed(s, p), q);
            &&& t.pending is None
            &&& t.points == s.points.push(p).push(q)
            &&& t.mode == s.mode && t.fill == s.fill && t.ink == s.ink
            &&& s.mode == Mode::Line ==> t.lines == s.lines.push(PixelLine { a: q, b: p })
                && t.circles == s.circles
            &&& s.mode == Mode::Circle ==> t.circles == s.circles.push(
                PixelCircle { center: p, sidepoint: q },
            ) && t.lines == s.lines
            &&& s.mode == Mode::Rectangle ==> t.lines == s.lines && t.circles == s.circles
        }),
{
}

/// A click that completes a line or a circle asks for the click to be marked,
/// for the shape to be painted, and for one crossing with each stored line
/// and each stored circle. A click that completes a rectangle asks for no
/// crossing, and a click that waits only for its mark.
pub proof fn every_stored_shape_is_crossed_once(s: CanvasState, p: Pixel)
    ensures
        s.pending is None ==> press_actions(s, p).len() == 1,
        s.pending is Some && s.mode == Mode::Rectangle ==> press_actions(s, p).len() == 2,
        s.pending is Some && s.mode != Mode::Rectangle ==> press_actions(s, p).len() == 2
            + s.lines.len() + s.circles.len(),
        forall|i: int|
            s.pending is Some && s.mode == Mode::Line && 0 <= i < s.lines.len()
                ==> #[trigger] press_actions(s, p)[2 + i] == (Action::CrossLines {
                fresh_line: PixelLine { a: p, b: s.pending->0 },
                stored_line: s.lines[i],
            }),
        forall|i: int|
            s.pending is Some && s.mode == Mode::Line && 0 <= i < s.circles.len()
                ==> #[trigger] press_actions(s, p)[2 + s.lines.len() + i]
                == (Action::CrossLineCircle {
                line: PixelLine { a: p, b: s.pending->0 },
                circle: s.circles[i],
            }),
        forall|i: int|
            s.pending is Some && s.mode == Mode::Circle && 0 <= i < s.circles.len()
                ==> #[trigger] press_actions(s, p)[2 + i] == (Action::CrossCircles {
                fresh_circle: PixelCircle { center: s.pending->0, sidepoint: p },
                stored_circle: s.circles[i],
            }),
        forall|i: int|
            s.pending is Some && s.mode == Mode::Circle && 0 <= i < s.lines.len()
                ==> #[trigger] press_actions(s, p)[2 + s.circles.len() + i]
                == (Action::CrossLineCircle {
                line: s.lines[i],
                circle: PixelCircle { center: s.pending->0, sidepoint: p },
            }),
{
}

fn push_line_crossings(fresh: PixelLine, lines: &Vec<PixelLine>, out: &mut Vec<Action>)
    ensures
        final(out)@ == old(out)@ + line_crossings(fresh, lines@),
{
    let ghost before = out@;
    let mut i: usize = 0;
    while i < lines.len()
        invariant
            i <= lines.len(),
            out@ == before + line_crossings(fresh, lines@.take(i as int)),
        decreases lines.len() - i,
    {
        out.push(Action::CrossLines { fresh_line: fresh, stored_line: lines[i] });
        i += 1;
        assert(out@ =~= before + line_crossings(fresh, lines@.take(i as int)));
    }
    assert(lines@.take(i as int) =~= lines@);
}

fn push_circle_crossings_of_line(line: PixelLine, circles: &Vec<PixelCircle>, out: &mut Vec<Action>)
    ensures
        final(out)@ == old(out)@ + circle_crossings_of_line(line, circles@),
{
    let ghost before = out@;
    let mut i: usize = 0;
    while i < circles.len()
        invariant
            i <= circles.len(),
            out@ == before + circle_crossings_of_line(line, circles@.take(i as int)),
        decreases circles.len() - i,
    {
        out.push(Action::CrossLineCircle { line, circle: circles[i] });
        i += 1;
        assert(out@ =~= before + circle_crossings_of_line(line, circles@.take(i as int)));
    }
    assert(circles@.take(i as int) =~= circles@);
}

fn push_circle_crossings(fresh: PixelCircle, circles: &Vec<PixelCircle>, out: &mut Vec<Action>)
    ensures
        final(out)@ == old(out)@ + circle_crossings(fresh, circles@),
{
    let ghost before = out@;
    let mut i: usize = 0;
    while i < circles.len()
        invariant
            i <= circles.len(),
            out@ == before + circle_crossings(fresh, circles@.take(i as int)),
        decreases circles.len() - i,
    {
        out.push(Action::CrossCircles { fresh_circle: fresh, stored_circle: circles[i] });
        i += 1;
        assert(out@ =~= before + circle_crossings(fresh, circles@.take(i as int)));
    }
    assert(circles@.take(i as int) =~= circles@);
}

fn push_line_crossings_of_circle(circle: PixelCircle, lines: &Vec<PixelLine>, out: &mut Vec<Action>)
    ensures
        final(out)@ == old(out)@ + line_crossings_of_circle(circle, lines@),
{
    let ghost before = out@;
    let mut i: usize = 0;
    while i < lines.len()
        invariant
            i <= lines.len(),
            out@ == before + line_crossings_of_circle(circle, lines@.take(i as int)),
        decreases lines.len() - i,
    {
        out.push(Action::CrossLineCircle { line: lines[i], circle });
        i += 1;
        assert(out@ =~= before + line_crossings_of_circle(circle, lines@.take(i as int)));
    }
    assert(lines@.take(i as int) =~= lines@);
}

/// A drawing surface: the drawing mode, the paint settings, and what has been
/// clicked and drawn since it was last cleared.
#[derive(Debug)]
pub struct Canvas {
    mode: Mode,
    fill: bool,
    ink: Ink,
    points: Vec<Pixel>,
    pending: Option<Pixel>,
    lines: Vec<PixelLine>,
    circles: Vec<PixelCircle>,
}

impl View for Canvas {
    type V = CanvasState;

    closed spec fn view(&self) -> CanvasState {
        CanvasState {
            mode: self.mode,
            fill: self.fill,
            ink: self.ink,
            points: self.points@,
            pending: self.pending,
            lines: self.lines@,
            circles: self.circles@,
        }
    }
}

impl Canvas {
    /// An empty surface that draws black outlines of lines.
    pub fn new() -> (c: Canvas)
        ensures
            c@ == (CanvasState {
                mode: Mode::Line,
                fill: false,
                ink: Ink::Black,
                points: Seq::empty(),
                pending: None,
                lines: Seq::empty(),
                circles: Seq::empty(),
            }),
    {
        Canvas {
            mode: Mode::Line,
            fill: false,
            ink: Ink::Black,
            points: Vec::new(),
            pending: None,
            lines: Vec::new(),
            circles: Vec::new(),
        }
    }

    /// Forgets every click and every shape. The mode and the paint settings
    /// stay as they are.
    pub fn clear(&mut self)
        ensures
            final(self)@ == (CanvasState {
                points: Seq::empty(),
                pending: None,
                lines: Seq::empty(),
                circles: Seq::empty(),
                ..old(self)@
            }),
    {
        self.points.clear();
        self.pending = None;
        self.lines.clear();
        self.circles.clear();
    }

    /// Selects the drawing mode from the radio buttons (line, rectangle,
    /// circle). A waiting click keeps waiting.
    pub fn toggle(&mut self, buttons: (bool, bool, bool))
        ensures
            final(self)@ == (CanvasState { mode: mode_of(buttons), ..old(self)@ }),
    {
        self.mode = match buttons {
            (true, false, false) => Mode::Line,
            (false, true, false) => Mode::Rectangle,
            _ => Mode::Circle,
        };
    }

    /// Paints shapes from now on in the color with the given red, green and
    /// blue parts.
    pub fn set_color(&mut self, color: (u8, u8, u8))
        ensures
            final(self)@ == (CanvasState {
                ink: Ink::Rgb { r: color.0, g: color.1, b: color.2 },
                ..old(self)@
            }),
    {
        self.ink = Ink::Rgb { r: color.0, g: color.1, b: color.2 };
    }

    /// Paints circles and rectangles filled (`true`) or as outlines from now on.
    pub fn set_fill(&mut self, fill: bool)
        ensures
            final(self)@ == (CanvasState { fill, ..old(self)@ }),
    {
        self.fill = fill;
    }

    /// Takes a click at (`x`, `y`) and returns what the painter has to do.
    pub fn press(&mut self, x: i32, y: i32) -> (actions: Vec<Action>)
        ensures
            final(self)@ == pressed(old(self)@, Pixel { x, y }),
            actions@ == press_actions(old(self)@, Pixel { x, y }),
    {
        let p = Pixel { x, y };
        let mut actions: Vec<Action> = Vec::new();
        actions.push(Action::Mark { at: p });
        self.points.push(p);
        match self.pending {
            None => {
                self.pending = Some(p);
                assert(actions@ =~= press_actions(old(self)@, p));
            },
            Some(q) => {
                self.pending = None;
                match self.mode {
                    Mode::Line => {
                        let fresh = PixelLine { a: p, b: q };
                        actions.push(Action::PaintLine { trace: fresh.trace(), ink: self.ink });
                        push_line_crossings(fresh, &self.lines, &mut actions);
                        push_circle_crossings_of_line(fresh, &self.circles, &mut actions);
                        self.lines.push(fresh);
                        assert(actions@ =~= press_actions(old(self)@, p));
                    },
                    Mode::Circle => {
                        let fresh = PixelCircle { center: q, sidepoint: p };
                        actions.push(
                            Action::PaintCircle { circle: fresh, fill: self.fill, ink: self.ink },
                        );
                        push_circle_crossings(fresh, &self.circles, &mut actions);
                        push_line_crossings_of_circle(fresh, &self.lines, &mut actions);
                        self.circles.push(fresh);
                        assert(actions@ =~= press_actions(old(self)@, p));
                    },
                    Mode::Rectangle => {
                        let rect = PixelRect::new(p, q);
                        actions.push(
                            Action::PaintRectangle { rect, fill: self.fill, ink: self.ink },
                        );
                        assert(actions@ =~= press_actions(old(self)@, p));
                    },
                }
            },
        }
        actions
    }

    pub fn mode(&self) -> (m: Mode)
        ensures
            m == self@.mode,
    {
        self.mode
    }

    pub fn fill(&self) -> (f: bool)
        ensures
            f == self@.fill,
    {
        self.fill
    }

    pub fn ink(&self) -> (i: Ink)
        ensures
            i == self@.ink,
    {
        self.ink
    }

    /// The click that waits for a second one, if any.
    pub fn pending(&self) -> (p: Option<Pixel>)
        ensures
            p == self@.pending,
    {
        self.pending
    }

    /// Every click since the surface was last cleared, oldest first.
    pub fn points(&self) -> (v: &Vec<Pixel>)
        ensures
            v@ == self@.points,
    {
        &self.points
    }

    /// The stored lines, oldest first.
    pub fn lines(&self) -> (v: &Vec<PixelLine>)
        ensures
            v@ == self@.lines,
    {
        &self.lines
    }

    /// The stored circles, oldest first.
    pub fn circles(&self) -> (v: &Vec<PixelCircle>)
        ensures
            v@ == self@.circles,
    {
        &self.circles
    }
}

} // verus!
