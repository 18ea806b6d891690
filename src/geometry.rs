//! Resizing a canvas node by one of its four corner handles.
//!
//! Lengths are integers in a unit that the caller picks (pixels, or a finer
//! fixed-point unit). A node's frame holds its width and height and its
//! offsets from the left and bottom of its parent.

use vstd::prelude::*;

verus! {

/// A length of a layout frame: a fixed number of units, or one given some
/// other way (a percentage, automatic), which resizing leaves as it is.
#[derive(Clone, Copy, Debug, PartialEq, Eq, Structural)]
pub enum Length {
    Px(i64),
    Relative,
}

/// The corner handle that a resize is dragged by.
#[derive(Clone, Copy, Debug, PartialEq, Eq, Structural)]
pub enum ResizeMarker {
    TopLeft,
    TopRight,
    BottomLeft,
    BottomRight,
}

/// Size and position of a node inside its parent.
#[derive(Clone, Copy, Debug, PartialEq, Eq, Structural)]
pub struct NodeFrame {
    pub width: Length,
    pub height: Length,
    pub left: Length,
    pub bottom: Length,
}

impl ResizeMarker {
    /// Whether the handle is on the left side of the node.
    pub open spec fn on_left(self) -> bool {
        self is TopLeft || self is BottomLeft
    }

    /// Whether the handle is on the top side of the node.
    pub open spec fn on_top(self) -> bool {
        self is TopLeft || self is TopRight
    }
}

/// `l` moved by `d`, where it is a fixed length.
pub open spec fn shifted(l: Length, d: int) -> Length {
    match l {
        Length::Px(v) => Length::Px((v + d) as i64),
        Length::Relative => Length::Relative,
    }
}

/// Whether moving `l` by `d` stays within the range of `i64`.
pub open spec fn shift_fits(l: Length, d: int) -> bool {
    match l {
        Length::Px(v) => i64::MIN <= v + d <= i64::MAX,
        Length::Relative => true,
    }
}

// How much each field of the frame moves when the handle `m` is dragged by
// `(dx, dy)` (screen coordinates: `dy` grows downwards). A handle on the left
// moves the left edge and shrinks the width by `dx`; one on the right grows
// the width. A handle on the top shrinks the height by `dy`; one on the bottom
// grows the height and lowers the bottom edge.

/// The change of width.
pub open spec fn width_change(m: ResizeMarker, dx: int) -> int {
    if m.on_left() { -dx } else { dx }
}

/// The change of height.
pub open spec fn height_change(m: ResizeMarker, dy: int) -> int {
    if m.on_top() { -dy } else { dy }
}

/// The change of the offset from the parent's left side.
pub open spec fn left_change(m: ResizeMarker, dx: int) -> int {
    if m.on_left() { dx } else { 0 }
}

/// The change of the offset from the parent's bottom side.
pub open spec fn bottom_change(m: ResizeMarker, dy: int) -> int {
    if m.on_top() { 0 } else { -dy }
}

/// The frame after dragging handle `m` by `(dx, dy)`.
pub open spec fn resized(f: NodeFrame, m: ResizeMarker, dx: int, dy: int) -> NodeFrame {
    NodeFrame {
        width: shifted(f.width, width_change(m, dx)),
        height: shifted(f.height, height_change(m, dy)),
        left: shifted(f.left, left_change(m, dx)),
        bottom: shifted(f.bottom, bottom_change(m, dy)),
    }
}

/// Whether every length that the resize changes stays within `i64`.
pub open spec fn resize_fits(f: NodeFrame, m: ResizeMarker, dx: int, dy: int) -> bool {
    &&& shift_fits(f.width, width_change(m, dx))
    &&& shift_fits(f.height, height_change(m, dy))
    &&& shift_fits(f.left, left_change(m, dx))
    &&& shift_fits(f.bottom, bottom_change(m, dy))
}

/// `l` moved by `d`, or `None` where that leaves `i64`.
fn grow(l: Length, d: i64) -> (r: Option<Length>)
    ensures
        r is Some <==> shift_fits(l, d as int),
        r matches Some(v) ==> v == shifted(l, d as int),
{
    match l {
        Length::Px(v) => match v.checked_add(d) {
            Some(w) => Some(Length::Px(w)),
            None => None,
        },
        Length::Relative => Some(Length::Relative),
    }
}

/// `l` moved by `-d`, or `None` where that leaves `i64`.
fn shrink(l: Length, d: i64) -> (r: Option<Length>)
    ensures
        r is Some <==> shift_fits(l, -d),
        r matches Some(v) ==> v == shifted(l, -d),
{
    match l {
        Length::Px(v) => match v.checked_sub(d) {
            Some(w) => Some(Length::Px(w)),
            None => None,
        },
        Length::Relative => Some(Length::Relative),
    }
}

/// Applies to `frame` one drag of the handle `marker` by `(dx, dy)`.
/// Where a changed length would leave the range of `i64`, the frame is kept
/// as it was and `false` comes back.
pub fn resize_entity_end(frame: &mut NodeFrame, marker: ResizeMarker, dx: i64, dy: i64) -> (ok: bool)
    ensures
        ok == resize_fits(*old(frame), marker, dx as int, dy as int),
        ok ==> *final(frame) == resized(*old(frame), marker, dx as int, dy as int),
        !ok ==> *final(frame) == *old(frame),
{
    let on_left = matches!(marker, ResizeMarker::TopLeft | ResizeMarker::BottomLeft);
    let on_top = matches!(marker, ResizeMarker::TopLeft | ResizeMarker::TopRight);
    let width = if on_left { shrink(frame.width, dx) } else { grow(frame.width, dx) };
    let height = if on_top { shrink(frame.height, dy) } else { grow(frame.height, dy) };
    let left = if on_left { grow(frame.left, dx) } else { Some(frame.left) };
    let bottom = if on_top { Some(frame.bottom) } else { shrink(frame.bottom, dy) };
    match (width, height, left, bottom) {
        (Some(w), Some(h), Some(l), Some(b)) => {
            *frame = NodeFrame { width: w, height: h, left: l, bottom: b };
            true
        },
        _ => false,
    }
}

/// The pointer's state over a resize handle.
#[derive(Clone, Copy, Debug, PartialEq, Eq, Structural)]
pub enum Interaction {
    Clicked,
    Hovered,
    Idle,
}

/// The cursor shown over a resize handle.
#[derive(Clone, Copy, Debug, PartialEq, Eq, Structural)]
pub enum CursorShape {
    Default,
    /// Diagonal arrows from north-west to south-east.
    NwseResize,
    /// Diagonal arrows from north-east to south-west.
    NeswResize,
}

/// What a change of interaction with a resize handle leads to.
#[derive(Clone, Copy, Debug, PartialEq, Eq, Structural)]
pub enum ResizeStart {
    /// A press: the node starts following the pointer by this handle.
    Begin(ResizeMarker),
    /// The cursor takes this shape.
    Cursor(CursorShape),
}

/// The diagonal cursor of a handle: the one of its own diagonal.
pub open spec fn handle_cursor(m: ResizeMarker) -> CursorShape {
    if m.on_left() == m.on_top() {
        CursorShape::NwseResize
    } else {
        CursorShape::NeswResize
    }
}

/// Decides what an interaction with the handle `marker` does: a press starts a
/// resize by it, hovering shows the diagonal cursor of its corner, and leaving
/// it restores the default cursor.
pub fn resize_entity_start(interaction: Interaction, marker: ResizeMarker) -> (r: ResizeStart)
    ensures
        r == (match interaction {
            Interaction::Clicked => ResizeStart::Begin(marker),
            Interaction::Hovered => ResizeStart::Cursor(handle_cursor(marker)),
            Interaction::Idle => ResizeStart::Cursor(CursorShape::Default),
        }),
{
    match interaction {
        Interaction::Clicked => ResizeStart::Begin(marker),
        Interaction::Hovered => match marker {
            ResizeMarker::TopLeft => ResizeStart::Cursor(CursorShape::NwseResize),
            ResizeMarker::TopRight => ResizeStart::Cursor(CursorShape::NeswResize),
            ResizeMarker::BottomLeft => ResizeStart::Cursor(CursorShape::NeswResize),
            ResizeMarker::BottomRight => ResizeStart::Cursor(CursorShape::NwseResize),
        },
        Interaction::Idle => ResizeStart::Cursor(CursorShape::Default),
    }
}

/// The fixed value of a length, or zero for a relative one.
pub open spec fn px(l: Length) -> int {
    match l {
        Length::Px(v) => v as int,
        Length::Relative => 0,
    }
}

/// Whether every length of the frame is fixed.
pub open spec fn all_px(f: NodeFrame) -> bool {
    f.width is Px && f.height is Px && f.left is Px && f.bottom is Px
}

/// Dragging a corner handle keeps the opposite corner where it was: a handle
/// on the left keeps the right edge (left plus width), one on the right keeps
/// the left edge; a handle on the top keeps the bottom edge, one on the bottom
/// keeps the top edge (bottom plus height).
pub proof fn lemma_opposite_corner_fixed(f: NodeFrame, m: ResizeMarker, dx: int, dy: int)
    requires
        all_px(f),
        resize_fits(f, m, dx, dy),
    ensures
        all_px(resized(f, m, dx, dy)),
        ({
            let g = resized(f, m, dx, dy);
            &&& m.on_left() ==> px(g.left) + px(g.width) == px(f.left) + px(f.width)
            &&& !m.on_left() ==> px(g.left) == px(f.left)
            &&& m.on_top() ==> px(g.bottom) == px(f.bottom)
            &&& !m.on_top() ==> px(g.bottom) + px(g.height) == px(f.bottom) + px(f.height)
        }),
{
}

/// Two drags of the same handle, by `(dx1, dy1)` and then `(dx2, dy2)`, give the
/// frame that one drag by their sum gives.
pub proof fn lemma_resize_composes(
    f: NodeFrame,
    m: ResizeMarker,
    dx1: int,
    dy1: int,
    dx2: int,
    dy2: int,
)
    requires
        resize_fits(f, m, dx1, dy1),
        resize_fits(resized(f, m, dx1, dy1), m, dx2, dy2),
    ensures
        resize_fits(f, m, dx1 + dx2, dy1 + dy2),
        resized(resized(f, m, dx1, dy1), m, dx2, dy2) == resized(f, m, dx1 + dx2, dy1 + dy2),
{
}

/// Dragging a handle by `(dx, dy)` and back by `(-dx, -dy)` restores the frame.
pub proof fn lemma_resize_undo(f: NodeFrame, m: ResizeMarker, dx: int, dy: int)
    requires
        resize_fits(f, m, dx, dy),
    ensures
        resize_fits(resized(f, m, dx, dy), m, -dx, -dy),
        resized(resized(f, m, dx, dy), m, -dx, -dy) == f,
{
}

} // verus!
