//! The decision tables that the interface's widgets are built from: where a
//! node's text sits, which picture and tooltip a tool button shows, and what a
//! confirmation dialog says.

use vstd::prelude::*;

verus! {

/// Where the text of a node sits inside it.
#[derive(Clone, Copy, Debug, PartialEq, Eq, Structural)]
pub enum TextPos {
    TopLeft,
    Center,
}

/// How a layout places its children along the main axis.
#[derive(Clone, Copy, Debug, PartialEq, Eq, Structural)]
pub enum JustifyContent {
    Start,
    End,
    FlexStart,
    FlexEnd,
    Center,
    SpaceBetween,
    SpaceAround,
    SpaceEvenly,
}

/// How a layout places its children along the cross axis.
#[derive(Clone, Copy, Debug, PartialEq, Eq, Structural)]
pub enum AlignItems {
    Start,
    End,
    FlexStart,
    FlexEnd,
    Center,
    Baseline,
    Stretch,
}

/// The layout that places a node's text: at the start of both axes for the
/// top-left corner, centred on both for the centre.
pub open spec fn text_style(p: TextPos) -> (JustifyContent, AlignItems) {
    match p {
        TextPos::TopLeft => (JustifyContent::FlexStart, AlignItems::FlexStart),
        TextPos::Center => (JustifyContent::Center, AlignItems::Center),
    }
}

/// Whether a layout is one that places a node's text.
pub open spec fn is_text_style(style: (JustifyContent, AlignItems)) -> bool {
    style == text_style(TextPos::TopLeft) || style == text_style(TextPos::Center)
}

pub fn pos_to_style(text_pos: TextPos) -> (r: (JustifyContent, AlignItems))
    ensures
        r == text_style(text_pos),
{
    match text_pos {
        TextPos::TopLeft => (JustifyContent::FlexStart, AlignItems::FlexStart),
        TextPos::Center => (JustifyContent::Center, AlignItems::Center),
    }
}

/// The text position that a layout places text at; only the two layouts that
/// `pos_to_style` gives have one.
pub fn style_to_pos(style: (JustifyContent, AlignItems)) -> (r: TextPos)
    requires
        is_text_style(style),
    ensures
        text_style(r) == style,
{
    match style {
        (JustifyContent::FlexStart, AlignItems::FlexStart) => TextPos::TopLeft,
        _ => TextPos::Center,
    }
}

/// Each text position has its own layout, and reading the position back from
/// that layout gives it again.
pub proof fn lemma_text_style_round_trip(p: TextPos, q: TextPos)
    ensures
        is_text_style(text_style(p)),
        text_style(p) == text_style(q) ==> p == q,
{
}

/// The picture of the button that picks a text position.
pub fn text_pos_image(text_pos: TextPos) -> (r: String)
    ensures
        text_pos == TextPos::Center ==> r@ == "text-center.png"@,
        text_pos == TextPos::TopLeft ==> r@ == "text-left-top.png"@,
{
    match text_pos {
        TextPos::Center => "text-center.png".to_owned(),
        TextPos::TopLeft => "text-left-top.png".to_owned(),
    }
}

/// The clipboard actions on a node's text.
#[derive(Clone, Copy, Debug, PartialEq, Eq, Structural)]
pub enum TextManipulation {
    Cut,
    Paste,
    Copy,
    OpenAllLinks,
}

/// The picture and the tooltip of the button of a clipboard action.
pub fn text_manipulation_look(action: TextManipulation) -> (r: (String, String))
    ensures
        action == TextManipulation::Cut ==> r.0@ == "cut-text.png"@ && r.1@ == "Cut text"@,
        action == TextManipulation::Paste ==> r.0@ == "paste-text.png"@ && r.1@
            == "Paste text from clipboard"@,
        action == TextManipulation::Copy ==> r.0@ == "copy-text.png"@ && r.1@
            == "Copy text to clipboard"@,
        action == TextManipulation::OpenAllLinks ==> r.0@ == "open-all-links.png"@ && r.1@
            == "Open all links in text"@,
{
    match action {
        TextManipulation::Cut => ("cut-text.png".to_owned(), "Cut text".to_owned()),
        TextManipulation::Paste => (
            "paste-text.png".to_owned(),
            "Paste text from clipboard".to_owned(),
        ),
        TextManipulation::Copy => (
            "copy-text.png".to_owned(),
            "Copy text to clipboard".to_owned(),
        ),
        TextManipulation::OpenAllLinks => (
            "open-all-links.png".to_owned(),
            "Open all links in text".to_owned(),
        ),
    }
}

/// The actions of the node toolbar.
#[derive(Clone, Copy, Debug, PartialEq, Eq, Structural)]
pub enum ButtonTypes {
    AddRec,
    AddCircle,
    Del,
    Front,
    Back,
}

/// A toolbar button with its action.
#[derive(Clone, Copy, Debug, PartialEq, Eq, Structural)]
pub struct ButtonAction {
    pub button_type: ButtonTypes,
}

/// The picture and the tooltip of the button that moves a node to the front
/// or, for every other action, to the back.
pub fn front_back_look(button_action: ButtonAction) -> (r: (String, String))
    ensures
        button_action.button_type == ButtonTypes::Front ==> r.0@ == "front.png"@ && r.1@
            == "Move to front"@,
        button_action.button_type != ButtonTypes::Front ==> r.0@ == "back.png"@ && r.1@
            == "Move to back"@,
{
    if button_action.button_type == ButtonTypes::Front {
        ("front.png".to_owned(), "Move to front".to_owned())
    } else {
        ("back.png".to_owned(), "Move to back".to_owned())
    }
}

/// The kinds of connector drawn between two nodes.
#[derive(Clone, Copy, Debug, PartialEq, Eq, Structural)]
pub enum ArrowType {
    Line,
    Arrow,
    DoubleArrow,
    ParallelLine,
    ParallelArrow,
    ParallelDoubleArrow,
}

/// The picture and the tooltip of the button that picks a connector kind.
pub fn arrow_look(arrow_type: ArrowType) -> (r: (String, String))
    ensures
        arrow_type == ArrowType::Line ==> r.0@ == "line.png"@ && r.1@ == "Enable line mode"@,
        arrow_type == ArrowType::Arrow ==> r.0@ == "arrow.png"@ && r.1@
            == "Enable single arrow mode"@,
        arrow_type == ArrowType::DoubleArrow ==> r.0@ == "double-arrow.png"@ && r.1@
            == "Enable double arrow mode"@,
        arrow_type == ArrowType::ParallelLine ==> r.0@ == "parallel-line.png"@ && r.1@
            == "Enable parallel line mode"@,
        arrow_type == ArrowType::ParallelArrow ==> r.0@ == "parallel-arrow.png"@ && r.1@
            == "Enable parallel arrow mode"@,
        arrow_type == ArrowType::ParallelDoubleArrow ==> r.0@ == "parallel-double-arrow.png"@
            && r.1@ == "Enable parallel double arrow mode"@,
{
    match arrow_type {
        ArrowType::Line => ("line.png".to_owned(), "Enable line mode".to_owned()),
        ArrowType::Arrow => ("arrow.png".to_owned(), "Enable single arrow mode".to_owned()),
        ArrowType::DoubleArrow => (
            "double-arrow.png".to_owned(),
            "Enable double arrow mode".to_owned(),
        ),
        ArrowType::ParallelLine => (
            "parallel-line.png".to_owned(),
            "Enable parallel line mode".to_owned(),
        ),
        ArrowType::ParallelArrow => (
            "parallel-arrow.png".to_owned(),
            "Enable parallel arrow mode".to_owned(),
        ),
        ArrowType::ParallelDoubleArrow => (
            "parallel-double-arrow.png".to_owned(),
            "Enable parallel double arrow mode".to_owned(),
        ),
    }
}

/// What a confirmation dialog asks for.
#[derive(Clone, Copy, Debug, PartialEq, Eq, Structural)]
pub enum ModalAction {
    SaveToFile,
    LoadFromFile,
    LoadFromUrl,
    DeleteDocument,
    DeleteTab,
}

impl ModalAction {
    /// The words that a dialog shows for its action.
    pub open spec fn spec_label(self) -> Seq<char> {
        match self {
            ModalAction::DeleteDocument => "delete document"@,
            ModalAction::DeleteTab => "delete tab"@,
            ModalAction::LoadFromFile => "Load from file:"@,
            ModalAction::LoadFromUrl => "Load from URL:"@,
            ModalAction::SaveToFile => "Save to file:"@,
        }
    }

    pub fn label(&self) -> (r: String)
        ensures
            r@ == self.spec_label(),
    {
        match self {
            ModalAction::DeleteDocument => "delete document".to_owned(),
            ModalAction::DeleteTab => "delete tab".to_owned(),
            ModalAction::LoadFromFile => "Load from file:".to_owned(),
            ModalAction::LoadFromUrl => "Load from URL:".to_owned(),
            ModalAction::SaveToFile => "Save to file:".to_owned(),
        }
    }
}

/// Whether a tooltip opens above or below its button.
#[derive(Clone, Copy, Debug, PartialEq, Eq, Structural)]
pub enum TooltipPosition {
    Top,
    Bottom,
}

/// The offset of a tooltip from its button, in pixels: `(left, top)`. It
/// stands to the right by the same amount either way, and above or below by
/// the same amount.
pub fn tooltip_offset(tooltip_position: TooltipPosition) -> (r: (i64, i64))
    ensures
        r.0 == 30,
        tooltip_position == TooltipPosition::Bottom ==> r.1 == 40,
        tooltip_position == TooltipPosition::Top ==> r.1 == -40,
{
    match tooltip_position {
        TooltipPosition::Bottom => (30, 40),
        TooltipPosition::Top => (30, -40),
    }
}

} // verus!
