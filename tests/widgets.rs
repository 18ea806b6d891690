use velo_ui::keyboard::{
    clears_placeholder, ends_editing, first_active, shortcut, Shortcut, ShortcutKeys,
};
use velo_ui::widgets::{
    arrow_look, front_back_look, pos_to_style, style_to_pos, text_manipulation_look,
    text_pos_image, tooltip_offset, AlignItems, TextManipulation,
    ArrowType, ButtonAction, ButtonTypes, JustifyContent, ModalAction, TextPos,
    TooltipPosition,
};

#[test]
fn text_positions_map_to_layouts() {
    assert_eq!(
        pos_to_style(TextPos::TopLeft),
        (JustifyContent::FlexStart, AlignItems::FlexStart)
    );
    assert_eq!(
        pos_to_style(TextPos::Center),
        (JustifyContent::Center, AlignItems::Center)
    );
    for p in [TextPos::TopLeft, TextPos::Center] {
        assert_eq!(style_to_pos(pos_to_style(p)), p);
    }
}

#[test]
fn front_and_back_buttons() {
    let (image, text) = front_back_look(ButtonAction { button_type: ButtonTypes::Front });
    assert_eq!((image.as_str(), text.as_str()), ("front.png", "Move to front"));
    let (image, text) = front_back_look(ButtonAction { button_type: ButtonTypes::Back });
    assert_eq!((image.as_str(), text.as_str()), ("back.png", "Move to back"));
}

#[test]
fn arrow_buttons() {
    let cases = [
        (ArrowType::Line, "line.png", "Enable line mode"),
        (ArrowType::Arrow, "arrow.png", "Enable single arrow mode"),
        (ArrowType::DoubleArrow, "double-arrow.png", "Enable double arrow mode"),
        (ArrowType::ParallelLine, "parallel-line.png", "Enable parallel line mode"),
        (ArrowType::ParallelArrow, "parallel-arrow.png", "Enable parallel arrow mode"),
        (
            ArrowType::ParallelDoubleArrow,
            "parallel-double-arrow.png",
            "Enable parallel double arrow mode",
        ),
    ];
    for (t, image, text) in cases {
        let (i, x) = arrow_look(t);
        assert_eq!((i.as_str(), x.as_str()), (image, text));
    }
}

#[test]
fn modal_labels() {
    assert_eq!(ModalAction::DeleteDocument.label(), "delete document");
    assert_eq!(ModalAction::DeleteTab.label(), "delete tab");
    assert_eq!(ModalAction::LoadFromFile.label(), "Load from file:");
    assert_eq!(ModalAction::LoadFromUrl.label(), "Load from URL:");
    assert_eq!(ModalAction::SaveToFile.label(), "Save to file:");
}

#[test]
fn tooltip_offsets() {
    assert_eq!(tooltip_offset(TooltipPosition::Bottom), (30, 40));
    assert_eq!(tooltip_offset(TooltipPosition::Top), (30, -40));
}

fn keys(command: bool, shift: bool, v: bool, s: bool, l: bool) -> ShortcutKeys {
    ShortcutKeys { command, shift, v_pressed: v, s_pressed: s, l_pressed: l }
}

#[test]
fn shortcuts() {
    assert_eq!(shortcut(keys(true, false, true, false, false)), Shortcut::PasteImage);
    assert_eq!(shortcut(keys(true, true, false, true, false)), Shortcut::SaveDocument);
    assert_eq!(shortcut(keys(true, false, false, true, false)), Shortcut::SaveTab);
    assert_eq!(shortcut(keys(true, false, false, false, true)), Shortcut::LoadTab);
    assert_eq!(shortcut(keys(false, true, true, true, true)), Shortcut::Typing);
    assert_eq!(shortcut(keys(true, true, false, false, false)), Shortcut::Typing);
    // paste wins over saving when both letters went down
    assert_eq!(shortcut(keys(true, true, true, true, true)), Shortcut::PasteImage);
}

#[test]
fn first_active_tab() {
    assert_eq!(first_active(&vec![false, true, true]), Some(1));
    assert_eq!(first_active(&vec![false, false]), None);
    assert_eq!(first_active(&vec![]), None);
    assert_eq!(first_active(&vec![true]), Some(0));
}

#[test]
fn editing_ends_on_escape_or_return() {
    assert!(ends_editing(Some(7), None, 7, true));
    assert!(ends_editing(Some(1), Some(7), 7, true));
    assert!(!ends_editing(Some(7), None, 7, false));
    assert!(!ends_editing(Some(1), Some(2), 7, true));
    assert!(!ends_editing(None, None, 7, true));
}

#[test]
fn text_position_images() {
    assert_eq!(text_pos_image(TextPos::Center), "text-center.png");
    assert_eq!(text_pos_image(TextPos::TopLeft), "text-left-top.png");
}

#[test]
fn clipboard_buttons() {
    let cases = [
        (TextManipulation::Cut, "cut-text.png", "Cut text"),
        (TextManipulation::Paste, "paste-text.png", "Paste text from clipboard"),
        (TextManipulation::Copy, "copy-text.png", "Copy text to clipboard"),
        (TextManipulation::OpenAllLinks, "open-all-links.png", "Open all links in text"),
    ];
    for (a, image, text) in cases {
        let (i, x) = text_manipulation_look(a);
        assert_eq!((i.as_str(), x.as_str()), (image, text));
    }
}

#[test]
fn placeholder_cleared_only_for_edited_document() {
    assert!(clears_placeholder(true, &"Untitled".to_string()));
    assert!(!clears_placeholder(false, &"Untitled".to_string()));
    assert!(!clears_placeholder(true, &"Untitled 2".to_string()));
}
