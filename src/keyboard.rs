//! Keyboard shortcuts of the editor.

use vstd::prelude::*;

verus! {

/// The keys that the shortcuts read in one frame: whether a command (system)
/// key and a shift key are held, and which letter keys went down this frame.
#[derive(Clone, Copy, Debug, PartialEq, Eq, Structural)]
pub struct ShortcutKeys {
    pub command: bool,
    pub shift: bool,
    pub v_pressed: bool,
    pub s_pressed: bool,
    pub l_pressed: bool,
}

/// What a frame of keyboard input asks for.
#[derive(Clone, Copy, Debug, PartialEq, Eq, Structural)]
pub enum Shortcut {
    /// Command+V: add a node holding the image on the clipboard.
    PasteImage,
    /// Command+Shift+S: save the whole document.
    SaveDocument,
    /// Command+S: save the active tab of the current document.
    SaveTab,
    /// Command+L: reload the active tab of the current document.
    LoadTab,
    /// No shortcut: the input goes to the label being edited, if any.
    Typing,
}

/// The shortcut of a frame; where several match, the first of paste, save
/// document, save tab and load tab wins.
pub open spec fn shortcut_of(k: ShortcutKeys) -> Shortcut {
    if k.command && k.v_pressed {
        Shortcut::PasteImage
    } else if k.command && k.shift && k.s_pressed {
        Shortcut::SaveDocument
    } else if k.command && k.s_pressed {
        Shortcut::SaveTab
    } else if k.command && k.l_pressed {
        Shortcut::LoadTab
    } else {
        Shortcut::Typing
    }
}

pub fn shortcut(keys: ShortcutKeys) -> (r: Shortcut)
    ensures
        r == shortcut_of(keys),
{
    if keys.command && keys.v_pressed {
        Shortcut::PasteImage
    } else if keys.command && keys.shift && keys.s_pressed {
        Shortcut::SaveDocument
    } else if keys.command && keys.s_pressed {
        Shortcut::SaveTab
    } else if keys.command && keys.l_pressed {
        Shortcut::LoadTab
    } else {
        Shortcut::Typing
    }
}

/// The position of the first active tab, given whether each tab is active.
pub fn first_active(active: &Vec<bool>) -> (r: Option<usize>)
    ensures
        r is None <==> forall|j: int| 0 <= j < active.len() ==> !active[j],
        r matches Some(i) ==> i < active.len() && active[i as int] && forall|j: int|
            0 <= j < i ==> !active[j],
{
    let mut i: usize = 0;
    while i < active.len()
        invariant
            0 <= i <= active.len(),
            forall|j: int| 0 <= j < i ==> !active[j],
        decreases active.len() - i,
    {
        if active[i] {
            return Some(i);
        }
        i = i + 1;
    }
    None
}

/// Whether an edit of the label `id` ends this frame: it is the tab or the
/// document being renamed, and escape or return went down.
pub fn ends_editing(
    tab_to_edit: Option<u128>,
    doc_to_edit: Option<u128>,
    id: u128,
    escape_or_return: bool,
) -> (r: bool)
    ensures
        r == ((tab_to_edit == Some(id) || doc_to_edit == Some(id)) && escape_or_return),
{
    let edited = match (tab_to_edit, doc_to_edit) {
        (Some(t), _) if t == id => true,
        (_, Some(d)) if d == id => true,
        _ => false,
    };
    edited && escape_or_return
}

/// Whether the first section of a document's label is cleared as its editing
/// starts: it is the document being renamed and still holds the placeholder
/// name "Untitled".
pub fn clears_placeholder(is_edited_doc: bool, first: &String) -> (r: bool)
    ensures
        r == (is_edited_doc && first@ == "Untitled"@),
{
    is_edited_doc && *first == "Untitled".to_owned()
}

} // verus!
