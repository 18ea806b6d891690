//! Editing a label from keyboard input: typed characters, backspace held down,
//! and the blinking cursor.

use vstd::prelude::*;

verus! {

/// Relies on `String::push`, which appends one character.
pub assume_specification[ String::push ](s: &mut String, ch: char)
    ensures
        final(s)@ == old(s)@.push(ch),
;

/// Relies on `String::pop`, which removes and returns the last character, or
/// returns `None` on an empty string.
pub assume_specification[ String::pop ](s: &mut String) -> (r: Option<char>)
    ensures
        old(s)@.len() == 0 ==> r is None && final(s)@ == old(s)@,
        old(s)@.len() > 0 ==> r == Some(old(s)@.last()) && final(s)@ == old(s)@.drop_last(),
;

/// `s` without its last character, if it has one.
pub open spec fn without_last(s: Seq<char>) -> Seq<char> {
    if s.len() == 0 {
        s
    } else {
        s.drop_last()
    }
}

/// `s` after the characters `chars` arrive: appended, or, while backspace is
/// held, each one deleting the last remaining character.
pub open spec fn typed_into(s: Seq<char>, deleting: bool, chars: Seq<char>) -> Seq<char> {
    if !deleting {
        s + chars
    } else if chars.len() <= s.len() {
        s.subrange(0, s.len() - chars.len())
    } else {
        Seq::empty()
    }
}

/// The label and the delete mode after one frame of input: pressing backspace
/// deletes the last character and turns the delete mode on, releasing it turns
/// the mode off, and otherwise the characters received that frame are typed.
pub open spec fn text_after(
    s: Seq<char>,
    deleting: bool,
    back_pressed: bool,
    back_released: bool,
    chars: Seq<char>,
) -> (Seq<char>, bool) {
    if back_pressed {
        (without_last(s), true)
    } else if back_released {
        (s, false)
    } else {
        (typed_into(s, deleting, chars), deleting)
    }
}

fn type_chars(text: &mut String, deleting: bool, typed: &Vec<char>)
    ensures
        final(text)@ == typed_into(old(text)@, deleting, typed@),
{
    let ghost start = text@;
    let mut i: usize = 0;
    while i < typed.len()
        invariant
            0 <= i <= typed.len(),
            text@ == typed_into(start, deleting, typed@.subrange(0, i as int)),
        decreases typed.len() - i,
    {
        let ghost before = text@;
        if deleting {
            text.pop();
        } else {
            text.push(typed[i]);
        }
        proof {
            let done = typed@.subrange(0, i as int + 1);
            if deleting {
                if i + 1 <= start.len() {
                    assert(text@ =~= start.subrange(0, start.len() - done.len()));
                } else {
                    assert(text@ =~= Seq::<char>::empty());
                }
            } else {
                assert(done =~= typed@.subrange(0, i as int).push(typed@[i as int]));
                assert(text@ =~= start + done);
            }
        }
        i = i + 1;
    }
    assert(typed@.subrange(0, i as int) =~= typed@);
}

/// One frame of label editing: see [`text_after`].
pub fn get_text_val(
    text: String,
    deleting: bool,
    back_pressed: bool,
    back_released: bool,
    typed: &Vec<char>,
) -> (r: (String, bool))
    ensures
        (r.0@, r.1) == text_after(text@, deleting, back_pressed, back_released, typed@),
{
    let mut text = text;
    if back_pressed {
        text.pop();
        (text, true)
    } else if back_released {
        (text, false)
    } else {
        type_chars(&mut text, deleting, typed);
        (text, deleting)
    }
}

/// Plain typing into a text: backspace deletes the last character, and
/// otherwise the characters received are appended.
pub fn update_text_on_typing(text: &mut String, back_pressed: bool, typed: &Vec<char>)
    ensures
        final(text)@ == (if back_pressed {
            without_last(old(text)@)
        } else {
            old(text)@ + typed@
        }),
{
    if back_pressed {
        text.pop();
    } else {
        type_chars(text, false, typed);
    }
}

/// The next label text while a label is edited: the return key starts a new
/// line and leaves the delete mode; any other input goes as [`text_after`] says.
pub fn edit_label(
    current: String,
    deleting: bool,
    return_pressed: bool,
    back_pressed: bool,
    back_released: bool,
    typed: &Vec<char>,
) -> (r: (String, bool))
    ensures
        return_pressed ==> r.0@ == current@.push('\n') && !r.1,
        !return_pressed ==> (r.0@, r.1) == text_after(
            current@,
            deleting,
            back_pressed,
            back_released,
            typed@,
        ),
{
    if return_pressed {
        let mut text = current;
        text.push('\n');
        (text, false)
    } else {
        get_text_val(current, deleting, back_pressed, back_released, typed)
    }
}

/// The joined text of a run of strings.
pub open spec fn joined(parts: Seq<String>) -> Seq<char>
    decreases parts.len(),
{
    if parts.len() == 0 {
        seq![]
    } else {
        joined(parts.drop_last()) + parts.last()@
    }
}

/// The text of a label's sections, without the cursor section that ends them.
pub fn join_sections(values: &Vec<String>) -> (r: String)
    ensures
        values.len() == 0 ==> r@ == Seq::<char>::empty(),
        values.len() > 0 ==> r@ == joined(values@.drop_last()),
{
    let mut r = String::new();
    if values.len() == 0 {
        return r;
    }
    let n = values.len() - 1;
    let mut i: usize = 0;
    while i < n
        invariant
            n == values.len() - 1,
            0 <= i <= n,
            r@ == joined(values@.subrange(0, i as int)),
        decreases n - i,
    {
        r.append(values[i].as_str());
        assert(values@.subrange(0, i as int + 1).drop_last() =~= values@.subrange(0, i as int));
        i = i + 1;
    }
    assert(values@.subrange(0, n as int) =~= values@.drop_last());
    r
}

/// The cursor section after a blink: a shown cursor (`|`) is hidden (a space),
/// and anything else becomes a shown cursor.
pub open spec fn blinked(last: Seq<char>) -> Seq<char> {
    if last == seq!['|'] {
        seq![' ']
    } else {
        seq!['|']
    }
}

/// The cursor section after a blink: see [`blinked`].
pub fn blink_cursor(last: &str) -> (r: String)
    ensures
        r@ == blinked(last@),
{
    proof {
        reveal_strlit("|");
        reveal_strlit(" ");
    }
    let shown = last.unicode_len() == 1 && last.get_char(0) == '|';
    if shown {
        assert(last@ =~= seq!['|']);
        let r = " ".to_owned();
        assert(r@ =~= seq![' ']);
        r
    } else {
        assert(last@ != seq!['|']);
        let r = "|".to_owned();
        assert(r@ =~= seq!['|']);
        r
    }
}

/// Blinking twice brings a cursor section back to what it was.
pub proof fn lemma_blink_twice(last: Seq<char>)
    requires
        last == seq!['|'] || last == seq![' '],
    ensures
        blinked(blinked(last)) == last,
{
    assert(seq![' '] != seq!['|']) by {
        assert(seq![' '][0] != seq!['|'][0]);
    }
}

/// Typing some characters and then receiving as many again while backspace
/// is held gives the label back.
pub proof fn lemma_type_then_delete(s: Seq<char>, chars: Seq<char>)
    ensures
        typed_into(typed_into(s, false, chars), true, chars) == s,
{
    assert((s + chars).subrange(0, s.len() as int) =~= s);
}

} // verus!
