//! What the chat loop reads from and shows to the person at the terminal.
use vstd::prelude::*;
use crate::chat::{ChatContent, Part, PartView, Role, Turn};

verus! {

/// A line as read, without its line ending (`\n`, `\r\n`).
pub open spec fn line_text(line: Seq<char>) -> Seq<char> {
    let s = if line.len() > 0 && line.last() == '\n' { line.drop_last() } else { line };
    if s.len() > 0 && s.last() == '\r' { s.drop_last() } else { s }
}

/// A line as read, without its line ending.
pub fn strip_line_ending(line: &str) -> (r: String)
    ensures
        r@ == line_text(line@),
{
    let mut end = line.unicode_len();
    if end > 0 && line.get_char(end - 1) == '\n' {
        end = end - 1;
    }
    if end > 0 && line.get_char(end - 1) == '\r' {
        end = end - 1;
    }
    let r = line.substring_char(0, end).to_string();
    assert(r@ =~= line_text(line@));
    r
}

/// The user turn that carries `text`.
pub fn user_turn(text: String) -> (r: ChatContent)
    ensures
        r@ == (Turn { role: Role::USER, parts: seq![PartView::Text(text@)] }),
{
    let ghost t = text@;
    let r = ChatContent { role: Role::USER, parts: vec![Part::Text(text)] };
    assert(r@.parts =~= seq![PartView::Text(t)]);
    r
}

/// The text to show for a turn: that of its first part, or nothing when the
/// first part is not text.
pub open spec fn shown_text(t: Turn) -> Seq<char> {
    if t.parts.len() > 0 {
        match t.parts[0] {
            PartView::Text(s) => s,
            _ => Seq::empty(),
        }
    } else {
        Seq::empty()
    }
}

/// The text to show for the model's final turn.
pub fn reply_text(turn: &ChatContent) -> (r: String)
    ensures
        r@ == shown_text(turn@),
{
    if turn.parts.len() > 0 {
        match &turn.parts[0] {
            Part::Text(s) => s.clone(),
            _ => String::new(),
        }
    } else {
        String::new()
    }
}

} // verus!
