//! Refused requests and the text they are answered with.

use vstd::prelude::*;

use crate::text::push_text;

verus! {

/// Why a request was refused, in the words the operator sees.
#[derive(Debug, PartialEq, Eq)]
pub struct Refusal {
    pub message: String,
}

impl View for Refusal {
    type V = Seq<char>;

    open spec fn view(&self) -> Seq<char> {
        self.message@
    }
}

/// A refusal with a fixed text.
pub fn refuse(text: &str) -> (r: Refusal)
    ensures
        r@ == text@,
{
    Refusal { message: text.to_owned() }
}

/// A refusal that ends with its subject.
pub fn refuse_naming(before: &str, subject: &str) -> (r: Refusal)
    ensures
        r@ == before@ + subject@,
{
    let mut message = before.to_owned();
    push_text(&mut message, subject);
    Refusal { message }
}

/// A refusal that quotes its subject between two fixed texts.
pub fn refuse_quoting(before: &str, subject: &str, after: &str) -> (r: Refusal)
    ensures
        r@ == before@ + subject@ + after@,
{
    let mut message = before.to_owned();
    push_text(&mut message, subject);
    push_text(&mut message, after);
    Refusal { message }
}

/// What a fallible check answered, seen as mathematical values: nothing, or the
/// text of the refusal.
pub open spec fn refusal_of<T>(r: Result<T, Refusal>) -> Option<Seq<char>> {
    match r {
        Ok(_) => None,
        Err(e) => Some(e@),
    }
}

/// The view of an optional borrowed text.
pub open spec fn text_view(s: Option<&str>) -> Option<Seq<char>> {
    match s {
        Some(s) => Some(s@),
        None => None,
    }
}

/// The view of an optional owned text.
pub open spec fn string_view(s: Option<String>) -> Option<Seq<char>> {
    match s {
        Some(s) => Some(s@),
        None => None,
    }
}

} // verus!
