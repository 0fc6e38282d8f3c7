use vstd::prelude::*;
use crate::job::strings_view;

verus! {

/// Words joined by single spaces.
pub open spec fn join_words(v: Seq<Seq<char>>) -> Seq<char>
    decreases v.len(),
{
    if v.len() == 0 {
        Seq::empty()
    } else if v.len() == 1 {
        v[0]
    } else {
        join_words(v.drop_last()) + " "@ + v.last()
    }
}

/// Joins the words of `v` with single spaces.
pub fn join(v: &Vec<String>) -> (r: String)
    ensures
        r@ == join_words(strings_view(v@)),
{
    let ghost w = strings_view(v@);
    if v.len() == 0 {
        return String::new();
    }
    let mut r = v[0].clone();
    let mut i: usize = 1;
    proof {
        assert(w.take(1).drop_last().len() == 0);
    }
    while i < v.len()
        invariant
            w == strings_view(v@),
            1 <= i <= v.len(),
            r@ == join_words(w.take(i as int)),
        decreases v.len() - i,
    {
        r.append(" ");
        r.append(v[i].as_str());
        proof {
            assert(w.take(i + 1).drop_last() =~= w.take(i as int));
        }
        i = i + 1;
    }
    proof {
        assert(w.take(v@.len() as int) =~= w);
    }
    r
}

/// The text of a boolean, as Rust prints it.
pub open spec fn bool_text(b: bool) -> Seq<char> {
    if b {
        "true"@
    } else {
        "false"@
    }
}

pub fn bool_string(b: bool) -> (r: String)
    ensures
        r@ == bool_text(b),
{
    if b {
        String::from_str("true")
    } else {
        String::from_str("false")
    }
}

/// What `console::truncate_str(s, width, tail)` returns: `s` cut to `width`
/// display columns, ending with `tail`, with its colour codes kept.
pub uninterp spec fn truncated_text(s: Seq<char>, width: nat, tail: Seq<char>) -> Seq<char>;

/// Relies on console::truncate_str, which cuts a text to a display width; its
/// result depends on its arguments alone.
#[verifier::external_body]
fn console_truncate(s: &str, width: usize, tail: &str) -> (r: String)
    ensures
        r@ == truncated_text(s@, width as nat, tail@),
{
    console::truncate_str(s, width, tail).into_owned()
}

/// Longest text, in characters, that is sent to the chat as it is.
pub const MESSAGE_LIMIT: usize = 1000;

/// A text for the chat: longer ones are cut to the limit and end in `...`.
pub fn truncate(text: &str) -> (r: String)
    ensures
        r@ == if text@.len() > MESSAGE_LIMIT {
            truncated_text(text@, MESSAGE_LIMIT as nat, "..."@)
        } else {
            text@
        },
{
    if text.unicode_len() > MESSAGE_LIMIT {
        console_truncate(text, MESSAGE_LIMIT, "...")
    } else {
        String::from_str(text)
    }
}

} // verus!
