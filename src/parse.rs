use vstd::prelude::*;
use crate::job::strings_view;

verus! {

/// ASCII whitespace: space, tab, line feed, form feed and carriage return.
pub open spec fn is_ascii_ws(c: char) -> bool {
    c == ' ' || c == '\t' || c == '\n' || c == '\x0C' || c == '\r'
}

/// The words of `s[start..]`, scanning from `i`, where `s[start..i]` is the
/// word being read (empty when `start == i`).
pub open spec fn words_from(s: Seq<char>, start: int, i: int) -> Seq<Seq<char>>
    decreases s.len() - i,
{
    if i >= s.len() {
        if start < s.len() {
            seq![s.subrange(start, s.len() as int)]
        } else {
            Seq::empty()
        }
    } else if is_ascii_ws(s[i]) {
        (if start < i {
            seq![s.subrange(start, i)]
        } else {
            Seq::empty()
        }) + words_from(s, i + 1, i + 1)
    } else {
        words_from(s, start, i + 1)
    }
}

/// The maximal runs of non-whitespace characters of `s`, in order.
pub open spec fn words(s: Seq<char>) -> Seq<Seq<char>> {
    words_from(s, 0, 0)
}

fn is_ws(c: char) -> (r: bool)
    ensures
        r == is_ascii_ws(c),
{
    c == ' ' || c == '\t' || c == '\n' || c == '\x0C' || c == '\r'
}

/// Splits `s` at ASCII whitespace, dropping empty pieces.
pub fn split_words(s: &str) -> (r: Vec<String>)
    ensures
        strings_view(r@) == words(s@),
{
    let n = s.unicode_len();
    let mut r: Vec<String> = Vec::new();
    let mut start: usize = 0;
    let mut i: usize = 0;
    while i < n
        invariant
            n == s@.len(),
            start <= i <= n,
            words(s@) == strings_view(r@) + words_from(s@, start as int, i as int),
        decreases n - i,
    {
        let ghost prev = strings_view(r@);
        if is_ws(s.get_char(i)) {
            if start < i {
                let w = String::from_str(s.substring_char(start, i));
                r.push(w);
                proof {
                    assert(strings_view(r@) =~= prev + seq![s@.subrange(start as int, i as int)]);
                }
            }
            proof {
                assert(strings_view(r@) + words_from(s@, i + 1, i + 1) =~= prev + words_from(s@, start as int, i as int));
            }
            start = i + 1;
        }
        i = i + 1;
    }
    let ghost prev = strings_view(r@);
    if start < n {
        let w = String::from_str(s.substring_char(start, n));
        r.push(w);
        proof {
            assert(strings_view(r@) =~= prev + seq![s@.subrange(start as int, n as int)]);
        }
    } else {
        proof {
            assert(prev + Seq::<Seq<char>>::empty() =~= prev);
        }
    }
    r
}

/// Index of the first `c` in `s` at or after `i`.
pub open spec fn index_from(s: Seq<char>, c: char, i: int) -> Option<int>
    decreases s.len() - i,
{
    if i < 0 || i >= s.len() {
        None
    } else if s[i] == c {
        Some(i)
    } else {
        index_from(s, c, i + 1)
    }
}

/// Finds the first `c` in `s`.
pub fn find_char(s: &str, c: char) -> (r: Option<usize>)
    ensures
        match r {
            Some(k) => index_from(s@, c, 0) == Some(k as int) && k < s@.len(),
            None => index_from(s@, c, 0) is None,
        },
{
    let n = s.unicode_len();
    let mut i: usize = 0;
    while i < n
        invariant
            n == s@.len(),
            i <= n,
            index_from(s@, c, 0) == index_from(s@, c, i as int),
        decreases n - i,
    {
        if s.get_char(i) == c {
            return Some(i);
        }
        i = i + 1;
    }
    None
}

} // verus!
