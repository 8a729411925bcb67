//! Text helpers: tag lists split on spaces, file extensions, decimal and hex
//! renderings.
use vstd::prelude::*;
use vstd::string::StrSliceExecFns;
use crate::tags::{empty_tags, insert_tag, tag_contents};

verus! {

broadcast use vstd::string::group_string_axioms;

/// Relies on `String::push`: the character is appended.
#[verifier::external_body]
pub(crate) fn push_char(s: &mut String, c: char)
    ensures
        final(s)@ == old(s)@.push(c),
{
    s.push(c)
}

/// Whether a character separates pieces: a space, and a line break too when
/// `lines` is set.
pub open spec fn is_separator(c: char, lines: bool) -> bool {
    c == ' ' || (lines && c == '\n')
}

/// The pieces of `s` between single separators (an empty text is one empty
/// piece).
pub open spec fn pieces(s: Seq<char>, lines: bool) -> Seq<Seq<char>>
    decreases s.len(),
{
    if s.len() == 0 {
        seq![Seq::<char>::empty()]
    } else {
        let p = pieces(s.drop_last(), lines);
        if is_separator(s.last(), lines) {
            p.push(Seq::<char>::empty())
        } else {
            p.update(p.len() - 1, p.last().push(s.last()))
        }
    }
}

/// The strings among `ps`; the empty one only when `keep_empty` is set.
pub open spec fn kept_of(ps: Seq<Seq<char>>, keep_empty: bool) -> Set<Seq<char>> {
    Set::new(|w: Seq<char>| (keep_empty || w.len() > 0) && ps.contains(w))
}

/// The words of a tag list separated by spaces or line breaks, empty pieces
/// left out.
pub open spec fn words(s: Seq<char>) -> Set<Seq<char>> {
    kept_of(pieces(s, true), false)
}

/// The pieces of a tag string split on single spaces, empty pieces included,
/// as a site's tag string is read.
pub open spec fn space_pieces(s: Seq<char>) -> Set<Seq<char>> {
    kept_of(pieces(s, false), true)
}

proof fn lemma_pieces_len(s: Seq<char>, lines: bool)
    ensures
        pieces(s, lines).len() >= 1,
    decreases s.len(),
{
    if s.len() > 0 {
        lemma_pieces_len(s.drop_last(), lines);
    }
}

proof fn lemma_kept_push(ps: Seq<Seq<char>>, w: Seq<char>, keep_empty: bool)
    ensures
        kept_of(ps.push(w), keep_empty) == if keep_empty || w.len() > 0 {
            kept_of(ps, keep_empty).insert(w)
        } else {
            kept_of(ps, keep_empty)
        },
{
    assert forall|x: Seq<char>| #[trigger] ps.push(w).contains(x) <==> (ps.contains(x) || x == w) by {
        if ps.push(w).contains(x) {
            let k = choose|k: int| 0 <= k < ps.len() + 1 && ps.push(w)[k] == x;
            if k < ps.len() {
                assert(ps[k] == x);
            }
        }
        if ps.contains(x) {
            let k = choose|k: int| 0 <= k < ps.len() && ps[k] == x;
            assert(ps.push(w)[k] == x);
        }
        if x == w {
            assert(ps.push(w)[ps.len() as int] == x);
        }
    }
    if keep_empty || w.len() > 0 {
        assert(kept_of(ps.push(w), keep_empty) =~= kept_of(ps, keep_empty).insert(w));
    } else {
        assert(kept_of(ps.push(w), keep_empty) =~= kept_of(ps, keep_empty));
    }
}

/// The set of the pieces of `s` between separators: spaces, and line breaks
/// too when `lines` is set; the empty piece only when `keep_empty` is set.
fn split_pieces(s: &str, lines: bool, keep_empty: bool) -> (r: ahash::AHashSet<String>)
    ensures
        tag_contents(r) == kept_of(pieces(s@, lines), keep_empty),
{
    let mut tags = empty_tags();
    let mut cur = String::new();
    let ghost text = s@;
    assert(kept_of(Seq::<Seq<char>>::empty(), keep_empty) =~= Set::<Seq<char>>::empty());
    for c in it: s.chars()
        invariant
            it.seq() == text,
            pieces(text.take(it.index() as int), lines) == pieces(text.take(it.index() as int), lines).drop_last().push(cur@),
            tag_contents(tags) == kept_of(pieces(text.take(it.index() as int), lines).drop_last(), keep_empty),
    {
        let ghost i = it.index() as int;
        let ghost prefix = text.take(i);
        let ghost before = pieces(prefix, lines);
        proof {
            assert(text.take(i + 1).drop_last() == prefix);
            assert(text.take(i + 1).last() == c);
            lemma_pieces_len(prefix, lines);
        }
        if c == ' ' || (lines && c == '\n') {
            let ghost done = before.drop_last();
            proof {
                lemma_kept_push(done, cur@, keep_empty);
                assert(pieces(text.take(i + 1), lines) == before.push(Seq::<char>::empty()));
                assert(pieces(text.take(i + 1), lines).drop_last() == before);
            }
            if keep_empty || !cur.as_str().is_empty() {
                insert_tag(&mut tags, cur);
            }
            cur = String::new();
        } else {
            push_char(&mut cur, c);
            proof {
                assert(pieces(text.take(i + 1), lines).drop_last() =~= before.drop_last());
                assert(pieces(text.take(i + 1), lines) =~= before.drop_last().push(cur@));
            }
        }
    }
    proof {
        assert(text.take(text.len() as int) == text);
        lemma_pieces_len(text, lines);
        lemma_kept_push(pieces(text, lines).drop_last(), cur@, keep_empty);
    }
    if keep_empty || !cur.as_str().is_empty() {
        insert_tag(&mut tags, cur);
    }
    tags
}

/// The set of words of a tag list separated by spaces or line breaks, empty
/// pieces left out.
pub fn split_tags(s: &str) -> (r: ahash::AHashSet<String>)
    ensures
        tag_contents(r) == words(s@),
{
    split_pieces(s, true, false)
}

/// The set of the pieces of a site's tag string split on single spaces,
/// empty pieces included.
pub fn split_on_spaces(s: &str) -> (r: ahash::AHashSet<String>)
    ensures
        tag_contents(r) == space_pieces(s@),
{
    split_pieces(s, false, true)
}

/// The characters after the last dot; `None` when there is no dot.
pub open spec fn dot_tail(s: Seq<char>) -> Option<Seq<char>>
    decreases s.len(),
{
    if s.len() == 0 {
        None
    } else if s.last() == '.' {
        Some(Seq::<char>::empty())
    } else {
        match dot_tail(s.drop_last()) {
            Some(t) => Some(t.push(s.last())),
            None => None,
        }
    }
}

/// The extension that ends a file's URL: what follows its last dot, or
/// nothing when it has no dot.
pub open spec fn extension_of(url: Seq<char>) -> Seq<char> {
    match dot_tail(url) {
        Some(t) => t,
        None => Seq::<char>::empty(),
    }
}

/// The extension that ends a file's URL.
pub fn extension_from_url(url: &str) -> (r: String)
    ensures
        r@ == extension_of(url@),
{
    let mut tail = String::new();
    let mut found = false;
    let ghost text = url@;
    for c in it: url.chars()
        invariant
            it.seq() == text,
            found == (dot_tail(text.take(it.index() as int)) is Some),
            found ==> dot_tail(text.take(it.index() as int)) == Some(tail@),
    {
        let ghost i = it.index() as int;
        proof {
            assert(text.take(i + 1).drop_last() == text.take(i));
            assert(text.take(i + 1).last() == c);
        }
        if c == '.' {
            tail = String::new();
            found = true;
        } else if found {
            push_char(&mut tail, c);
        }
    }
    proof {
        assert(text.take(text.len() as int) == text);
    }
    if found {
        tail
    } else {
        String::new()
    }
}

/// The digit that names `d`, below sixteen.
pub open spec fn hex_digit(d: int) -> char {
    "0123456789abcdef"@[d]
}

/// The decimal rendering of `n`.
pub open spec fn decimal(n: nat) -> Seq<char>
    decreases n,
{
    if n < 10 {
        seq![hex_digit(n as int)]
    } else {
        decimal(n / 10).push(hex_digit((n % 10) as int))
    }
}

/// Two lower-case hex digits for each byte.
pub open spec fn hex_of(b: Seq<u8>) -> Seq<char>
    decreases b.len(),
{
    if b.len() == 0 {
        Seq::<char>::empty()
    } else {
        hex_of(b.drop_last()).push(hex_digit(b.last() as int / 16)).push(hex_digit(b.last() as int % 16))
    }
}

fn digit_char(d: u64) -> (c: char)
    requires
        d < 16,
    ensures
        c == hex_digit(d as int),
{
    let digits = "0123456789abcdef";
    proof {
        reveal_strlit("0123456789abcdef");
    }
    digits.get_char(d as usize)
}

/// Appends the decimal rendering of `n`.
pub fn push_decimal(s: &mut String, n: u64)
    ensures
        final(s)@ == old(s)@ + decimal(n as nat),
    decreases n,
{
    if n >= 10 {
        push_decimal(s, n / 10);
    }
    push_char(s, digit_char(n % 10));
}

/// The decimal rendering of `n`.
pub fn to_decimal(n: u64) -> (r: String)
    ensures
        r@ == decimal(n as nat),
{
    let mut s = String::new();
    push_decimal(&mut s, n);
    assert(s@ =~= decimal(n as nat));
    s
}

/// Two lower-case hex digits for each byte.
pub fn to_hex(b: &Vec<u8>) -> (r: String)
    ensures
        r@ == hex_of(b@),
{
    let mut s = String::new();
    let mut i: usize = 0;
    while i < b.len()
        invariant
            i <= b@.len(),
            s@ == hex_of(b@.take(i as int)),
        decreases b@.len() - i,
    {
        let x = b[i];
        proof {
            assert(b@.take(i + 1).drop_last() == b@.take(i as int));
            assert(b@.take(i + 1).last() == x);
        }
        push_char(&mut s, digit_char((x / 16) as u64));
        push_char(&mut s, digit_char((x % 16) as u64));
        i = i + 1;
    }
    assert(b@.take(b@.len() as int) == b@);
    s
}

} // verus!
