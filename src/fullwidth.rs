//! Mapping of ASCII text to its fullwidth presentation forms.

use vstd::prelude::*;
use vstd::string::StrSliceExecFns;

verus! {

/// The ideographic space, which stands in for an ASCII space.
pub const WIDE_SPACE: char = '\u{3000}';

/// Distance from a printable ASCII code point to its fullwidth form.
pub const FULLWIDTH_OFFSET: u32 = 0xFEE0;

/// Whether `c` is a printable, non-space ASCII character (`'!'..='~'`).
pub open spec fn is_shiftable(c: char) -> bool {
    0x21 <= (c as u32) && (c as u32) <= 0x7E
}

/// The fullwidth form of one character: space becomes the ideographic space,
/// printable ASCII is shifted into the fullwidth block, and everything else
/// is kept as it is.
pub open spec fn fw_spec(c: char) -> char {
    if c == ' ' {
        WIDE_SPACE
    } else if is_shiftable(c) {
        ((c as u32) + FULLWIDTH_OFFSET) as char
    } else {
        c
    }
}

/// Relies on `char::from_u32`: `Some` exactly for a Unicode scalar value,
/// and then the character with that code point.
#[verifier::external_body]
fn char_from_u32(v: u32) -> (r: Option<char>)
    ensures
        r is Some <==> (v < 0xD800 || (0xE000 <= v && v <= 0x10FFFF)),
        r matches Some(c) ==> c as u32 == v,
{
    char::from_u32(v)
}

/// The fullwidth form of `c`.
pub fn fw_char(c: char) -> (r: char)
    ensures
        r == fw_spec(c),
{
    if c == ' ' {
        WIDE_SPACE
    } else if '!' <= c && c <= '~' {
        let code: u32 = (c as u32) + FULLWIDTH_OFFSET;
        match char_from_u32(code) {
            Some(w) => {
                proof {
                    vstd::utf8::char_u32_cast(w, code);
                }
                w
            },
            None => c,
        }
    } else {
        c
    }
}

/// The fullwidth form of every character of `s`, in order.
pub open spec fn fw_seq(s: Seq<char>) -> Seq<char> {
    s.map_values(|c: char| fw_spec(c))
}

/// Mapping text that is already fullwidth changes nothing: the characters
/// the mapping produces lie outside the range it moves.
pub proof fn lemma_fw_reapply(s: Seq<char>)
    ensures
        fw_seq(fw_seq(s)) == fw_seq(s),
{
    assert forall|i: int| 0 <= i < s.len() implies fw_spec(#[trigger] fw_spec(s[i])) == fw_spec(
        s[i],
    ) by {
        let c = s[i];
        if c != ' ' && is_shiftable(c) {
            vstd::utf8::char_is_scalar(c);
            let w = ((c as u32) + FULLWIDTH_OFFSET) as char;
            vstd::utf8::char_is_scalar(w);
        }
    }
    assert(fw_seq(fw_seq(s)) =~= fw_seq(s));
}

/// Relies on `String::push`: appends one character at the end.
#[verifier::external_body]
fn push_char(s: &mut String, c: char)
    ensures
        final(s)@ == old(s)@.push(c),
{
    s.push(c)
}

/// Appends the fullwidth form of each character of `src` to `out`.
fn push_fullwidth(out: &mut String, src: &str)
    ensures
        final(out)@ == old(out)@ + fw_seq(src@),
{
    let ghost start = out@;
    for c in it: src.chars()
        invariant
            it.seq() == src@,
            out@ == start + fw_seq(src@.take(it.index() as int)),
    {
        proof {
            assert(src@.take(it.index() + 1) == src@.take(it.index() as int).push(c));
        }
        push_char(out, fw_char(c));
        proof {
            assert(fw_seq(src@.take(it.index() + 1)) =~= fw_seq(src@.take(it.index() as int)).push(
                fw_spec(c),
            ));
        }
    }
    proof {
        assert(src@.take(src@.len() as int) =~= src@);
    }
}

/// The fullwidth form of `s`.
pub fn fullwidth(s: &str) -> (r: String)
    ensures
        r@ == fw_seq(s@),
{
    let mut out = String::new();
    push_fullwidth(&mut out, s);
    proof {
        assert(out@ =~= fw_seq(s@));
    }
    out
}

/// The fullwidth forms of `words`, with one ideographic space between each
/// two neighbours and none before the first or after the last.
pub open spec fn join_fw(words: Seq<Seq<char>>) -> Seq<char>
    decreases words.len(),
{
    if words.len() == 0 {
        Seq::empty()
    } else if words.len() == 1 {
        fw_seq(words[0])
    } else {
        join_fw(words.drop_last()) + seq![WIDE_SPACE] + fw_seq(words.last())
    }
}

/// The character sequences of a list of strings.
pub open spec fn views_of(words: Seq<String>) -> Seq<Seq<char>> {
    words.map_values(|w: String| w@)
}

/// Joining is associative across a split of the word list: the two halves
/// meet at exactly one ideographic space, and nothing else is added.
pub proof fn lemma_join_split(a: Seq<Seq<char>>, b: Seq<Seq<char>>)
    requires
        a.len() > 0,
        b.len() > 0,
    ensures
        join_fw(a + b) == join_fw(a) + seq![WIDE_SPACE] + join_fw(b),
    decreases b.len(),
{
    if b.len() == 1 {
        assert((a + b).drop_last() =~= a);
        assert((a + b).last() == b[0]);
    } else {
        lemma_join_split(a, b.drop_last());
        assert((a + b).drop_last() =~= a + b.drop_last());
        assert((a + b).last() == b.last());
        assert(join_fw(a + b) =~= join_fw(a) + seq![WIDE_SPACE] + join_fw(b));
    }
}

/// The fullwidth forms of `words`, separated by ideographic spaces.
pub fn render_words(words: &Vec<String>) -> (r: String)
    ensures
        r@ == join_fw(views_of(words@)),
{
    let ghost ws = views_of(words@);
    let mut out = String::new();
    let mut i: usize = 0;
    while i < words.len()
        invariant
            i <= words.len(),
            ws == views_of(words@),
            out@ == join_fw(ws.take(i as int)),
        decreases words.len() - i,
    {
        let ghost before = out@;
        if i > 0 {
            push_char(&mut out, WIDE_SPACE);
        }
        push_fullwidth(&mut out, words[i].as_str());
        proof {
            let t = ws.take(i + 1);
            assert(t.drop_last() =~= ws.take(i as int));
            assert(t.last() == words@[i as int]@);
            if i == 0 {
                assert(out@ =~= join_fw(t));
            }
        }
        i = i + 1;
    }
    proof {
        assert(ws.take(i as int) =~= ws);
    }
    out
}

/// `s` without one trailing newline, if it ends in one.
pub open spec fn strip_newline(s: Seq<char>) -> Seq<char> {
    if s.len() > 0 && s.last() == '\n' {
        s.drop_last()
    } else {
        s
    }
}

/// Newlines inside the text pass through the mapping where they stand, and
/// the mapping keeps the length.
pub proof fn lemma_newlines_kept(s: Seq<char>)
    ensures
        fw_seq(strip_newline(s)).len() == strip_newline(s).len(),
        forall|i: int|
            0 <= i < strip_newline(s).len() && strip_newline(s)[i] == '\n' ==> #[trigger] fw_seq(
                strip_newline(s),
            )[i] == '\n',
{
}

/// The fullwidth form of text read from standard input: one trailing newline
/// is dropped, and every other character, newlines included, is mapped.
pub fn render_input(input: &str) -> (r: String)
    ensures
        r@ == fw_seq(strip_newline(input@)),
{
    let n = input.unicode_len();
    let body: &str = if n > 0 && input.get_char(n - 1) == '\n' {
        input.substring_char(0, n - 1)
    } else {
        input
    };
    proof {
        assert(body@ =~= strip_newline(input@));
    }
    fullwidth(body)
}

} // verus!
