//! Text helpers: case folding, decimal rendering, words and substrings.
//!
//! A text is modelled by its view, the sequence of its characters.

use vstd::prelude::*;
use vstd::utf8::{encode_utf8, is_ascii_chars};

verus! {

/// Lowercase of one ASCII character; every other character is kept.
pub open spec fn ascii_lower(c: char) -> char {
    if 'A' <= c && c <= 'Z' {
        (c as u32 + 32) as char
    } else {
        c
    }
}

/// Lowercase of a text made of ASCII characters only.
pub open spec fn ascii_lowercase(s: Seq<char>) -> Seq<char> {
    s.map_values(|c: char| ascii_lower(c))
}

/// What `str::to_lowercase` makes of a text with characters outside ASCII.
pub uninterp spec fn unicode_lowercase(s: Seq<char>) -> Seq<char>;

/// The lowercase equivalent of a text.
pub open spec fn lowercase(s: Seq<char>) -> Seq<char> {
    if is_ascii_chars(s) {
        ascii_lowercase(s)
    } else {
        unicode_lowercase(s)
    }
}

/// Calls `str::to_lowercase`. An ASCII text comes back with `A` to `Z` replaced by `a` to `z`;
/// of any other text the result follows Unicode's tables and depends on the text alone.
#[verifier::external_body]
pub(crate) fn to_lower(s: &str) -> (r: String)
    ensures
        r@ == (if is_ascii_chars(s@) { ascii_lowercase(s@) } else { unicode_lowercase(s@) }),
{
    s.to_lowercase()
}

/// `String::push` appends the character to the end of the string.
pub assume_specification[ String::push ](s: &mut String, c: char)
    ensures
        final(s)@ == old(s)@.push(c),
;

/// The characters that carry Unicode's White_Space property.
pub open spec fn white_space(c: char) -> bool {
    let u = c as u32;
    ||| 0x9 <= u <= 0xd
    ||| u == 0x20
    ||| u == 0x85
    ||| u == 0xa0
    ||| u == 0x1680
    ||| 0x2000 <= u <= 0x200a
    ||| u == 0x2028
    ||| u == 0x2029
    ||| u == 0x202f
    ||| u == 0x205f
    ||| u == 0x3000
}

/// `char::is_whitespace` tells whether the character has the White_Space property.
pub assume_specification[ char::is_whitespace ](c: char) -> (b: bool)
    ensures
        b == white_space(c),
;

/// The characters of a text, in order.
pub fn chars_of(s: &str) -> (r: Vec<char>)
    ensures
        r@ == s@,
{
    let mut out: Vec<char> = Vec::new();
    for c in it: s.chars()
        invariant
            out@ == it.seq().take(it.index()),
            it.seq() == s@,
    {
        out.push(c);
    }
    out
}

/// The length of a text in bytes.
pub fn byte_len(s: &str) -> (r: usize)
    ensures
        r == encode_utf8(s@).len(),
{
    s.as_bytes().len()
}

/// Whether two texts hold the same characters.
pub fn same_text(a: &str, b: &str) -> (r: bool)
    ensures
        r == (a@ == b@),
{
    a.to_owned() == b.to_owned()
}

/// The texts `a`, `b` and `c` joined end to end.
pub fn join3(a: &str, b: &str, c: &str) -> (r: String)
    ensures
        r@ == a@ + b@ + c@,
{
    a.to_owned().concat(b).concat(c)
}

/// The character of a decimal digit.
pub open spec fn digit(d: nat) -> char {
    (48 + d) as char
}

/// The decimal notation of a number, without leading zeros.
pub open spec fn decimal(n: nat) -> Seq<char>
    decreases n,
{
    if n < 10 {
        seq![digit(n)]
    } else {
        decimal(n / 10).push(digit(n % 10))
    }
}

/// Renders a number in decimal notation.
pub fn decimal_text(n: u64) -> (r: String)
    ensures
        r@ == decimal(n as nat),
    decreases n,
{
    let mut out = if n < 10 {
        String::new()
    } else {
        decimal_text(n / 10)
    };
    let d: u8 = (n % 10) as u8;
    let c = (48u8 + d) as char;
    out.push(c);
    out
}

/// Whether `needle` occurs in `hay` as a run of adjacent characters.
pub open spec fn occurs_in(needle: Seq<char>, hay: Seq<char>) -> bool {
    exists|i: int| #[trigger] occurs_at(needle, hay, i)
}

/// Whether `needle` occurs in `hay` at position `i`.
pub open spec fn occurs_at(needle: Seq<char>, hay: Seq<char>, i: int) -> bool {
    &&& 0 <= i
    &&& i + needle.len() <= hay.len()
    &&& hay.subrange(i, i + needle.len()) == needle
}

/// Decides whether `needle` occurs in `hay` at position `i`.
fn matches_at(needle: &Vec<char>, hay: &Vec<char>, i: usize) -> (r: bool)
    requires
        i + needle@.len() <= hay@.len(),
    ensures
        r == occurs_at(needle@, hay@, i as int),
{
    let end: usize = hay.len();
    let mut j: usize = 0;
    while j < needle.len()
        invariant
            j <= needle@.len(),
            end == hay@.len(),
            i + needle@.len() <= end,
            forall|k: int| 0 <= k < j ==> hay@[i + k] == needle@[k],
        decreases needle@.len() - j,
    {
        if hay[i + j] != needle[j] {
            assert(hay@.subrange(i as int, i + needle@.len())[j as int] != needle@[j as int]);
            return false;
        }
        j = j + 1;
    }
    assert(hay@.subrange(i as int, i + needle@.len()) =~= needle@);
    true
}

/// Decides whether `needle` occurs in `hay`.
pub fn contains_text(hay: &str, needle: &str) -> (r: bool)
    ensures
        r == occurs_in(needle@, hay@),
{
    let h = chars_of(hay);
    let n = chars_of(needle);
    if n.len() > h.len() {
        return false;
    }
    let last: usize = h.len() - n.len();
    let mut i: usize = 0;
    while i <= last
        invariant
            n@ == needle@,
            h@ == hay@,
            last == h@.len() - n@.len(),
            i <= last + 1,
            forall|k: int| 0 <= k < i ==> !occurs_at(needle@, hay@, k),
        decreases last + 1 - i,
    {
        if matches_at(&n, &h, i) {
            return true;
        }
        if i == last {
            return false;
        }
        i = i + 1;
    }
    false
}

/// Decides whether a text begins with another one.
pub fn starts_with(s: &str, prefix: &str) -> (r: bool)
    ensures
        r == prefix@.is_prefix_of(s@),
{
    let h = chars_of(s);
    let n = chars_of(prefix);
    if n.len() > h.len() {
        return false;
    }
    matches_at(&n, &h, 0)
}

/// A text without its hyphens.
pub open spec fn without_hyphens(s: Seq<char>) -> Seq<char> {
    s.filter(|c: char| c != '-')
}

/// Drops every hyphen of a text.
pub fn strip_hyphens(s: &str) -> (r: String)
    ensures
        r@ == without_hyphens(s@),
{
    let cs = chars_of(s);
    let mut out = String::new();
    let mut i: usize = 0;
    assert(cs@.take(0).filter(|c: char| c != '-') =~= Seq::<char>::empty()) by {
        reveal(Seq::filter);
    }
    while i < cs.len()
        invariant
            i <= cs@.len(),
            cs@ == s@,
            out@ == cs@.take(i as int).filter(|c: char| c != '-'),
        decreases cs@.len() - i,
    {
        let c = cs[i];
        proof {
            reveal(Seq::filter);
            assert(cs@.take(i + 1).drop_last() =~= cs@.take(i as int));
        }
        if c != '-' {
            out.push(c);
        }
        i = i + 1;
    }
    assert(cs@.take(i as int) =~= s@);
    out
}

/// A text without its leading slashes.
pub open spec fn without_slashes(s: Seq<char>) -> Seq<char>
    decreases s.len(),
{
    if s.len() > 0 && s[0] == '/' {
        without_slashes(s.drop_first())
    } else {
        s
    }
}

/// The part of a text before its first white space.
pub open spec fn leading_word(s: Seq<char>) -> Seq<char>
    decreases s.len(),
{
    if s.len() == 0 || white_space(s[0]) {
        Seq::empty()
    } else {
        seq![s[0]] + leading_word(s.drop_first())
    }
}

/// The first word of a command line, with or without leading slashes.
pub open spec fn command_word(s: Seq<char>) -> Seq<char> {
    leading_word(without_slashes(s))
}

/// Cuts the first word out of a command line.
pub fn first_word(s: &str) -> (r: String)
    ensures
        r@ == command_word(s@),
{
    let cs = chars_of(s);
    let mut i: usize = 0;
    assert(cs@.skip(0) =~= s@);
    while i < cs.len() && cs[i] == '/'
        invariant
            i <= cs@.len(),
            without_slashes(s@) == without_slashes(cs@.skip(i as int)),
        decreases cs@.len() - i,
    {
        assert(cs@.skip(i as int).drop_first() =~= cs@.skip(i + 1));
        i = i + 1;
    }
    let ghost rest = cs@.skip(i as int);
    let mut out = String::new();
    assert(out@ + leading_word(rest) =~= leading_word(rest));
    while i < cs.len() && !cs[i].is_whitespace()
        invariant
            i <= cs@.len(),
            out@ + leading_word(cs@.skip(i as int)) == leading_word(rest),
        decreases cs@.len() - i,
    {
        let ghost before = out@;
        assert(cs@.skip(i as int).drop_first() =~= cs@.skip(i + 1));
        out.push(cs[i]);
        proof {
            assert(leading_word(cs@.skip(i as int)) == seq![cs@[i as int]] + leading_word(
                cs@.skip(i + 1),
            ));
            assert(out@ + leading_word(cs@.skip(i + 1)) =~= before + (seq![cs@[i as int]]
                + leading_word(cs@.skip(i + 1))));
        }
        i = i + 1;
    }
    assert(out@ + leading_word(cs@.skip(i as int)) =~= out@);
    out
}

/// Lowercasing an ASCII text twice gives what lowercasing it once gives.
pub proof fn lowercase_is_idempotent(s: Seq<char>)
    requires
        is_ascii_chars(s),
    ensures
        is_ascii_chars(lowercase(s)),
        lowercase(lowercase(s)) == lowercase(s),
{
    let t = ascii_lowercase(s);
    assert forall|i: int| 0 <= i < t.len() implies '\0' <= #[trigger] t[i] <= '\u{7f}' && ascii_lower(t[i]) == t[i] by {
        assert('\0' <= s[i] <= '\u{7f}');
    }
    assert(ascii_lowercase(t) =~= t);
}

/// Dropping hyphens twice gives what dropping them once gives.
pub proof fn hyphens_are_dropped_once(s: Seq<char>)
    ensures
        without_hyphens(without_hyphens(s)) == without_hyphens(s),
    decreases s.len(),
{
    reveal(Seq::filter);
    let keep = |c: char| c != '-';
    if s.len() > 0 {
        hyphens_are_dropped_once(s.drop_last());
        if keep(s.last()) {
            let t = s.drop_last().filter(keep);
            assert(t.push(s.last()).drop_last() =~= t);
        }
    }
}

/// Dropping hyphens keeps a text ASCII, and may be done before or after lowercasing it.
pub proof fn hyphens_and_case_commute(s: Seq<char>)
    requires
        is_ascii_chars(s),
    ensures
        is_ascii_chars(without_hyphens(s)),
        without_hyphens(ascii_lowercase(s)) == ascii_lowercase(without_hyphens(s)),
    decreases s.len(),
{
    reveal(Seq::filter);
    let keep = |c: char| c != '-';
    let low = |c: char| ascii_lower(c);
    if s.len() == 0 {
        assert(ascii_lowercase(s) =~= s);
        assert(without_hyphens(s) =~= s);
    } else {
        let front = s.drop_last();
        let last = s.last();
        assert('\0' <= s[s.len() - 1] <= '\u{7f}');
        assert(is_ascii_chars(front)) by {
            assert forall|i: int| 0 <= i < front.len() implies '\0' <= #[trigger] front[i] <= '\u{7f}' by {
                assert(front[i] == s[i]);
            }
        }
        hyphens_and_case_commute(front);
        let lowered = ascii_lowercase(s);
        assert(lowered.drop_last() =~= ascii_lowercase(front));
        assert(lowered.last() == ascii_lower(last));
        assert(keep(ascii_lower(last)) == keep(last));
        let kept = without_hyphens(front);
        if keep(last) {
            assert(without_hyphens(s) == kept.push(last));
            assert(ascii_lowercase(kept.push(last)) =~= ascii_lowercase(kept).push(
                ascii_lower(last),
            ));
        } else {
            assert(without_hyphens(s) == kept);
        }
    }
}

/// Lowercasing an ASCII text keeps its length, turns `A` to `Z` into the letters 32 places further
/// on, and keeps every other character. Any other text is lowercased as Unicode has it.
pub proof fn lowercasing_goes_by_character(s: Seq<char>)
    ensures
        is_ascii_chars(s) ==> lowercase(s).len() == s.len() && forall|i: int|
            0 <= i < s.len() ==> #[trigger] lowercase(s)[i] == (if 'A' <= s[i] && s[i] <= 'Z' {
                (s[i] as u32 + 32) as char
            } else {
                s[i]
            }),
        !is_ascii_chars(s) ==> lowercase(s) == unicode_lowercase(s),
{
}

/// Dropping hyphens goes character by character: a hyphen leaves nothing, any other character is
/// kept where it stands.
pub proof fn hyphens_go_one_by_one(s: Seq<char>, c: char)
    ensures
        without_hyphens(Seq::empty()) == Seq::<char>::empty(),
        c == '-' ==> without_hyphens(s.push(c)) == without_hyphens(s),
        c != '-' ==> without_hyphens(s.push(c)) == without_hyphens(s).push(c),
{
    reveal(Seq::filter);
    assert(s.push(c).drop_last() =~= s);
}

/// A run of slashes.
pub open spec fn slashes(n: nat) -> Seq<char> {
    Seq::new(n, |i: int| '/')
}

/// The first word of a command line is what stands between its leading slashes and the first white
/// space, or the end.
pub proof fn first_word_is_between_slashes_and_space(n: nat, word: Seq<char>, rest: Seq<char>)
    requires
        forall|i: int| 0 <= i < word.len() ==> !white_space(#[trigger] word[i]),
        word.len() > 0 ==> word[0] != '/',
        rest.len() > 0 ==> white_space(rest[0]),
    ensures
        command_word(slashes(n) + word + rest) == word,
{
    leading_slashes_go(n, word + rest);
    assert(slashes(n) + word + rest =~= slashes(n) + (word + rest));
    word_ends_at_white_space(word, rest);
}

/// Leading slashes are dropped, all of them.
proof fn leading_slashes_go(n: nat, s: Seq<char>)
    requires
        s.len() > 0 ==> s[0] != '/',
    ensures
        without_slashes(slashes(n) + s) == s,
    decreases n,
{
    if n == 0 {
        assert(slashes(n) + s =~= s);
    } else {
        leading_slashes_go((n - 1) as nat, s);
        assert((slashes(n) + s).drop_first() =~= slashes((n - 1) as nat) + s);
    }
}

/// A word ends at the first white space.
proof fn word_ends_at_white_space(word: Seq<char>, rest: Seq<char>)
    requires
        forall|i: int| 0 <= i < word.len() ==> !white_space(#[trigger] word[i]),
        rest.len() > 0 ==> white_space(rest[0]),
    ensures
        leading_word(word + rest) == word,
    decreases word.len(),
{
    let s = word + rest;
    if word.len() == 0 {
        assert(s =~= rest);
    } else {
        let tail = word.drop_first();
        assert forall|i: int| 0 <= i < tail.len() implies !white_space(#[trigger] tail[i]) by {
            assert(tail[i] == word[i + 1]);
        }
        word_ends_at_white_space(tail, rest);
        assert(s.drop_first() =~= tail + rest);
        assert(s[0] == word[0]);
        assert(seq![word[0]] + tail =~= word);
    }
}

/// The number that a row of decimal digits stands for.
pub open spec fn decimal_value(s: Seq<char>) -> int
    decreases s.len(),
{
    if s.len() == 0 {
        0
    } else {
        decimal_value(s.drop_last()) * 10 + (s.last() as u32 - '0' as u32)
    }
}

/// The decimal notation of a number is made of digits, stands for that number, and has no leading
/// zero unless the number is zero.
pub proof fn decimal_notation_stands_for_the_number(n: nat)
    ensures
        decimal_value(decimal(n)) == n,
        decimal(n).len() > 0,
        forall|i: int| 0 <= i < decimal(n).len() ==> '0' <= #[trigger] decimal(n)[i] <= '9',
        n > 0 ==> decimal(n)[0] != '0',
    decreases n,
{
    if n < 10 {
        reveal_with_fuel(decimal_value, 2);
        assert(decimal(n).drop_last() =~= Seq::empty());
    } else {
        decimal_notation_stands_for_the_number(n / 10);
        assert(decimal(n).drop_last() =~= decimal(n / 10));
    }
}

/// One text occurs in another exactly if the other is made of it, something before it and something
/// after it.
pub proof fn occurring_is_standing_between(needle: Seq<char>, hay: Seq<char>)
    ensures
        occurs_in(needle, hay) <==> exists|before: Seq<char>, after: Seq<char>|
            hay == #[trigger] (before + needle + after),
{
    if occurs_in(needle, hay) {
        let i = choose|i: int| #[trigger] occurs_at(needle, hay, i);
        let before = hay.subrange(0, i);
        let after = hay.subrange(i + needle.len(), hay.len() as int);
        assert(hay =~= before + needle + after);
    }
    if exists|before: Seq<char>, after: Seq<char>| hay == #[trigger] (before + needle + after) {
        let (before, after) = choose|before: Seq<char>, after: Seq<char>|
            hay == #[trigger] (before + needle + after);
        assert(hay.subrange(
            before.len() as int,
            (before.len() + needle.len()) as int,
        ) =~= needle);
        assert(occurs_at(needle, hay, before.len() as int));
    }
}

} // verus!
