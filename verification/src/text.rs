//! Text primitives shared by the parsers and the encoders: comparison, search,
//! splitting at white space, and the decimal and hexadecimal notations of numbers.
//!
//! Everything is stated over `Seq<char>`, the view of `str` and `String`.

use core::num::ParseIntError;
use vstd::prelude::*;
use vstd::string::{StrSliceExecFns, StringExecFns};

verus! {

// ---------------------------------------------------------------------------
// Digits and numbers
// ---------------------------------------------------------------------------

/// `c` is one of the ASCII digits `0` to `9`.
pub open spec fn is_digit(c: char) -> bool {
    '0' as u32 <= c as u32 && c as u32 <= '9' as u32
}

/// The number that the ASCII digit `c` stands for.
pub open spec fn digit_value(c: char) -> nat
    recommends
        is_digit(c),
{
    (c as u32 - '0' as u32) as nat
}

/// Every character of `s` is an ASCII digit.
pub open spec fn all_digits(s: Seq<char>) -> bool {
    forall|i: int| 0 <= i < s.len() ==> is_digit(#[trigger] s[i])
}

/// The number that a run of digits denotes in base ten; leading zeros count for nothing.
pub open spec fn digits_value(s: Seq<char>) -> nat
    decreases s.len(),
{
    if s.len() == 0 {
        0
    } else {
        10 * digits_value(s.drop_last()) + digit_value(s.last())
    }
}

/// The number that `s` denotes as an unsigned decimal: an optional `+` sign followed
/// by one or more ASCII digits. Anything else denotes nothing.
pub open spec fn unsigned_decimal(s: Seq<char>) -> Option<nat> {
    let digits = if s.len() > 0 && s[0] == '+' {
        s.drop_first()
    } else {
        s
    };
    if digits.len() > 0 && all_digits(digits) {
        Some(digits_value(digits))
    } else {
        None
    }
}

/// The sixteen digits of lowercase hexadecimal notation, in order.
pub open spec fn digit_chars() -> Seq<char> {
    seq!['0', '1', '2', '3', '4', '5', '6', '7', '8', '9', 'a', 'b', 'c', 'd', 'e', 'f']
}

/// The decimal notation of `n`, without sign or leading zeros.
pub open spec fn decimal_text(n: nat) -> Seq<char>
    decreases n,
{
    if n < 10 {
        seq![digit_chars()[n as int]]
    } else {
        decimal_text(n / 10).push(digit_chars()[(n % 10) as int])
    }
}

/// The lowercase hexadecimal notation of `n`, without prefix or leading zeros.
pub open spec fn hex_text(n: nat) -> Seq<char>
    decreases n,
{
    if n < 16 {
        seq![digit_chars()[n as int]]
    } else {
        hex_text(n / 16).push(digit_chars()[(n % 16) as int])
    }
}

/// `str::parse::<u8>` of the standard library. It accepts exactly the unsigned
/// decimals (an optional `+`, then digits only) whose value fits the type, and
/// returns that value; every other text is an error.
#[verifier::external_body]
pub(crate) fn parse_u8(s: &str) -> (r: Result<u8, ParseIntError>)
    ensures
        r is Ok <==> (unsigned_decimal(s@) matches Some(n) && n <= u8::MAX),
        r matches Ok(v) ==> unsigned_decimal(s@) == Some(v as nat),
{
    s.parse::<u8>()
}

/// `str::parse::<u16>` of the standard library. It accepts exactly the unsigned
/// decimals (an optional `+`, then digits only) whose value fits the type, and
/// returns that value; every other text is an error.
#[verifier::external_body]
pub(crate) fn parse_u16(s: &str) -> (r: Result<u16, ParseIntError>)
    ensures
        r is Ok <==> (unsigned_decimal(s@) matches Some(n) && n <= u16::MAX),
        r matches Ok(v) ==> unsigned_decimal(s@) == Some(v as nat),
{
    s.parse::<u16>()
}

/// `str::parse::<u32>` of the standard library. It accepts exactly the unsigned
/// decimals (an optional `+`, then digits only) whose value fits the type, and
/// returns that value; every other text is an error.
#[verifier::external_body]
pub(crate) fn parse_u32(s: &str) -> (r: Result<u32, ParseIntError>)
    ensures
        r is Ok <==> (unsigned_decimal(s@) matches Some(n) && n <= u32::MAX),
        r matches Ok(v) ==> unsigned_decimal(s@) == Some(v as nat),
{
    s.parse::<u32>()
}

/// The digit of the given value as a text of one character.
fn digit_str(d: u8) -> (r: &'static str)
    requires
        d < 16,
    ensures
        r@ == seq![digit_chars()[d as int]],
{
    proof {
        reveal_strlit("0");
        reveal_strlit("1");
        reveal_strlit("2");
        reveal_strlit("3");
        reveal_strlit("4");
        reveal_strlit("5");
        reveal_strlit("6");
        reveal_strlit("7");
        reveal_strlit("8");
        reveal_strlit("9");
        reveal_strlit("a");
        reveal_strlit("b");
        reveal_strlit("c");
        reveal_strlit("d");
        reveal_strlit("e");
        reveal_strlit("f");
    }
    match d {
        0 => "0",
        1 => "1",
        2 => "2",
        3 => "3",
        4 => "4",
        5 => "5",
        6 => "6",
        7 => "7",
        8 => "8",
        9 => "9",
        10 => "a",
        11 => "b",
        12 => "c",
        13 => "d",
        14 => "e",
        _ => "f",
    }
}

/// The decimal notation of `n`.
pub fn decimal_string(n: u64) -> (r: String)
    ensures
        r@ == decimal_text(n as nat),
    decreases n,
{
    if n < 10 {
        String::from_str(digit_str(n as u8))
    } else {
        let mut r = decimal_string(n / 10);
        r.append(digit_str((n % 10) as u8));
        r
    }
}

/// The lowercase hexadecimal notation of `n`.
pub fn hex_string(n: u32) -> (r: String)
    ensures
        r@ == hex_text(n as nat),
    decreases n,
{
    if n < 16 {
        String::from_str(digit_str(n as u8))
    } else {
        let mut r = hex_string(n / 16);
        r.append(digit_str((n % 16) as u8));
        r
    }
}

/// The decimal notation of a number is a run of digits, at least one, that denotes
/// the number.
pub proof fn lemma_decimal_text_denotes(n: nat)
    ensures
        decimal_text(n).len() >= 1,
        all_digits(decimal_text(n)),
        digits_value(decimal_text(n)) == n,
    decreases n,
{
    let text = decimal_text(n);
    if n < 10 {
        assert(digits_value(text.drop_last()) == 0);
    } else {
        lemma_decimal_text_denotes(n / 10);
        assert(text.drop_last() =~= decimal_text(n / 10));
    }
}

/// Reading the decimal notation of a number gives the number back.
pub proof fn lemma_decimal_round_trip(n: nat)
    ensures
        unsigned_decimal(decimal_text(n)) == Some(n),
{
    lemma_decimal_text_denotes(n);
}

// ---------------------------------------------------------------------------
// Comparison and search
// ---------------------------------------------------------------------------

/// The characters of `s`, in order.
pub fn chars_of(s: &str) -> (v: Vec<char>)
    ensures
        v@ == s@,
{
    let mut v: Vec<char> = Vec::new();
    for c in it: s.chars()
        invariant
            it.seq() == s@,
            v@ == it.seq().take(it.index() as int),
    {
        v.push(c);
    }
    v
}

/// `needle` stands in `hay` at position `i`.
pub open spec fn occurs_at(hay: Seq<char>, needle: Seq<char>, i: int) -> bool {
    0 <= i && i + needle.len() <= hay.len() && hay.subrange(i, i + needle.len()) == needle
}

/// `needle` occurs somewhere in `hay` as a contiguous run of characters.
pub open spec fn has_substring(hay: Seq<char>, needle: Seq<char>) -> bool {
    exists|i: int| occurs_at(hay, needle, i)
}

fn matches_at(hay: &Vec<char>, needle: &Vec<char>, i: usize) -> (r: bool)
    requires
        i + needle.len() <= hay.len(),
    ensures
        r == occurs_at(hay@, needle@, i as int),
{
    let mut k: usize = 0;
    while k < needle.len()
        invariant
            i + needle.len() <= hay.len(),
            k <= needle.len(),
            forall|j: int| 0 <= j < k ==> hay@[i + j] == needle@[j],
        decreases needle.len() - k,
    {
        if hay[i + k] != needle[k] {
            return false;
        }
        k = k + 1;
    }
    assert(hay@.subrange(i as int, i + needle.len()) =~= needle@);
    true
}

/// Whether two texts hold the same characters.
pub fn str_eq(a: &str, b: &str) -> (r: bool)
    ensures
        r == (a@ == b@),
{
    let x = chars_of(a);
    let y = chars_of(b);
    if x.len() != y.len() {
        return false;
    }
    assert(x@.subrange(0, y@.len() as int) =~= x@);
    matches_at(&x, &y, 0)
}

/// Whether `needle` occurs in `hay`.
pub fn contains(hay: &str, needle: &str) -> (r: bool)
    ensures
        r == has_substring(hay@, needle@),
{
    let h = chars_of(hay);
    let n = chars_of(needle);
    if n.len() > h.len() {
        return false;
    }
    let last: usize = h.len() - n.len();
    let mut i: usize = 0;
    while i <= last
        invariant
            last == h.len() - n.len(),
            i <= last + 1,
            h@ == hay@,
            n@ == needle@,
            forall|k: int| 0 <= k < i ==> !occurs_at(h@, n@, k),
        decreases last + 1 - i,
    {
        if matches_at(&h, &n, i) {
            return true;
        }
        if i == last {
            return false;
        }
        i = i + 1;
    }
    false
}

// ---------------------------------------------------------------------------
// Words
// ---------------------------------------------------------------------------

/// `c` has the Unicode property `White_Space`: it is one of the controls from tab
/// to carriage return, the space, the next-line control, the no-break space, or
/// one of the spaces and separators of the general punctuation and the other
/// blocks listed here.
pub open spec fn white_space(c: char) -> bool {
    let n = c as u32;
    ||| 0x09 <= n <= 0x0d
    ||| n == 0x20
    ||| n == 0x85
    ||| n == 0xa0
    ||| n == 0x1680
    ||| 0x2000 <= n <= 0x200a
    ||| n == 0x2028
    ||| n == 0x2029
    ||| n == 0x202f
    ||| n == 0x205f
    ||| n == 0x3000
}

/// `char::is_whitespace` of the standard library: whether the character has the
/// Unicode property `White_Space`, whose members `white_space` lists.
#[verifier::external_body]
fn is_whitespace(c: char) -> (r: bool)
    ensures
        r == white_space(c),
{
    c.is_whitespace()
}

/// The words of `s` when `cur` is the part of a word already read: each white space
/// ends the word before it, and the end of the text ends the last one.
pub open spec fn words_from(s: Seq<char>, cur: Seq<char>) -> Seq<Seq<char>>
    decreases s.len(),
{
    let ended: Seq<Seq<char>> = if cur.len() > 0 {
        seq![cur]
    } else {
        Seq::empty()
    };
    if s.len() == 0 {
        ended
    } else if white_space(s[0]) {
        ended + words_from(s.drop_first(), Seq::empty())
    } else {
        words_from(s.drop_first(), cur.push(s[0]))
    }
}

/// The words of `s`: its maximal runs of characters that are not white space, in order.
pub open spec fn words(s: Seq<char>) -> Seq<Seq<char>> {
    words_from(s, Seq::empty())
}

/// The texts that a sequence of strings holds.
pub open spec fn views(v: Seq<String>) -> Seq<Seq<char>> {
    Seq::new(v.len(), |i: int| v[i]@)
}

/// Splits `s` at white space into its words.
pub fn split_whitespace(s: &str) -> (r: Vec<String>)
    ensures
        views(r@) == words(s@),
{
    let v = chars_of(s);
    let mut out: Vec<String> = Vec::new();
    let mut start: usize = 0;
    let mut in_word: bool = false;
    let mut i: usize = 0;
    assert(v@.skip(0) =~= v@);
    while i < v.len()
        invariant
            v@ == s@,
            i <= v.len(),
            in_word ==> start < i,
            views(out@) + words_from(
                v@.skip(i as int),
                if in_word {
                    v@.subrange(start as int, i as int)
                } else {
                    Seq::empty()
                },
            ) == words(v@),
        decreases v.len() - i,
    {
        assert(v@.skip(i as int).drop_first() =~= v@.skip(i + 1));
        if is_whitespace(v[i]) {
            if in_word {
                let word = String::from_str(s.substring_char(start, i));
                out.push(word);
                in_word = false;
            }
        } else {
            if !in_word {
                start = i;
                in_word = true;
                assert(v@.subrange(i as int, i + 1) =~= Seq::<char>::empty().push(v@[i as int]));
            } else {
                assert(v@.subrange(start as int, i + 1) =~= v@.subrange(
                    start as int,
                    i as int,
                ).push(v@[i as int]));
            }
        }
        i = i + 1;
    }
    if in_word {
        let word = String::from_str(s.substring_char(start, i));
        out.push(word);
    }
    out
}

/// No character of `s` is white space.
pub open spec fn solid(s: Seq<char>) -> bool {
    forall|i: int| 0 <= i < s.len() ==> !white_space(#[trigger] s[i])
}

/// Every word is a non-empty run of characters that are not white space.
pub proof fn lemma_words_are_solid(s: Seq<char>, cur: Seq<char>, w: Seq<char>)
    requires
        solid(cur),
        words_from(s, cur).contains(w),
    ensures
        w.len() > 0,
        solid(w),
    decreases s.len(),
{
    let ended: Seq<Seq<char>> = if cur.len() > 0 {
        seq![cur]
    } else {
        Seq::empty()
    };
    if s.len() == 0 {
        assert(ended[0] == w);
    } else if white_space(s[0]) {
        let rest = words_from(s.drop_first(), Seq::empty());
        let k = choose|k: int| 0 <= k < (ended + rest).len() && (ended + rest)[k] == w;
        if k < ended.len() {
            assert(ended[0] == w);
        } else {
            assert(rest[k - ended.len()] == w);
            lemma_words_are_solid(s.drop_first(), Seq::empty(), w);
        }
    } else {
        lemma_words_are_solid(s.drop_first(), cur.push(s[0]), w);
    }
}

} // verus!
