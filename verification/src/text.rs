//! Text operations: a few of the standard library that this crate rests on
//! without proof, and verified ones for taking a pattern out of a text and
//! for writing numbers.

use vstd::prelude::*;
use vstd::string::*;

verus! {

/// What `str::parse::<u32>` makes of `text`: the number, or the words of the
/// error it reports.
pub uninterp spec fn u32_parse(text: Seq<char>) -> Result<u32, Seq<char>>;

/// What `str::to_lowercase` makes of `text`.
pub uninterp spec fn lowercase(text: Seq<char>) -> Seq<char>;

/// What the `Debug` of `str` writes for `text`: the text in double quotes,
/// with the characters that need it escaped.
pub uninterp spec fn str_debug(text: Seq<char>) -> Seq<char>;

/// `text` with every occurrence of `pattern` taken out, the occurrences
/// being found from the left and not overlapping.
pub open spec fn without(text: Seq<char>, pattern: Seq<char>) -> Seq<char>
    decreases text.len(),
{
    if pattern.len() == 0 || text.len() < pattern.len() {
        text
    } else if text.take(pattern.len() as int) == pattern {
        without(text.skip(pattern.len() as int), pattern)
    } else {
        seq![text[0]] + without(text.skip(1), pattern)
    }
}

/// The character of a decimal digit.
pub open spec fn digit_char(d: int) -> char {
    if d == 0 {
        '0'
    } else if d == 1 {
        '1'
    } else if d == 2 {
        '2'
    } else if d == 3 {
        '3'
    } else if d == 4 {
        '4'
    } else if d == 5 {
        '5'
    } else if d == 6 {
        '6'
    } else if d == 7 {
        '7'
    } else if d == 8 {
        '8'
    } else {
        '9'
    }
}

/// The decimal digits of a number that is not negative, without leading
/// zeros.
pub open spec fn digits(n: nat) -> Seq<char>
    decreases n,
{
    if n < 10 {
        seq![digit_char(n as int)]
    } else {
        digits(n / 10).push(digit_char((n % 10) as int))
    }
}

/// A number written in decimal, with a minus sign where it is negative.
pub open spec fn decimal_text(n: int) -> Seq<char> {
    if n < 0 {
        seq!['-'] + digits((-n) as nat)
    } else {
        digits(n as nat)
    }
}

/// Reads a decimal number with `str::parse::<u32>`. On failure the error is
/// handed on as the words of its `Display`. The contract names the outcome.
#[verifier::external_body]
pub(crate) fn parse_u32(text: &str) -> (r: Result<u32, String>)
    ensures
        match r {
            Ok(n) => u32_parse(text@) == Ok::<u32, Seq<char>>(n),
            Err(e) => u32_parse(text@) == Err::<u32, Seq<char>>(e@),
        },
{
    match text.parse::<u32>() {
        Ok(n) => Ok(n),
        Err(e) => Err(e.to_string()),
    }
}

/// Lower-cases a text with `str::to_lowercase`. The contract names the
/// outcome.
#[verifier::external_body]
pub(crate) fn to_lowercase(text: &str) -> (r: String)
    ensures
        r@ == lowercase(text@),
{
    text.to_lowercase()
}

/// Writes a text with the `Debug` of `str`. The contract names the outcome.
#[verifier::external_body]
pub(crate) fn debug_quoted(text: &str) -> (r: String)
    ensures
        r@ == str_debug(text@),
{
    format!("{:?}", text)
}

/// The characters of a text.
fn to_chars(text: &str) -> (chars: Vec<char>)
    ensures
        chars@ == text@,
{
    let mut chars: Vec<char> = Vec::new();
    for c in it: text.chars()
        invariant
            chars@ == it.seq().take(it.index() as int),
            it.seq() == text@,
    {
        chars.push(c);
    }
    chars
}

/// Whether `pattern` stands in `text` at position `at`.
fn stands_at(text: &Vec<char>, at: usize, pattern: &Vec<char>) -> (found: bool)
    requires
        at + pattern@.len() <= text@.len(),
    ensures
        found == (text@.subrange(at as int, at + pattern@.len()) == pattern@),
{
    let n = text.len();
    let mut j: usize = 0;
    while j < pattern.len()
        invariant
            j <= pattern@.len(),
            n == text@.len(),
            at + pattern@.len() <= text@.len(),
            forall|k: int| 0 <= k < j ==> text@[at + k] == pattern@[k],
        decreases pattern@.len() - j,
    {
        if text[at + j] != pattern[j] {
            proof {
                let piece = text@.subrange(at as int, at + pattern@.len());
                assert(piece[j as int] == text@[at + j]);
            }
            return false;
        }
        j = j + 1;
    }
    proof {
        assert(text@.subrange(at as int, at + pattern@.len()) =~= pattern@);
    }
    true
}

/// Takes every occurrence of `pattern` out of `text`, the occurrences being
/// found from the left and not overlapping.
pub fn remove_all(text: &str, pattern: &str) -> (r: String)
    ensures
        r@ == without(text@, pattern@),
{
    let chars = to_chars(text);
    let wanted = to_chars(pattern);
    let n = chars.len();
    let p = wanted.len();
    if p == 0 || n < p {
        return text.to_owned();
    }
    let ghost s = text@;
    let ghost pat = pattern@;
    let mut kept = String::new();
    let mut start: usize = 0;
    let mut i: usize = 0;
    proof {
        assert(s.skip(0) =~= s);
        assert(kept@ + s.subrange(0, 0) + without(s.skip(0), pat) =~= without(s, pat));
    }
    while i <= n - p
        invariant
            start <= i <= n,
            0 < p <= n,
            s == text@,
            pat == pattern@,
            chars@ == s,
            wanted@ == pat,
            n == s.len(),
            p == pat.len(),
            without(s, pat) == kept@ + s.subrange(start as int, i as int) + without(
                s.skip(i as int),
                pat,
            ),
        decreases n - i,
    {
        let ghost rest = s.skip(i as int);
        proof {
            assert(rest.take(p as int) =~= s.subrange(i as int, i + p));
        }
        if stands_at(&chars, i, &wanted) {
            proof {
                assert(rest.skip(p as int) =~= s.skip(i + p));
                assert(s.subrange(i + p, i + p) =~= Seq::<char>::empty());
                assert(kept@ + s.subrange(start as int, i as int) + s.subrange(i + p, i + p)
                    + without(s.skip(i + p), pat) =~= kept@ + s.subrange(start as int, i as int)
                    + without(rest, pat));
            }
            kept = kept.concat(text.substring_char(start, i));
            i = i + p;
            start = i;
        } else {
            proof {
                assert(rest.skip(1) =~= s.skip(i + 1));
                assert(rest[0] == s[i as int]);
                assert(kept@ + s.subrange(start as int, i + 1) + without(s.skip(i + 1), pat)
                    =~= kept@ + s.subrange(start as int, i as int) + (seq![rest[0]] + without(
                    rest.skip(1),
                    pat,
                )));
            }
            i = i + 1;
        }
    }
    proof {
        assert(kept@ + s.subrange(start as int, n as int) =~= kept@ + s.subrange(
            start as int,
            i as int,
        ) + s.skip(i as int));
    }
    kept.concat(text.substring_char(start, n))
}

/// The text of one decimal digit.
fn digit_text(d: u64) -> (r: String)
    requires
        d < 10,
    ensures
        r@ == seq![digit_char(d as int)],
{
    proof {
        reveal_strlit("0");
        reveal_strlit("1");
        reveal_strlit("2");
        reveal_strlit("3");
        reveal_strlit("4");
        reveal_strlit("5");
        reveal_strlit("6");
        reveal_strlit("7");
        reveal_strlit("8");
        reveal_strlit("9");
    }
    let r = if d == 0 {
        "0".to_owned()
    } else if d == 1 {
        "1".to_owned()
    } else if d == 2 {
        "2".to_owned()
    } else if d == 3 {
        "3".to_owned()
    } else if d == 4 {
        "4".to_owned()
    } else if d == 5 {
        "5".to_owned()
    } else if d == 6 {
        "6".to_owned()
    } else if d == 7 {
        "7".to_owned()
    } else if d == 8 {
        "8".to_owned()
    } else {
        "9".to_owned()
    };
    assert(r@ =~= seq![digit_char(d as int)]);
    r
}

/// Writes a number that is not negative in decimal.
pub fn u64_text(n: u64) -> (r: String)
    ensures
        r@ == digits(n as nat),
        r@ == decimal_text(n as int),
{
    let mut text = digit_text(n % 10);
    let mut rest: u64 = n / 10;
    while rest > 0
        invariant
            rest > 0 ==> digits(n as nat) == digits(rest as nat) + text@,
            rest == 0 ==> digits(n as nat) == text@,
        decreases rest,
    {
        let digit = digit_text(rest % 10);
        proof {
            if rest >= 10 {
                assert(digits(rest as nat) + text@ =~= digits((rest / 10) as nat) + (digit@
                    + text@));
            } else {
                assert(digits(rest as nat) + text@ =~= digit@ + text@);
            }
        }
        text = digit.concat(text.as_str());
        rest = rest / 10;
    }
    text
}

/// Writes a number in decimal.
pub fn i32_text(n: i32) -> (r: String)
    ensures
        r@ == decimal_text(n as int),
{
    if n < 0 {
        let magnitude: u64 = (-(n as i64)) as u64;
        proof {
            reveal_strlit("-");
            assert("-"@ =~= seq!['-']);
        }
        "-".to_owned().concat(u64_text(magnitude).as_str())
    } else {
        u64_text(n as u64)
    }
}

/// The decimal numbers of `bytes`, one after the other, with a comma and a
/// blank between two of them.
pub open spec fn joined_bytes(bytes: Seq<u8>) -> Seq<char>
    decreases bytes.len(),
{
    if bytes.len() == 0 {
        Seq::<char>::empty()
    } else if bytes.len() == 1 {
        digits(bytes[0] as nat)
    } else {
        joined_bytes(bytes.drop_last()) + ", "@ + digits(bytes.last() as nat)
    }
}

/// A list of bytes as a debugging text writes it: the decimal numbers in
/// square brackets.
pub open spec fn byte_list(bytes: Seq<u8>) -> Seq<char> {
    "["@ + joined_bytes(bytes) + "]"@
}

/// Writes the first `count` of six bytes as a list.
pub fn byte_list_text(bytes: &[u8; 6], count: usize) -> (r: String)
    requires
        count <= 6,
    ensures
        r@ == byte_list(bytes@.take(count as int)),
{
    let mut text = String::new();
    let mut i: usize = 0;
    proof {
        assert(bytes@.take(0).len() == 0);
    }
    while i < count
        invariant
            i <= count <= 6,
            bytes@.len() == 6,
            text@ == joined_bytes(bytes@.take(i as int)),
        decreases count - i,
    {
        let number = u64_text(bytes[i] as u64);
        proof {
            let now = bytes@.take(i + 1);
            assert(now.drop_last() =~= bytes@.take(i as int));
            assert(now.last() == bytes@[i as int]);
            if i == 0 {
                assert(joined_bytes(now) =~= text@ + number@);
            }
        }
        if i > 0 {
            text = text.concat(", ");
        }
        text = text.concat(number.as_str());
        i = i + 1;
    }
    "[".to_owned().concat(text.as_str()).concat("]")
}

/// Whether two texts hold the same characters.
pub fn same_text(a: &str, b: &str) -> (same: bool)
    ensures
        same == (a@ == b@),
{
    let x = a.to_owned();
    let y = b.to_owned();
    x == y
}

} // verus!
