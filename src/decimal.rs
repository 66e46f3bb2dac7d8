//! Unsigned decimal text: reading a `u32` and writing one.
use vstd::prelude::*;

verus! {

pub open spec fn is_digit(c: char) -> bool {
    '0' <= c && c <= '9'
}

pub open spec fn digit_value(c: char) -> nat {
    (c as nat - '0' as nat) as nat
}

/// The digits of an unsigned decimal integer: an optional leading `+`
/// followed by the digits themselves.
pub open spec fn digits_of(s: Seq<char>) -> Seq<char> {
    if s.len() > 0 && s[0] == '+' {
        s.drop_first()
    } else {
        s
    }
}

/// `s` is an unsigned decimal integer: an optional `+`, then one or more
/// ASCII digits and nothing else.
pub open spec fn is_unsigned_text(s: Seq<char>) -> bool {
    let d = digits_of(s);
    &&& d.len() > 0
    &&& forall|i: int| 0 <= i < d.len() ==> #[trigger] is_digit(d[i])
}

/// The number that a string of digits denotes, most significant first.
pub open spec fn digits_value(d: Seq<char>) -> nat
    decreases d.len(),
{
    if d.len() == 0 {
        0
    } else {
        digits_value(d.drop_last()) * 10 + digit_value(d.last())
    }
}

/// The number that unsigned decimal text denotes.
pub open spec fn text_value(s: Seq<char>) -> nat {
    digits_value(digits_of(s))
}

/// The shortest decimal digits of `n`.
pub open spec fn decimal(n: nat) -> Seq<char>
    decreases n,
{
    if n < 10 {
        seq![digit_char(n)]
    } else {
        decimal(n / 10).push(digit_char(n % 10))
    }
}

pub open spec fn digit_char(d: nat) -> char {
    ('0' as nat + d) as char
}

/// A prefix of digits never denotes more than the whole.
proof fn lemma_prefix_value_le(d: Seq<char>, i: int)
    requires
        0 <= i <= d.len(),
    ensures
        digits_value(d.take(i)) <= digits_value(d),
    decreases d.len(),
{
    if i < d.len() {
        lemma_prefix_value_le(d.drop_last(), i);
        assert(d.drop_last().take(i) =~= d.take(i));
    } else {
        assert(d.take(i) =~= d);
    }
}

/// Why text is not a position.
#[derive(Clone, Copy, Debug, PartialEq, Eq, Structural)]
pub enum ParseError {
    /// Not an unsigned decimal integer.
    Invalid,
    /// An unsigned decimal integer above `u32::MAX`.
    TooLarge,
}

/// Reads `text` as an unsigned decimal `u32`.
pub fn parse_u32(text: &str) -> (r: Result<u32, ParseError>)
    ensures
        r == (if !is_unsigned_text(text@) {
            Err(ParseError::Invalid)
        } else if text_value(text@) > u32::MAX {
            Err(ParseError::TooLarge)
        } else {
            Ok(text_value(text@) as u32)
        }),
{
    let len = text.unicode_len();
    let start: usize = if len > 0 && text.get_char(0) == '+' { 1 } else { 0 };
    let ghost d = digits_of(text@);
    assert(d =~= text@.subrange(start as int, len as int));
    if start >= len {
        return Err(ParseError::Invalid);
    }
    let mut i: usize = start;
    while i < len
        invariant
            start <= i <= len,
            len == text@.len(),
            d == digits_of(text@),
            d =~= text@.subrange(start as int, len as int),
            forall|j: int| 0 <= j < i - start ==> #[trigger] is_digit(d[j]),
        decreases len - i,
    {
        let c = text.get_char(i);
        if !('0' <= c && c <= '9') {
            assert(d[i - start] == c);
            assert(!is_digit(d[i - start]));
            assert(!is_unsigned_text(text@));
            return Err(ParseError::Invalid);
        }
        i = i + 1;
    }
    assert(forall|j: int| 0 <= j < d.len() ==> #[trigger] is_digit(d[j]));
    let mut acc: u32 = 0;
    let mut i: usize = start;
    while i < len
        invariant
            start <= i <= len,
            len == text@.len(),
            d == digits_of(text@),
            d =~= text@.subrange(start as int, len as int),
            is_unsigned_text(text@),
            forall|j: int| 0 <= j < d.len() ==> #[trigger] is_digit(d[j]),
            acc == digits_value(d.take(i - start)),
        decreases len - i,
    {
        let c = text.get_char(i);
        assert(c == d[i - start]);
        assert(is_digit(c));
        let dv: u32 = (c as u32) - ('0' as u32);
        assert(d.take(i - start + 1).drop_last() =~= d.take(i - start));
        assert(d.take(i - start + 1).last() == c);
        assert(digits_value(d.take(i - start + 1)) == acc * 10 + dv);
        if acc > (u32::MAX - dv) / 10 {
            assert(acc * 10 + dv > u32::MAX) by (nonlinear_arith)
                requires
                    acc > (u32::MAX - dv) / 10,
                    dv <= 9,
            ;
            proof {
                lemma_prefix_value_le(d, i - start + 1);
            }
            return Err(ParseError::TooLarge);
        }
        acc = acc * 10 + dv;
        i = i + 1;
    }
    assert(d.take(len - start) =~= d);
    Ok(acc)
}

/// The one-character text of the digit `d`.
fn digit_text(d: u32) -> (r: &'static str)
    requires
        d < 10,
    ensures
        r@ == seq![digit_char(d as nat)],
{
    proof {
        reveal_strlit("0");
        reveal_strlit("1");
        reveal_strlit("2");
        reveal_strlit("3");
        reveal_strlit("4");
        reveal_strlit("5");
        reveal_strlit("6");
        reveal_strlit("7");
        reveal_strlit("8");
        reveal_strlit("9");
    }
    match d {
        0 => "0",
        1 => "1",
        2 => "2",
        3 => "3",
        4 => "4",
        5 => "5",
        6 => "6",
        7 => "7",
        8 => "8",
        _ => "9",
    }
}

/// Appends the decimal digits of `v` to `out`.
pub fn push_decimal(out: &mut String, v: u32)
    ensures
        final(out)@ == old(out)@ + decimal(v as nat),
    decreases v,
{
    if v >= 10 {
        push_decimal(out, v / 10);
    }
    out.append(digit_text(v % 10));
    assert(out@ =~= old(out)@ + decimal(v as nat));
}

} // verus!
