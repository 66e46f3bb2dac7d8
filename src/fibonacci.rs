//! The sequence position evaluator.
//!
//! The window starts at `two_back = 0`, `one_back = 1`, `current = 0` and is
//! advanced `n - 2` times (no times at all when `n < 2`). After `k` steps the
//! window holds `(F(k), F(k + 1), F(k + 1))` (with `current = 0` when `k = 0`),
//! so the reported value is `F(n - 1)` for `n >= 3` and `0` for `n <= 2`.
//!
//! Chosen resolution of the small positions: they are kept as the window
//! gives them, not corrected to the textbook values. Position `0` is reported
//! as "position 1 is 0"; positions `1` and `2` both report `0`.
use vstd::prelude::*;

use crate::decimal::{decimal, is_unsigned_text, parse_u32, push_decimal, text_value, ParseError};

verus! {

/// The Fibonacci recurrence: `F(0) = 0`, `F(1) = 1`, `F(k) = F(k - 1) + F(k - 2)`.
pub open spec fn fib(k: nat) -> nat
    decreases k,
{
    if k == 0 {
        0
    } else if k == 1 {
        1
    } else {
        fib((k - 1) as nat) + fib((k - 2) as nat)
    }
}

/// Number of window steps taken for position `n`: `max(0, n - 2)`.
pub open spec fn step_count(n: nat) -> nat {
    if n < 2 {
        0
    } else {
        (n - 2) as nat
    }
}

/// The value the window reports for position `n`.
pub open spec fn reported_value(n: nat) -> nat {
    if n < 3 {
        0
    } else {
        fib((n - 1) as nat)
    }
}

/// The position named in the report: position `0` is reported as `1`.
pub open spec fn reported_position(n: nat) -> nat {
    if n == 0 {
        1
    } else {
        n
    }
}

/// `F` never decreases.
pub proof fn lemma_fib_monotone(i: nat, j: nat)
    requires
        i <= j,
    ensures
        fib(i) <= fib(j),
    decreases j,
{
    if i < j {
        lemma_fib_monotone(i, (j - 1) as nat);
        if j >= 2 {
            assert(fib(j) == fib((j - 1) as nat) + fib((j - 2) as nat));
        }
    }
}

/// What the evaluator reports: the position as named in the message and the
/// value found there.
#[derive(Clone, Copy, Debug, PartialEq, Eq, Structural)]
pub struct FibReport {
    pub position: u32,
    pub value: u32,
}

/// Why the evaluator gives no report.
#[derive(Clone, Copy, Debug, PartialEq, Eq, Structural)]
pub enum FibError {
    /// The input text is not an unsigned decimal integer.
    NotANumber,
    /// The input text is a decimal integer above `u32::MAX`.
    PositionTooLarge,
    /// The value at the position does not fit in a `u32`.
    ValueOverflow,
}

/// Reports the value at position `n`, or `ValueOverflow` exactly when that
/// value does not fit in a `u32` (nothing wraps).
pub fn evaluate(n: u32) -> (r: Result<FibReport, FibError>)
    ensures
        r is Ok <==> reported_value(n as nat) <= u32::MAX,
        r matches Ok(rep) ==> rep.position == reported_position(n as nat)
            && rep.value == reported_value(n as nat),
        r matches Err(e) ==> e == FibError::ValueOverflow,
{
    if n == 0 {
        return Ok(FibReport { position: 1, value: 0 });
    }
    let steps: u32 = if n < 2 { 0 } else { n - 2 };
    let mut two_back: u32 = 0;
    let mut one_back: u32 = 1;
    let mut current: u32 = 0;
    let mut k: u32 = 0;
    while k < steps
        invariant
            steps == step_count(n as nat),
            k <= steps,
            two_back == fib(k as nat),
            one_back == fib(k as nat + 1),
            current == if k == 0 { 0 } else { fib(k as nat + 1) },
        decreases steps - k,
    {
        assert(fib(k as nat + 2) == fib(k as nat + 1) + fib(k as nat));
        if one_back > u32::MAX - two_back {
            proof {
                lemma_fib_monotone(k as nat + 2, (n - 1) as nat);
            }
            return Err(FibError::ValueOverflow);
        }
        current = one_back + two_back;
        two_back = one_back;
        one_back = current;
        k = k + 1;
    }
    Ok(FibReport { position: n, value: current })
}

/// What `evaluate_text` gives for the text `s`.
pub open spec fn text_outcome(s: Seq<char>) -> Result<FibReport, FibError> {
    if !is_unsigned_text(s) {
        Err(FibError::NotANumber)
    } else if text_value(s) > u32::MAX {
        Err(FibError::PositionTooLarge)
    } else if reported_value(text_value(s)) > u32::MAX {
        Err(FibError::ValueOverflow)
    } else {
        Ok(
            FibReport {
                position: reported_position(text_value(s)) as u32,
                value: reported_value(text_value(s)) as u32,
            },
        )
    }
}

/// Reads a position from `text` (an unsigned decimal integer, already
/// trimmed) and evaluates it.
pub fn evaluate_text(text: &str) -> (r: Result<FibReport, FibError>)
    ensures
        r == text_outcome(text@),
{
    match parse_u32(text) {
        Err(ParseError::Invalid) => Err(FibError::NotANumber),
        Err(ParseError::TooLarge) => Err(FibError::PositionTooLarge),
        Ok(n) => evaluate(n),
    }
}

/// The text of a report, "The fibonacci number at position {p} is {v}", as a
/// sequence of characters.
pub open spec fn message_of(position: nat, value: nat) -> Seq<char> {
    "The fibonacci number at position "@ + decimal(position) + " is "@ + decimal(value)
}

impl FibReport {
    /// The line printed for this report.
    pub fn message(&self) -> (r: String)
        ensures
            r@ == message_of(self.position as nat, self.value as nat),
    {
        let mut out = String::from_str("The fibonacci number at position ");
        push_decimal(&mut out, self.position);
        out.append(" is ");
        push_decimal(&mut out, self.value);
        out
    }
}

} // verus!
