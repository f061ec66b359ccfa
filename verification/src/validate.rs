//! The move validator: parses a raw textual coordinate pair and checks it
//! against board bounds and occupancy.
//!
//! The input must split into exactly two comma-separated tokens; each token
//! must parse as a non-negative integer (digits with an optional leading
//! `+`); both values must lie in [0, 3); the target cell must be `Empty`.
//! Surrounding ASCII whitespace is tolerated. Failures are reported in that
//! order, one specific reason each; the validator never mutates the board
//! and never loops on bad input — re-prompting is its caller's job.

use vstd::prelude::*;
use vstd::string::StringSliceAdditionalSpecFns;
use crate::board::Board;
use crate::board::CellState;
use crate::board::idx;

verus! {

/// Why a move was rejected, most specific reason first in checking order.
#[derive(Clone, Copy, PartialEq, Eq, Structural, Debug)]
pub enum MoveError {
    /// The input does not split into exactly two comma-separated tokens.
    MalformedInput,
    /// A token is not a non-negative integer.
    NonNumericCoordinate,
    /// A coordinate lies outside [0, 3).
    OutOfBoundsCoordinate,
    /// The addressed cell is already occupied.
    OccupiedCell,
}

/// An ASCII whitespace byte (space, tab, line feed, vertical tab, form
/// feed, carriage return).
pub open spec fn is_ws(b: u8) -> bool {
    b == 32 || b == 9 || b == 10 || b == 11 || b == 12 || b == 13
}

/// An ASCII decimal digit.
pub open spec fn is_digit(b: u8) -> bool {
    48 <= b <= 57
}

/// The comma byte.
pub open spec fn is_comma(b: u8) -> bool {
    b == 44
}

/// `s` without leading whitespace.
pub open spec fn trim_start(s: Seq<u8>) -> Seq<u8>
    decreases s.len(),
{
    if s.len() > 0 && is_ws(s[0]) {
        trim_start(s.drop_first())
    } else {
        s
    }
}

/// `s` without trailing whitespace.
pub open spec fn trim_end(s: Seq<u8>) -> Seq<u8>
    decreases s.len(),
{
    if s.len() > 0 && is_ws(s.last()) {
        trim_end(s.drop_last())
    } else {
        s
    }
}

/// `s` without surrounding whitespace.
pub open spec fn spec_trim(s: Seq<u8>) -> Seq<u8> {
    trim_end(trim_start(s))
}

/// How many commas `s` holds.
pub open spec fn comma_count(s: Seq<u8>) -> nat
    decreases s.len(),
{
    if s.len() == 0 {
        0
    } else {
        comma_count(s.drop_last()) + if is_comma(s.last()) {
            1nat
        } else {
            0nat
        }
    }
}

/// The position of the first comma of `s`, or `s.len()` if there is none.
pub open spec fn first_comma(s: Seq<u8>) -> int
    decreases s.len(),
{
    if s.len() == 0 {
        0
    } else if is_comma(s[0]) {
        0
    } else {
        1 + first_comma(s.drop_first())
    }
}

/// The digits of a token: one optional leading `+` is stripped.
pub open spec fn digits_of(s: Seq<u8>) -> Seq<u8> {
    if s.len() > 0 && s[0] == 43 {
        s.drop_first()
    } else {
        s
    }
}

/// Every byte of `s` is a decimal digit.
pub open spec fn all_digits(s: Seq<u8>) -> bool {
    forall|i: int| 0 <= i < s.len() ==> is_digit(s[i])
}

/// A token parses as a non-negative integer: at least one digit after the
/// optional sign, and nothing but digits.
pub open spec fn is_numeric(s: Seq<u8>) -> bool {
    digits_of(s).len() > 0 && all_digits(digits_of(s))
}

/// The value of a digit string, most significant digit first.
pub open spec fn num_value(digits: Seq<u8>) -> int
    decreases digits.len(),
{
    if digits.len() == 0 {
        0
    } else {
        num_value(digits.drop_last()) * 10 + (digits.last() - 48)
    }
}

/// `n` capped at 10: values of 10 and beyond are alike to a validator that
/// only compares against the board side.
pub open spec fn capped(n: int) -> int {
    if n >= 10 {
        10
    } else {
        n
    }
}

/// What validating `input` against board `b` yields: the validated
/// coordinates, or the first failing check's rejection reason in the
/// fixed order malformed, non-numeric, out-of-bounds, occupied.
pub open spec fn spec_validate(input: Seq<u8>, b: Seq<CellState>) -> Result<
    (int, int),
    MoveError,
> {
    let t = spec_trim(input);
    if comma_count(t) != 1 {
        Err(MoveError::MalformedInput)
    } else {
        let p = first_comma(t);
        let row_tok = t.take(p);
        let col_tok = t.skip(p + 1);
        if !is_numeric(row_tok) || !is_numeric(col_tok) {
            Err(MoveError::NonNumericCoordinate)
        } else {
            let row = num_value(digits_of(row_tok));
            let col = num_value(digits_of(col_tok));
            if row >= 3 || col >= 3 {
                Err(MoveError::OutOfBoundsCoordinate)
            } else if b[idx(row, col)] !is Empty {
                Err(MoveError::OccupiedCell)
            } else {
                Ok((row, col))
            }
        }
    }
}

/// A comma at `p` with none before it is the first comma.
proof fn lemma_first_comma_at(s: Seq<u8>, p: int)
    requires
        0 <= p < s.len(),
        is_comma(s[p]),
        forall|k: int| 0 <= k < p ==> !is_comma(s[k]),
    ensures
        first_comma(s) == p,
    decreases p,
{
    if p > 0 {
        assert(!is_comma(s[0]));
        assert(forall|k: int| 0 <= k < p - 1 ==> s.drop_first()[k] == s[k + 1]);
        lemma_first_comma_at(s.drop_first(), p - 1);
    }
}

/// The byte range [lo, hi) of `s` that remains once surrounding whitespace
/// is dropped.
fn trim_bounds(s: &[u8]) -> (r: (usize, usize))
    ensures
        r.0 <= r.1 <= s@.len(),
        spec_trim(s@) == s@.subrange(r.0 as int, r.1 as int),
{
    let n: usize = s.len();
    let mut lo: usize = 0;
    proof {
        assert(s@.skip(0) =~= s@);
    }
    while lo < n && is_ws_byte(s[lo])
        invariant
            lo <= n,
            n == s@.len(),
            trim_start(s@) == trim_start(s@.skip(lo as int)),
        decreases n - lo,
    {
        proof {
            assert(s@.skip(lo as int).drop_first() =~= s@.skip(lo as int + 1));
        }
        lo = lo + 1;
    }
    proof {
        assert(trim_start(s@) =~= s@.skip(lo as int));
        assert(s@.skip(lo as int) =~= s@.subrange(lo as int, n as int));
    }
    let mut hi: usize = n;
    while hi > lo && is_ws_byte(s[hi - 1])
        invariant
            lo <= hi <= n,
            n == s@.len(),
            spec_trim(s@) == trim_end(s@.subrange(lo as int, hi as int)),
        decreases hi,
    {
        proof {
            assert(s@.subrange(lo as int, hi as int).drop_last() =~= s@.subrange(
                lo as int,
                hi as int - 1,
            ));
        }
        hi = hi - 1;
    }
    proof {
        assert(spec_trim(s@) =~= s@.subrange(lo as int, hi as int));
    }
    (lo, hi)
}

/// Whether `b` is ASCII whitespace.
fn is_ws_byte(b: u8) -> (r: bool)
    ensures
        r == is_ws(b),
{
    b == 32 || b == 9 || b == 10 || b == 11 || b == 12 || b == 13
}

/// Scans [lo, hi) of `s` for commas: how many there are, and where the
/// first one stands.
fn comma_scan(s: &[u8], lo: usize, hi: usize) -> (r: (usize, usize))
    requires
        lo <= hi <= s@.len(),
    ensures
        r.0 == comma_count(s@.subrange(lo as int, hi as int)),
        r.0 >= 1 ==> lo <= r.1 < hi && is_comma(s@[r.1 as int]) && forall|k: int|
            lo <= k < r.1 ==> !is_comma(s@[k]),
{
    let mut count: usize = 0;
    let mut first: usize = lo;
    let mut i: usize = lo;
    while i < hi
        invariant
            lo <= i <= hi <= s@.len(),
            count <= i - lo,
            count == comma_count(s@.subrange(lo as int, i as int)),
            count >= 1 ==> lo <= first < i && is_comma(s@[first as int]) && forall|k: int|
                lo <= k < first ==> !is_comma(s@[k]),
            count == 0 ==> forall|k: int| lo <= k < i ==> !is_comma(s@[k]),
        decreases hi - i,
    {
        proof {
            assert(s@.subrange(lo as int, i as int + 1).drop_last() =~= s@.subrange(
                lo as int,
                i as int,
            ));
        }
        if s[i] == 44 {
            if count == 0 {
                first = i;
            }
            count = count + 1;
        }
        i = i + 1;
    }
    (count, first)
}

/// Parses the token at [from, to) of `s` as a non-negative integer, its
/// value capped at 10; `None` exactly when the token is not numeric.
fn parse_coord(s: &[u8], from: usize, to: usize) -> (r: Option<u8>)
    requires
        from <= to <= s@.len(),
    ensures
        match r {
            Some(v) => is_numeric(s@.subrange(from as int, to as int)) && v == capped(
                num_value(digits_of(s@.subrange(from as int, to as int))),
            ),
            None => !is_numeric(s@.subrange(from as int, to as int)),
        },
{
    let ghost tok = s@.subrange(from as int, to as int);
    let mut i: usize = from;
    if i < to && s[i] == 43 {
        i = i + 1;
    }
    let ghost d0 = i as int;
    proof {
        assert(digits_of(tok) =~= s@.subrange(d0, to as int));
    }
    if i == to {
        return None;
    }
    let mut v: u8 = 0;
    while i < to
        invariant
            from as int <= d0 <= i as int <= to as int <= s@.len(),
            d0 < to as int,
            tok == s@.subrange(from as int, to as int),
            digits_of(tok) =~= s@.subrange(d0, to as int),
            all_digits(s@.subrange(d0, i as int)),
            v == capped(num_value(s@.subrange(d0, i as int))),
        decreases to - i,
    {
        let b = s[i];
        if b < 48 || b > 57 {
            proof {
                assert(!is_digit(digits_of(tok)[i as int - d0]));
            }
            return None;
        }
        proof {
            assert(s@.subrange(d0, i as int + 1).drop_last() =~= s@.subrange(d0, i as int));
        }
        if v >= 1 {
            v = 10;
        } else {
            v = b - 48;
        }
        i = i + 1;
    }
    Some(v)
}

/// Validates a raw textual coordinate pair against the current board:
/// the coordinates of an empty in-bounds cell, or the specific rejection
/// reason. Never mutates the board; writing a validated move is a separate
/// explicit step for the caller.
pub fn validate_move(input: &str, board: &Board) -> (r: Result<(usize, usize), MoveError>)
    requires
        board.wf(),
    ensures
        match r {
            Ok(p) => {
                &&& spec_validate(input.spec_bytes(), board@) matches Ok(q) && q.0 == p.0
                    && q.1 == p.1
                &&& p.0 < 3
                &&& p.1 < 3
                &&& board@[idx(p.0 as int, p.1 as int)] is Empty
            },
            Err(e) => spec_validate(input.spec_bytes(), board@) matches Err(e2) && e == e2,
        },
{
    let s = input.as_bytes();
    let ghost t = spec_trim(s@);
    let (lo, hi) = trim_bounds(s);
    let (count, comma) = comma_scan(s, lo, hi);
    if count != 1 {
        return Err(MoveError::MalformedInput);
    }
    proof {
        assert(forall|k: int| 0 <= k < comma - lo ==> t[k] == s@[lo + k] && !is_comma(t[k]));
        lemma_first_comma_at(t, comma as int - lo as int);
        assert(t.take(comma - lo) =~= s@.subrange(lo as int, comma as int));
        assert(t.skip(comma - lo + 1) =~= s@.subrange(comma as int + 1, hi as int));
    }
    let row_v = parse_coord(s, lo, comma);
    let col_v = parse_coord(s, comma + 1, hi);
    match (row_v, col_v) {
        (Some(rv), Some(cv)) => {
            if rv >= 3 || cv >= 3 {
                Err(MoveError::OutOfBoundsCoordinate)
            } else {
                let row = rv as usize;
                let col = cv as usize;
                if matches!(board.at(row, col), CellState::Empty) {
                    Ok((row, col))
                } else {
                    Err(MoveError::OccupiedCell)
                }
            }
        },
        _ => Err(MoveError::NonNumericCoordinate),
    }
}

/// The corrective message owed for a rejection, one per reason.
pub fn message(e: MoveError) -> (m: &'static str)
    ensures
        e is MalformedInput ==> m@ == "Please enter the coordinates in the format: x,y"@,
        e is NonNumericCoordinate ==> m@ == "Invalid input. Please enter valid numbers."@,
        e is OutOfBoundsCoordinate ==> m@ == "Coordinates out of bounds. Please try again."@,
        e is OccupiedCell ==> m@ == "Invalid move. Cell is already occupied. Try again."@,
{
    match e {
        MoveError::MalformedInput => "Please enter the coordinates in the format: x,y",
        MoveError::NonNumericCoordinate => "Invalid input. Please enter valid numbers.",
        MoveError::OutOfBoundsCoordinate => "Coordinates out of bounds. Please try again.",
        MoveError::OccupiedCell => "Invalid move. Cell is already occupied. Try again.",
    }
}

} // verus!
