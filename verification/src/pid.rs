//! The lock file's contents: one process identifier as decimal ASCII digits,
//! with no sign, no whitespace and no terminator.

use vstd::prelude::*;
use crate::error::GuardError;

verus! {

/// The byte is one of the ASCII digits `0` to `9`.
pub open spec fn is_digit(b: u8) -> bool {
    48 <= b <= 57
}

/// Every byte of `s` is an ASCII digit.
pub open spec fn all_digits(s: Seq<u8>) -> bool {
    forall|i: int| 0 <= i < s.len() ==> is_digit(#[trigger] s[i])
}

/// The number that a string of digits denotes in base ten, most significant
/// digit first. The empty string denotes zero.
pub open spec fn decimal_value(s: Seq<u8>) -> nat
    decreases s.len(),
{
    if s.len() == 0 {
        0
    } else {
        (decimal_value(s.drop_last()) * 10 + (s.last() - 48)) as nat
    }
}

/// `s` is a process identifier as the lock file holds it: at least one digit,
/// digits only, and a value that fits the identifier's 32 bits. Leading zeros
/// are digits like any other.
pub open spec fn names_pid(s: Seq<u8>) -> bool {
    &&& s.len() > 0
    &&& all_digits(s)
    &&& decimal_value(s) <= u32::MAX
}

/// What the lock file's contents say about a previous holder. An empty file
/// was never written and names nobody; anything else names a process or is
/// corrupt.
pub open spec fn recorded_holder(s: Seq<u8>) -> Result<Option<u32>, GuardError> {
    if s.len() == 0 {
        Ok(None)
    } else if names_pid(s) {
        Ok(Some(decimal_value(s) as u32))
    } else {
        Err(GuardError::CorruptLockContents)
    }
}

/// The shortest decimal representation of `n`: no leading zero, except for
/// zero itself, which is the single digit `0`.
pub open spec fn decimal_digits(n: nat) -> Seq<u8>
    decreases n,
{
    if n < 10 {
        seq![(48 + n) as u8]
    } else {
        decimal_digits(n / 10).push((48 + n % 10) as u8)
    }
}

/// A prefix of a digit string denotes no more than the whole string.
proof fn lemma_prefix_value_bounded(s: Seq<u8>, k: int)
    requires
        all_digits(s),
        0 <= k <= s.len(),
    ensures
        decimal_value(s.take(k)) <= decimal_value(s),
    decreases s.len() - k,
{
    if k == s.len() {
        assert(s.take(k) =~= s);
    } else {
        let whole = s.take(k + 1);
        assert(whole.drop_last() =~= s.take(k));
        assert(is_digit(whole.last()));
        lemma_prefix_value_bounded(s, k + 1);
    }
}

/// Reads the lock file's contents.
///
/// Returns `Ok(None)` for an empty file, `Ok(Some(pid))` where the bytes are
/// the decimal digits of `pid`, and `CorruptLockContents` for everything else:
/// a byte that is no digit, or a number too large to be an identifier.
pub fn parse_pid(contents: &[u8]) -> (r: Result<Option<u32>, GuardError>)
    ensures
        r == recorded_holder(contents@),
{
    if contents.len() == 0 {
        return Ok(None);
    }
    let mut value: u32 = 0;
    let mut i: usize = 0;
    while i < contents.len()
        invariant
            i <= contents.len(),
            all_digits(contents@.take(i as int)),
            decimal_value(contents@.take(i as int)) == value,
        decreases contents.len() - i,
    {
        let b: u8 = contents[i];
        if b < 48 || b > 57 {
            assert(!is_digit(contents@[i as int]));
            return Err(GuardError::CorruptLockContents);
        }
        let digit: u32 = (b - 48) as u32;
        proof {
            let longer = contents@.take(i + 1);
            assert(longer.drop_last() =~= contents@.take(i as int));
            assert(longer.last() == b);
            assert(decimal_value(longer) == value * 10 + digit);
            assert forall|j: int| 0 <= j < longer.len() implies is_digit(#[trigger] longer[j]) by {
                if j < i {
                    assert(longer[j] == contents@.take(i as int)[j]);
                }
            }
        }
        if value > (u32::MAX - digit) / 10 {
            proof {
                if all_digits(contents@) {
                    lemma_prefix_value_bounded(contents@, i + 1);
                }
            }
            return Err(GuardError::CorruptLockContents);
        }
        value = value * 10 + digit;
        i = i + 1;
    }
    proof {
        assert(contents@.take(i as int) =~= contents@);
    }
    Ok(Some(value))
}

/// Writes a process identifier as the lock file holds it.
pub fn render_pid(pid: u32) -> (r: Vec<u8>)
    ensures
        r@ == decimal_digits(pid as nat),
    decreases pid,
{
    if pid < 10 {
        let digit: u8 = 48 + pid as u8;
        let r = vec![digit];
        assert(r@ =~= decimal_digits(pid as nat));
        r
    } else {
        let mut r = render_pid(pid / 10);
        let digit: u8 = 48 + (pid % 10) as u8;
        r.push(digit);
        r
    }
}

/// Rendering is the inverse of reading: the digits written for `n` are digits
/// only, at least one, and denote `n`.
pub proof fn lemma_digits_denote(n: nat)
    ensures
        decimal_digits(n).len() > 0,
        all_digits(decimal_digits(n)),
        decimal_value(decimal_digits(n)) == n,
    decreases n,
{
    let s = decimal_digits(n);
    if n < 10 {
        assert(s.drop_last() =~= Seq::<u8>::empty());
        assert(decimal_value(s.drop_last()) == 0);
    } else {
        lemma_digits_denote(n / 10);
        assert(s.drop_last() =~= decimal_digits(n / 10));
        assert(s.last() == (48 + n % 10) as u8);
    }
}

/// What one launcher records, the next one reads: the contents written for
/// `pid` are never empty, never corrupt, and name `pid` again.
pub proof fn law_written_pid_is_read_back(pid: u32)
    ensures
        recorded_holder(decimal_digits(pid as nat)) == Ok::<Option<u32>, GuardError>(Some(pid)),
{
    lemma_digits_denote(pid as nat);
}

} // verus!
