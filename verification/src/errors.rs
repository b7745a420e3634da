//! The error translator: a raw OS failure becomes one member of a fixed
//! symbolic error set, so that callers in another runtime can match on the
//! failure cause without reading platform errno values.

use vstd::prelude::*;
use vstd::string::StringExecFns;

verus! {

/// The errno values the platform xattr interface is documented to return,
/// plus the common filesystem failure codes.
pub const EPERM: i32 = 1;

pub const ENOENT: i32 = 2;

pub const E2BIG: i32 = 7;

pub const EAGAIN: i32 = 11;

pub const EFAULT: i32 = 14;

pub const ENOSPC: i32 = 28;

pub const ERANGE: i32 = 34;

pub const ENODATA: i32 = 61;

pub const ENOTSUP: i32 = 95;

pub const EDQUOT: i32 = 122;

/// A raw OS failure, exactly as the platform reports it: the errno value
/// when the failure has one, and the descriptive message text.
#[derive(Clone, Debug)]
pub struct OsError {
    pub code: Option<i32>,
    pub message: String,
}

/// The closed symbolic error set. Each plain member stands for one
/// documented failure cause of the platform xattr interface; the two
/// fallback members keep the translation total and lossless: a numeric
/// code outside the table is carried as its decimal text, and a failure
/// with no errno at all carries the OS message verbatim.
#[derive(Clone, Debug, PartialEq, Eq)]
pub enum ErrorKind {
    /// The caller lacks the rights to read or modify the attribute.
    PermissionDenied,
    /// The path does not exist.
    NotFound,
    /// The name or value exceeds a platform limit.
    ArgumentListTooLong,
    /// The resource is temporarily unavailable; the caller may retry.
    TryAgain,
    /// An invalid memory or buffer reference at the OS boundary.
    BadAddress,
    /// Insufficient storage for the attribute.
    NoSpace,
    /// A buffer too small for the requested data.
    ResultTooLarge,
    /// The named attribute does not exist on the path.
    AttributeNotFound,
    /// The filesystem or path does not support extended attributes.
    NotSupported,
    /// The attribute storage quota is exceeded.
    QuotaExceeded,
    /// An errno with no symbolic mapping, as decimal text.
    NumericFallback(String),
    /// A failure with no errno; the OS message text, preserved.
    MessageFallback(String),
}

/// The character for one decimal digit.
pub open spec fn digit_char(d: nat) -> char {
    if d == 0 {
        '0'
    } else if d == 1 {
        '1'
    } else if d == 2 {
        '2'
    } else if d == 3 {
        '3'
    } else if d == 4 {
        '4'
    } else if d == 5 {
        '5'
    } else if d == 6 {
        '6'
    } else if d == 7 {
        '7'
    } else if d == 8 {
        '8'
    } else {
        '9'
    }
}

/// The decimal digits of `n`, most significant first, with no leading
/// zeros (`n == 0` is the single digit `0`).
pub open spec fn dec_seq(n: nat) -> Seq<char>
    decreases n,
{
    if n < 10 {
        seq![digit_char(n)]
    } else {
        dec_seq(n / 10).push(digit_char(n % 10))
    }
}

/// The decimal text of an integer: a minus sign before the digits when it
/// is negative.
pub open spec fn int_dec_seq(v: int) -> Seq<char> {
    if v < 0 {
        seq!['-'] + dec_seq((-v) as nat)
    } else {
        dec_seq(v as nat)
    }
}

/// The symbolic member for a recognized errno, or `None` where the table
/// has no entry and translation falls through to the numeric fallback.
pub open spec fn code_symbol(c: i32) -> Option<ErrorKind> {
    if c == EPERM {
        Some(ErrorKind::PermissionDenied)
    } else if c == ENOENT {
        Some(ErrorKind::NotFound)
    } else if c == E2BIG {
        Some(ErrorKind::ArgumentListTooLong)
    } else if c == EAGAIN {
        Some(ErrorKind::TryAgain)
    } else if c == EFAULT {
        Some(ErrorKind::BadAddress)
    } else if c == ENOSPC {
        Some(ErrorKind::NoSpace)
    } else if c == ERANGE {
        Some(ErrorKind::ResultTooLarge)
    } else if c == ENODATA {
        Some(ErrorKind::AttributeNotFound)
    } else if c == ENOTSUP {
        Some(ErrorKind::NotSupported)
    } else if c == EDQUOT {
        Some(ErrorKind::QuotaExceeded)
    } else {
        None
    }
}

/// What the translation of a raw OS failure must be: the table member for
/// a recognized errno; the decimal text of an unrecognized errno; the OS
/// message verbatim where no errno exists. Exactly one `ErrorKind` (up to
/// the text it carries) satisfies this for each failure.
pub open spec fn translates_to(code: Option<i32>, message: Seq<char>, r: ErrorKind) -> bool {
    match code {
        Some(c) => match code_symbol(c) {
            Some(k) => r == k,
            None => r matches ErrorKind::NumericFallback(s) && s@ == int_dec_seq(c as int),
        },
        None => r matches ErrorKind::MessageFallback(s) && s@ == message,
    }
}

/// The one-character string for a decimal digit.
fn digit_str(d: u64) -> (r: &'static str)
    requires
        d < 10,
    ensures
        r@ == seq![digit_char(d as nat)],
{
    proof {
        reveal_strlit("0");
        reveal_strlit("1");
        reveal_strlit("2");
        reveal_strlit("3");
        reveal_strlit("4");
        reveal_strlit("5");
        reveal_strlit("6");
        reveal_strlit("7");
        reveal_strlit("8");
        reveal_strlit("9");
    }
    let r: &'static str = if d == 0 {
        "0"
    } else if d == 1 {
        "1"
    } else if d == 2 {
        "2"
    } else if d == 3 {
        "3"
    } else if d == 4 {
        "4"
    } else if d == 5 {
        "5"
    } else if d == 6 {
        "6"
    } else if d == 7 {
        "7"
    } else if d == 8 {
        "8"
    } else {
        "9"
    };
    proof {
        assert(r@ =~= seq![digit_char(d as nat)]);
    }
    r
}

/// Appends the decimal digits of `n` to `out`, most significant first.
fn push_dec(n: u64, out: &mut String)
    ensures
        final(out)@ == old(out)@ + dec_seq(n as nat),
    decreases n,
{
    if n >= 10 {
        push_dec(n / 10, out);
    }
    out.append(digit_str(n % 10));
    proof {
        assert(out@ =~= old(out)@ + dec_seq(n as nat));
    }
}

/// The decimal text of `code`, as `NumericFallback` carries it.
pub fn decimal_text(code: i32) -> (r: String)
    ensures
        r@ == int_dec_seq(code as int),
{
    let mut out: String = String::new();
    if code < 0 {
        proof {
            reveal_strlit("-");
        }
        out.append("-");
        let magnitude: u64 = (-(code as i64)) as u64;
        push_dec(magnitude, &mut out);
        proof {
            assert(out@ =~= int_dec_seq(code as int));
        }
    } else {
        push_dec(code as u64, &mut out);
    }
    out
}

/// Error-mapping fidelity for a missing path: a raw failure whose errno
/// says the path does not exist always translates to `NotFound`, whatever
/// the message text and whichever operation made the call — every
/// operation reports its failures through this translation.
pub proof fn lemma_missing_path_is_not_found(message: Seq<char>, r: ErrorKind)
    requires
        translates_to(Some(ENOENT), message, r),
    ensures
        r == ErrorKind::NotFound,
{
}

/// The error translator. Total: every raw OS failure maps to a value, the
/// recognized errnos to their table members, the rest to a fallback that
/// loses nothing.
pub fn translate(err: &OsError) -> (r: ErrorKind)
    ensures
        translates_to(err.code, err.message@, r),
{
    match err.code {
        Some(c) => {
            if c == EPERM {
                ErrorKind::PermissionDenied
            } else if c == ENOENT {
                ErrorKind::NotFound
            } else if c == E2BIG {
                ErrorKind::ArgumentListTooLong
            } else if c == EAGAIN {
                ErrorKind::TryAgain
            } else if c == EFAULT {
                ErrorKind::BadAddress
            } else if c == ENOSPC {
                ErrorKind::NoSpace
            } else if c == ERANGE {
                ErrorKind::ResultTooLarge
            } else if c == ENODATA {
                ErrorKind::AttributeNotFound
            } else if c == ENOTSUP {
                ErrorKind::NotSupported
            } else if c == EDQUOT {
                ErrorKind::QuotaExceeded
            } else {
                ErrorKind::NumericFallback(decimal_text(c))
            }
        },
        None => ErrorKind::MessageFallback(err.message.clone()),
    }
}

} // verus!
