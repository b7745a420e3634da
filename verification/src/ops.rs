//! The attribute operations: list, existence check, get, set, remove.
//!
//! Each operation makes one call into the platform xattr interface and
//! then interprets the raw response in verified code: the success payload
//! is marshalled byte-for-byte, an absent attribute is reported as
//! [`ErrorKind::AttributeNotFound`], and every OS failure goes through
//! [`translate`]. What the OS answers depends on the filesystem at the
//! moment of the call, so each operation's contract says what holds of
//! every possible response; the interpretation of one fixed response is
//! pinned exactly by the `*_outcome` functions.

use vstd::prelude::*;

use crate::errors::{translate, translates_to, ErrorKind, OsError, ENODATA};
use crate::marshal::to_external;

verus! {

/// Relies on xattr::get: reads one extended attribute of `path`;
/// `Ok(Some(v))` holds the value's bytes, `Ok(None)` means the attribute
/// is absent (the crate folds the no-data errno into `None`). The failure
/// is reduced to its errno (io::Error::raw_os_error) and display text.
#[verifier::external_body]
fn os_get(path: &str, name: &str) -> (r: Result<Option<Vec<u8>>, OsError>) {
    match xattr::get(path, name) {
        Ok(v) => Ok(v),
        Err(e) => Err(OsError { code: e.raw_os_error(), message: e.to_string() }),
    }
}

/// Relies on xattr::set: writes `value` as the attribute `name` of
/// `path`, replacing any previous value. The failure is reduced to its
/// errno (io::Error::raw_os_error) and display text.
#[verifier::external_body]
fn os_set(path: &str, name: &str, value: &[u8]) -> (r: Result<(), OsError>) {
    match xattr::set(path, name, value) {
        Ok(()) => Ok(()),
        Err(e) => Err(OsError { code: e.raw_os_error(), message: e.to_string() }),
    }
}

/// Relies on xattr::remove: removes the attribute `name` of `path`; an
/// absent attribute is a failure with the no-data errno. The failure is
/// reduced to its errno (io::Error::raw_os_error) and display text.
#[verifier::external_body]
fn os_remove(path: &str, name: &str) -> (r: Result<(), OsError>) {
    match xattr::remove(path, name) {
        Ok(()) => Ok(()),
        Err(e) => Err(OsError { code: e.raw_os_error(), message: e.to_string() }),
    }
}

/// Relies on xattr::list: the names of the attributes of `path`, in
/// platform order, each converted to its raw bytes
/// (OsString::into_encoded_bytes, the identity encoding on Unix). The
/// failure is reduced to its errno (io::Error::raw_os_error) and display
/// text.
#[verifier::external_body]
fn os_list(path: &str) -> (r: Result<Vec<Vec<u8>>, OsError>) {
    match xattr::list(path) {
        Ok(names) => Ok(names.map(|n| n.into_encoded_bytes()).collect()),
        Err(e) => Err(OsError { code: e.raw_os_error(), message: e.to_string() }),
    }
}

/// How a get operation reports one raw OS response: a present value is
/// handed back byte-for-byte, an absent attribute is the explicit
/// `AttributeNotFound` failure — never an empty success payload — and an
/// OS failure is translated.
pub open spec fn get_outcome_rel(
    raw: Result<Option<Vec<u8>>, OsError>,
    r: Result<Vec<u8>, ErrorKind>,
) -> bool {
    match raw {
        Ok(Some(v)) => r matches Ok(w) && w@ == v@,
        Ok(None) => r matches Err(k) && k == ErrorKind::AttributeNotFound,
        Err(e) => r matches Err(k) && translates_to(e.code, e.message@, k),
    }
}

/// How an existence check reports one raw OS response: exactly "a value
/// was returned". An absent attribute is a successful `false`, not a
/// failure; an OS failure is translated.
pub open spec fn has_outcome_rel(
    raw: Result<Option<Vec<u8>>, OsError>,
    r: Result<bool, ErrorKind>,
) -> bool {
    match raw {
        Ok(v) => r == Ok::<bool, ErrorKind>(v is Some),
        Err(e) => r matches Err(k) && translates_to(e.code, e.message@, k),
    }
}

/// How a unit operation (set, remove) reports one raw OS response:
/// success stays success, an OS failure is translated.
pub open spec fn unit_outcome_rel(raw: Result<(), OsError>, r: Result<(), ErrorKind>) -> bool {
    match raw {
        Ok(u) => r == Ok::<(), ErrorKind>(u),
        Err(e) => r matches Err(k) && translates_to(e.code, e.message@, k),
    }
}

/// How a list operation reports one raw OS response: all the names or
/// none — each name marshalled byte-for-byte, in the OS's order, never a
/// truncated sequence — and an OS failure is translated.
pub open spec fn list_outcome_rel(
    raw: Result<Vec<Vec<u8>>, OsError>,
    r: Result<Vec<Vec<u8>>, ErrorKind>,
) -> bool {
    match raw {
        Ok(names) => r matches Ok(out) && out@.len() == names@.len() && (forall|i: int|
            0 <= i < names@.len() ==> out@[i]@ == names@[i]@),
        Err(e) => r matches Err(k) && translates_to(e.code, e.message@, k),
    }
}

/// Interprets the raw response of a get: marshals a present value,
/// reports an absent attribute explicitly, translates a failure.
pub fn get_outcome(raw: &Result<Option<Vec<u8>>, OsError>) -> (r: Result<Vec<u8>, ErrorKind>)
    ensures
        get_outcome_rel(*raw, r),
{
    match raw {
        Ok(Some(v)) => Ok(to_external(v.as_slice())),
        Ok(None) => Err(ErrorKind::AttributeNotFound),
        Err(e) => Err(translate(e)),
    }
}

/// Interprets the raw response of an existence check: present iff a
/// value came back.
pub fn has_outcome(raw: &Result<Option<Vec<u8>>, OsError>) -> (r: Result<bool, ErrorKind>)
    ensures
        has_outcome_rel(*raw, r),
{
    match raw {
        Ok(v) => Ok(v.is_some()),
        Err(e) => Err(translate(e)),
    }
}

/// Interprets the raw response of a set or a remove.
pub fn unit_outcome(raw: &Result<(), OsError>) -> (r: Result<(), ErrorKind>)
    ensures
        unit_outcome_rel(*raw, r),
{
    match raw {
        Ok(_) => Ok(()),
        Err(e) => Err(translate(e)),
    }
}

/// Interprets the raw response of a list: each name independently
/// marshalled, appended in the order the OS gave.
pub fn list_outcome(raw: &Result<Vec<Vec<u8>>, OsError>) -> (r: Result<Vec<Vec<u8>>, ErrorKind>)
    ensures
        list_outcome_rel(*raw, r),
{
    match raw {
        Ok(names) => {
            let n: usize = names.len();
            let mut out: Vec<Vec<u8>> = Vec::with_capacity(n);
            let mut i: usize = 0;
            while i < n
                invariant
                    i <= n,
                    n == names@.len(),
                    out@.len() == i,
                    forall|j: int| 0 <= j < i ==> out@[j]@ == names@[j]@,
                decreases n - i,
            {
                out.push(to_external(names[i].as_slice()));
                i = i + 1;
            }
            Ok(out)
        },
        Err(e) => Err(translate(e)),
    }
}

/// Existence predicate consistency: read off the same raw OS response,
/// the existence check answers true exactly when the get succeeds; and
/// when it answers false, the get reports the attribute absent.
pub proof fn lemma_has_iff_get(
    raw: Result<Option<Vec<u8>>, OsError>,
    rhas: Result<bool, ErrorKind>,
    rget: Result<Vec<u8>, ErrorKind>,
)
    requires
        has_outcome_rel(raw, rhas),
        get_outcome_rel(raw, rget),
    ensures
        rhas == Ok::<bool, ErrorKind>(true) <==> rget is Ok,
        rhas == Ok::<bool, ErrorKind>(false) ==> (rget matches Err(k) && k
            == ErrorKind::AttributeNotFound),
{
}

/// Idempotent removal failure: a remove whose raw response carries the
/// no-data errno is reported as `AttributeNotFound`, never as success —
/// so removing an already-absent attribute fails this way every time it
/// is repeated.
pub proof fn lemma_remove_absent_is_attribute_not_found(
    raw: Result<(), OsError>,
    r: Result<(), ErrorKind>,
)
    requires
        unit_outcome_rel(raw, r),
        raw matches Err(e) && e.code == Some(ENODATA),
    ensures
        r matches Err(k) && k == ErrorKind::AttributeNotFound,
{
}

/// A present zero-length value: a get whose raw response holds an empty
/// value succeeds with an empty payload — distinct from the
/// `AttributeNotFound` failure an absent attribute gives.
pub proof fn lemma_empty_value_is_present(
    raw: Result<Option<Vec<u8>>, OsError>,
    r: Result<Vec<u8>, ErrorKind>,
)
    requires
        get_outcome_rel(raw, r),
        raw matches Ok(v) && v matches Some(bytes) && bytes@.len() == 0,
    ensures
        r matches Ok(w) && w@.len() == 0,
{
}

/// Lists the names of the attributes of `path`, in platform order (not
/// guaranteed sorted). Whatever the OS answers, the result is its exact
/// interpretation: the full marshalled name sequence on success, a
/// translated failure otherwise.
pub fn list_attributes(path: &str) -> (r: Result<Vec<Vec<u8>>, ErrorKind>)
    ensures
        exists|raw: Result<Vec<Vec<u8>>, OsError>| list_outcome_rel(raw, r),
{
    let raw = os_list(path);
    let r = list_outcome(&raw);
    proof {
        assert(list_outcome_rel(raw, r));
    }
    r
}

/// Whether the attribute `name` exists on `path`, read as "a get returns
/// a value" — the same call and the same races as a get, as a
/// convenience. Whatever the OS answers, the result is its exact
/// interpretation.
pub fn has_attribute(path: &str, name: &str) -> (r: Result<bool, ErrorKind>)
    ensures
        exists|raw: Result<Option<Vec<u8>>, OsError>| has_outcome_rel(raw, r),
{
    let raw = os_get(path, name);
    let r = has_outcome(&raw);
    proof {
        assert(has_outcome_rel(raw, r));
    }
    r
}

/// The value of the attribute `name` on `path`, byte-for-byte. An absent
/// attribute is the explicit `AttributeNotFound` failure, distinct from a
/// present empty value. Whatever the OS answers, the result is its exact
/// interpretation.
pub fn get_attribute(path: &str, name: &str) -> (r: Result<Vec<u8>, ErrorKind>)
    ensures
        exists|raw: Result<Option<Vec<u8>>, OsError>| get_outcome_rel(raw, r),
{
    let raw = os_get(path, name);
    let r = get_outcome(&raw);
    proof {
        assert(get_outcome_rel(raw, r));
    }
    r
}

/// Sets the attribute `name` on `path` to `value`, overwriting any
/// previous value unconditionally; the value's length is unconstrained
/// here, the OS enforces its limits and the failure is translated.
/// Whatever the OS answers, the result is its exact interpretation.
pub fn set_attribute(path: &str, name: &str, value: &[u8]) -> (r: Result<(), ErrorKind>)
    ensures
        exists|raw: Result<(), OsError>| unit_outcome_rel(raw, r),
{
    let raw = os_set(path, name, value);
    let r = unit_outcome(&raw);
    proof {
        assert(unit_outcome_rel(raw, r));
    }
    r
}

/// Removes the attribute `name` from `path`; removing an absent
/// attribute is the translated no-data failure, not success. Whatever the
/// OS answers, the result is its exact interpretation.
pub fn remove_attribute(path: &str, name: &str) -> (r: Result<(), ErrorKind>)
    ensures
        exists|raw: Result<(), OsError>| unit_outcome_rel(raw, r),
{
    let raw = os_remove(path, name);
    let r = unit_outcome(&raw);
    proof {
        assert(unit_outcome_rel(raw, r));
    }
    r
}

} // verus!
