//! The host side of the foreign-resource boundary.
//!
//! A resource implemented outside the host binary answers every call with a
//! single tagged result record: a success flag; on success, the produced
//! item and an opaque new-state buffer; on failure, a human-readable message
//! buffer.  Reading foreign pointers into owned values — and releasing the
//! foreign buffers afterwards through the dedicated deallocate entry point —
//! is the platform glue's job.  What the record *means*, and when it is a
//! contract violation rather than a recoverable error, is decided here, on
//! plain values.

use crate::resource::StringError;
use crate::values::ResState;
use vstd::prelude::*;

verus! {

/// A foreign call's result record, read into owned values.
///
/// `msg` carries the new opaque state when the call succeeded and the error
/// text when it failed.  `item` is `None` when the foreign side reported
/// success but returned no item pointer — a violation of its contract.
pub struct RawReturn<T> {
    /// The foreign side reports success.
    pub is_ok: bool,
    /// The produced item, if one was returned.
    pub item: Option<T>,
    /// The message buffer, owned by the host.
    pub msg: Vec<u8>,
}

/// The text that a byte buffer decodes to as UTF-8, with invalid sequences
/// replaced.
pub uninterp spec fn utf8_text(bytes: Seq<u8>) -> Seq<char>;

/// Relies on `String::from_utf8_lossy`: the text depends on the bytes alone.
#[verifier::external_body]
pub(crate) fn utf8_lossy(bytes: &Vec<u8>) -> (s: String)
    ensures
        s@ == utf8_text(bytes@),
{
    String::from_utf8_lossy(bytes).into_owned()
}

/// The distinguished message for a success record without an item.  A
/// missing item is a contract violation by the foreign side, not a
/// recoverable error: the caller must not continue using the resource.
pub open spec fn missing_item_msg() -> Seq<char> {
    "foreign resource returned success without an item"@
}

/// Interpret the result record of a foreign transformation call: on success
/// the produced item together with the new opaque state, on failure the
/// message bytes decoded as UTF-8.
pub fn interpret_return<T>(ret: RawReturn<T>) -> (r: Result<(T, ResState), StringError>)
    ensures
        (r is Ok) == (ret.is_ok && ret.item is Some),
        r matches Ok(p) ==> ret.item == Some(p.0) && p.1@ == ret.msg@,
        !ret.is_ok ==> (r matches Err(e) && e.0@ == utf8_text(ret.msg@)),
        ret.is_ok && ret.item is None ==> (r matches Err(e) && e.0@ == missing_item_msg()),
{
    proof {
        reveal_strlit("foreign resource returned success without an item");
    }
    if !ret.is_ok {
        return Err(StringError(utf8_lossy(&ret.msg)));
    }
    match ret.item {
        Some(item) => Ok((item, ret.msg)),
        None => Err(
            StringError("foreign resource returned success without an item".to_owned()),
        ),
    }
}

/// Interpret the result record of a foreign validation call, whose success
/// payload is empty: `check_config` and `check_state` use this shape.
pub fn interpret_unit_return(is_ok: bool, msg: Vec<u8>) -> (r: Result<(), StringError>)
    ensures
        (r is Ok) == is_ok,
        r matches Err(e) ==> e.0@ == utf8_text(msg@),
{
    if is_ok {
        Ok(())
    } else {
        Err(StringError(utf8_lossy(&msg)))
    }
}

} // verus!
