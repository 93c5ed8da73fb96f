//! Conversion of paths and format names into native C strings.
//!
//! The native layer takes NUL-terminated byte strings. A path is
//! handed over as its raw platform bytes; a format name as its UTF-8
//! bytes (the caller extracts both from the platform value). The one
//! thing that can go wrong is an interior NUL byte, and each entry
//! point surfaces that as its own error instead of aborting.

use vstd::prelude::*;

use crate::error::Error;

verus! {

/// True when no byte of `s` is NUL, so `s` can become a C string.
pub open spec fn c_representable(s: Seq<u8>) -> bool {
    forall|i: int| 0 <= i < s.len() ==> s[i] != 0
}

/// Append the terminating NUL, or report the offending interior NUL.
///
/// Returns the NUL-terminated copy of `bytes` exactly when `bytes`
/// holds no NUL of its own.
pub fn nul_terminate(bytes: &Vec<u8>) -> (r: Option<Vec<u8>>)
    requires
        bytes@.len() < usize::MAX,
    ensures
        r is Some <==> c_representable(bytes@),
        r is Some ==> r.unwrap()@ == bytes@.push(0u8),
{
    let n = bytes.len();
    let mut i: usize = 0;
    while i < n
        invariant
            n == bytes@.len() < usize::MAX,
            0 <= i <= n,
            forall|j: int| 0 <= j < i ==> bytes@[j] != 0,
        decreases n - i,
    {
        if bytes[i] == 0 {
            return None;
        }
        i += 1;
    }
    let mut out = bytes.clone();
    out.push(0);
    assert(out@ =~= bytes@.push(0u8));
    Some(out)
}

/// Turn a path's raw bytes into a native C string, rejecting a path
/// that holds an interior NUL as `InvalidPath`.
pub fn from_path(path_bytes: &Vec<u8>) -> (r: Result<Vec<u8>, Error>)
    requires
        path_bytes@.len() < usize::MAX,
    ensures
        r is Ok <==> c_representable(path_bytes@),
        r is Ok ==> r.unwrap()@ == path_bytes@.push(0u8),
        r is Err ==> r.unwrap_err() == Error::InvalidPath,
{
    match nul_terminate(path_bytes) {
        Some(c) => Ok(c),
        None => Err(Error::InvalidPath),
    }
}

/// Turn a format name's bytes into a native C string, rejecting a
/// name that holds an interior NUL as `InvalidFormatName`.
pub fn from_format_name(name_bytes: &Vec<u8>) -> (r: Result<Vec<u8>, Error>)
    requires
        name_bytes@.len() < usize::MAX,
    ensures
        r is Ok <==> c_representable(name_bytes@),
        r is Ok ==> r.unwrap()@ == name_bytes@.push(0u8),
        r is Err ==> r.unwrap_err() == Error::InvalidFormatName,
{
    match nul_terminate(name_bytes) {
        Some(c) => Ok(c),
        None => Err(Error::InvalidFormatName),
    }
}

} // verus!
