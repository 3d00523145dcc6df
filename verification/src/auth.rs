//! Authorization-header construction for the completion client.
//!
//! The outbound client authenticates with `Authorization: Bearer <key>`. An
//! HTTP header value may hold only horizontal tab and characters at or above
//! 32, with 127 (DEL) excluded; a key with anything else is refused at
//! startup, before any connection is attempted.

use vstd::prelude::*;
use vstd::string::StrSliceExecFns;
use vstd::string::StringExecFns;
use crate::error::AppError;

verus! {

/// `c` may stand in an HTTP header value: horizontal tab, or any character at
/// or above 32 other than 127 (DEL).
pub open spec fn valid_header_char(c: char) -> bool {
    c == '\t' || (c as u32 >= 32 && c as u32 != 127)
}

/// Every character of `key` may stand in an HTTP header value.
pub open spec fn valid_header_key(key: Seq<char>) -> bool {
    forall|i: int| 0 <= i < key.len() ==> valid_header_char(key[i])
}

/// The header value that authenticates with `key`.
pub open spec fn spec_bearer_value(key: Seq<char>) -> Seq<char> {
    "Bearer "@ + key
}

/// Build the `Authorization` header value for `key`: `Bearer ` followed by the
/// key itself. Fails with `InvalidAuthHeader` exactly when the key holds a
/// character that no HTTP header value can carry.
pub fn bearer_header_value(key: &str) -> (r: Result<String, AppError>)
    ensures
        r is Ok <==> valid_header_key(key@),
        r matches Ok(v) ==> v@ == spec_bearer_value(key@),
        r matches Err(e) ==> e == AppError::InvalidAuthHeader,
{
    let len = key.unicode_len();
    let mut i: usize = 0;
    while i < len
        invariant
            i <= len,
            len == key@.len(),
            forall|k: int| 0 <= k < i ==> valid_header_char(key@[k]),
        decreases len - i,
    {
        let c = key.get_char(i);
        if !(c == '\t' || (c as u32 >= 32 && c as u32 != 127)) {
            return Err(AppError::InvalidAuthHeader);
        }
        i += 1;
    }
    Ok(String::from_str("Bearer ").concat(key))
}

} // verus!
