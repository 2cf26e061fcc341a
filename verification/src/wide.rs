//! The wide strings the OS loader and the driver take: the fixed pool and
//! alias names the adapter is created under, and the path of the driver
//! library beneath the caller's resource directory.
//!
//! The UTF-16 encoding itself is done by the `widestring` crate; its result
//! is named here and everything built on top of it is verified against that
//! name.

use vstd::prelude::*;
use vstd::string::StringExecFns;

verus! {

/// The UTF-16 code units that encode a string's characters, in order,
/// without a terminator.
pub uninterp spec fn utf16_units_of(s: Seq<char>) -> Seq<u16>;

/// Relies on widestring's `U16CString::from_str` (the UTF-16 encoding of
/// the string, rejected exactly when a nul character sits anywhere but at
/// the very end) and `into_vec_with_nul` (those code units, with one
/// terminating nul unit appended unless the string's own final nul already
/// serves as the terminator).
#[verifier::external_body]
fn encode_utf16_with_nul(s: &str) -> (r: Option<Vec<u16>>)
    ensures
        r is Some <==> (forall|i: int| 0 <= i < s@.len() - 1 ==> s@[i] != '\0'),
        r matches Some(v) ==> (if s@.len() > 0 && s@.last() == '\0' {
            v@ == utf16_units_of(s@)
        } else {
            v@ == utf16_units_of(s@).push(0u16)
        }),
{
    match widestring::U16CString::from_str(s) {
        Ok(c) => Some(c.into_vec_with_nul()),
        Err(_) => None,
    }
}

/// The fixed pool the adapter is created in, as the nul-terminated wide
/// string the driver takes.
pub fn adapter_pool_wide() -> (r: Vec<u16>)
    ensures
        r@ == utf16_units_of("Mullvad"@).push(0u16),
{
    proof {
        reveal_strlit("Mullvad");
        assert(forall|i: int| 0 <= i < "Mullvad"@.len() - 1 ==> "Mullvad"@[i] != '\0');
        assert("Mullvad"@.last() != '\0');
    }
    encode_utf16_with_nul("Mullvad").unwrap()
}

/// The fixed alias the adapter is created under, as the nul-terminated wide
/// string the driver takes.
pub fn adapter_alias_wide() -> (r: Vec<u16>)
    ensures
        r@ == utf16_units_of("Mullvad"@).push(0u16),
{
    adapter_pool_wide()
}

/// The path of the driver library: the caller's resource directory — given
/// without a trailing separator — followed by a separator and the fixed
/// file name, UTF-16 encoded and nul-terminated for the OS loader.  Fails
/// exactly when the resource directory contains a nul character anywhere,
/// so no part of the directory can be dropped silently.
pub fn driver_dll_path_wide(resource_dir: &str) -> (r: Option<Vec<u16>>)
    ensures
        r is Some <==> !resource_dir@.contains('\0'),
        r matches Some(v) ==> v@ == utf16_units_of(resource_dir@ + "\\wireguard.dll"@).push(
            0u16,
        ),
{
    let mut path: String = resource_dir.to_owned();
    path.append("\\wireguard.dll");
    proof {
        reveal_strlit("\\wireguard.dll");
        let dir = resource_dir@;
        let tail = "\\wireguard.dll"@;
        let full = dir + tail;
        assert(path@ == full);
        assert(tail.len() == 14);
        assert(forall|k: int| 0 <= k < tail.len() ==> tail[k] != '\0');
        // The file name never ends in a nul, so the whole path never does.
        assert(full.last() == tail[tail.len() - 1]);
        assert(full.last() != '\0');
        // A nul anywhere before the path's final character is the same
        // thing as a nul anywhere in the directory: the appended file name
        // is nul-free and non-empty.
        assert(!dir.contains('\0') ==> (forall|i: int|
            0 <= i < full.len() - 1 ==> full[i] != '\0')) by {
            if !dir.contains('\0') {
                assert forall|i: int| 0 <= i < full.len() - 1 implies full[i] != '\0' by {
                    if i < dir.len() {
                        assert(full[i] == dir[i]);
                        assert(dir[i] != '\0');
                    } else {
                        assert(full[i] == tail[i - dir.len()]);
                    }
                }
            }
        }
        assert((forall|i: int| 0 <= i < full.len() - 1 ==> full[i] != '\0') ==> !dir.contains(
            '\0',
        )) by {
            if dir.contains('\0') {
                let j = choose|j: int| 0 <= j < dir.len() && dir[j] == '\0';
                assert(full[j] == '\0');
                assert(0 <= j < full.len() - 1);
            }
        }
    }
    encode_utf16_with_nul(path.as_str())
}

} // verus!
