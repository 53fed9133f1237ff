//! Validation of a proxy address before it is handed to the HTTP client.
//!
//! Only `http`, `https` and `socks5h` proxies are supported; anything
//! else is rejected with a message naming the offending address.

use vstd::prelude::*;
use vstd::string::{StringExecFns, StringSliceAdditionalSpecFns};

use crate::signature::is_match;

verus! {

/// `prefix` is a byte-for-byte prefix of `s`.
pub fn starts_with_bytes(s: &[u8], prefix: &[u8]) -> (r: bool)
    ensures
        r == prefix@.is_prefix_of(s@),
{
    if prefix.len() > s.len() {
        false
    } else {
        let r = is_match(s, prefix, 0);
        proof {
            assert(s@.subrange(0, prefix@.len() as int) == prefix@ ==> prefix@.is_prefix_of(s@));
            assert(prefix@.is_prefix_of(s@) ==> s@.subrange(0, prefix@.len() as int) == prefix@);
        }
        r
    }
}

/// The address names one of the supported proxy schemes.
pub open spec fn has_supported_proxy_scheme(s: &str) -> bool {
    ||| "http://".spec_bytes().is_prefix_of(s.spec_bytes())
    ||| "https://".spec_bytes().is_prefix_of(s.spec_bytes())
    ||| "socks5h://".spec_bytes().is_prefix_of(s.spec_bytes())
}

/// Accept a proxy address exactly when it starts with a supported scheme,
/// handing it back unchanged; otherwise reject it with a message that
/// names it.
pub fn proxy_protocol_validation(proxy_address: &str) -> (r: Result<String, String>)
    ensures
        r is Ok <==> has_supported_proxy_scheme(proxy_address),
        r is Ok ==> r->Ok_0@ == proxy_address@,
        r is Err ==> r->Err_0@ == "Invalid Proxy Scheme: "@ + proxy_address@ + ". Check --help"@,
{
    let address_bytes = proxy_address.as_bytes();
    if starts_with_bytes(address_bytes, "http://".as_bytes()) || starts_with_bytes(
        address_bytes,
        "https://".as_bytes(),
    ) || starts_with_bytes(address_bytes, "socks5h://".as_bytes()) {
        Ok(proxy_address.to_owned())
    } else {
        let mut message = String::from_str("Invalid Proxy Scheme: ");
        message.append(proxy_address);
        message.append(". Check --help");
        proof {
            assert(message@ =~= "Invalid Proxy Scheme: "@ + proxy_address@ + ". Check --help"@);
        }
        Err(message)
    }
}

} // verus!
