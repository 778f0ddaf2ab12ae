use vstd::prelude::*;
use vstd::string::StrSliceExecFns;
use crate::config::BackendKind;

verus! {

/// Whether a string is a well-formed Filecoin address under the given
/// network prefix; what `fvm_shared`'s parser accepts, named here
/// because writing its checksum out would restate the outside crate.
pub uninterp spec fn fvm_addr_ok(mainnet: bool, s: Seq<char>) -> bool;

/// Relies on fvm_shared::address::Network::parse_address: it accepts
/// exactly the well-formed textual addresses of the given network, and
/// its result depends on the network and the string alone.
#[verifier::external_body]
fn parse_fvm_address(mainnet: bool, s: &str) -> (r: bool)
    ensures
        r == fvm_addr_ok(mainnet, s@),
{
    let network = if mainnet {
        fvm_shared::address::Network::Mainnet
    } else {
        fvm_shared::address::Network::Testnet
    };
    match network.parse_address(s) {
        Ok(_) => true,
        Err(_) => false,
    }
}

/// A Filecoin address under either network prefix.
pub open spec fn fvm_address_ok(s: Seq<char>) -> bool {
    fvm_addr_ok(true, s) || fvm_addr_ok(false, s)
}

/// Whether the string is a well-formed Filecoin address, on mainnet or
/// on a test network.
pub fn is_fvm_address(s: &str) -> (r: bool)
    ensures
        r == fvm_address_ok(s@),
{
    if parse_fvm_address(true, s) {
        true
    } else {
        parse_fvm_address(false, s)
    }
}

/// A hexadecimal digit.
pub open spec fn hex_digit(c: char) -> bool {
    ('0' <= c && c <= '9') || ('a' <= c && c <= 'f') || ('A' <= c && c <= 'F')
}

/// An execution-layer address of the other backend: `0x` followed by
/// forty hexadecimal digits.
pub open spec fn evm_address_ok(s: Seq<char>) -> bool {
    s.len() == 42 && s[0] == '0' && s[1] == 'x' && (forall|i: int|
        2 <= i < 42 ==> hex_digit(#[trigger] s[i]))
}

/// Whether the string is a well-formed execution-layer hex address.
pub fn is_evm_address(s: &str) -> (r: bool)
    ensures
        r == evm_address_ok(s@),
{
    let n = s.unicode_len();
    if n != 42 {
        return false;
    }
    if s.get_char(0) != '0' || s.get_char(1) != 'x' {
        return false;
    }
    let mut i: usize = 2;
    while i < 42
        invariant
            s@.len() == 42,
            2 <= i <= 42,
            forall|k: int| 2 <= k < i ==> hex_digit(#[trigger] s@[k]),
        decreases 42 - i,
    {
        let c = s.get_char(i);
        if !(('0' <= c && c <= '9') || ('a' <= c && c <= 'f') || ('A' <= c && c <= 'F')) {
            return false;
        }
        i += 1;
    }
    true
}

/// An address of either execution layer, where no subnet context picks
/// the backend.
pub open spec fn any_addr_ok(s: Seq<char>) -> bool {
    fvm_address_ok(s) || evm_address_ok(s)
}

/// Whether the string is a well-formed address of either execution
/// layer.
pub fn is_any_addr(s: &str) -> (r: bool)
    ensures
        r == any_addr_ok(s@),
{
    if is_fvm_address(s) {
        true
    } else {
        is_evm_address(s)
    }
}

/// What counts as a valid sender or worker address for a subnet served
/// by the given backend.
pub open spec fn addr_ok(backend: BackendKind, s: Seq<char>) -> bool {
    match backend {
        BackendKind::Fvm => fvm_address_ok(s),
        BackendKind::Evm => evm_address_ok(s),
    }
}

/// Validates an address for the given backend.
pub fn is_addr_ok(backend: BackendKind, s: &str) -> (r: bool)
    ensures
        r == addr_ok(backend, s@),
{
    match backend {
        BackendKind::Fvm => is_fvm_address(s),
        BackendKind::Evm => is_evm_address(s),
    }
}

} // verus!
