//! The version integer advertised to peers.
//!
//! A three-part semantic version is packed into one `u32` of the form
//! `3AAABBBCCC`, where `AAA`, `BBB` and `CCC` are the major, minor and patch
//! components, each bounded to three decimal digits. The leading digit 3
//! tells this scheme apart from two historical schemes used by compatible
//! implementations (leading 1, and the date form `YYYYMMDDVV` with leading 2).

use vstd::prelude::*;

verus! {

/// The packed form of a version triple, as a mathematical integer.
pub open spec fn encoded_version(major: int, minor: int, patch: int) -> int {
    3_000_000_000 + major * 1_000_000 + minor * 1_000 + patch
}

/// True when each component fits in its three decimal digits.
pub open spec fn valid_version_parts(major: int, minor: int, patch: int) -> bool {
    0 <= major < 1000 && 0 <= minor < 1000 && 0 <= patch < 1000
}

/// Pack a version triple into the advertised integer.
pub fn encode_version(major: u32, minor: u32, patch: u32) -> (v: u32)
    requires
        valid_version_parts(major as int, minor as int, patch as int),
    ensures
        v == encoded_version(major as int, minor as int, patch as int),
{
    3_000_000_000 + major * 1_000_000 + minor * 1_000 + patch
}

/// Unpack an advertised integer back into its version triple.
pub fn decode_version(v: u32) -> (parts: (u32, u32, u32))
    requires
        3_000_000_000 <= v < 4_000_000_000,
    ensures
        v == encoded_version(parts.0 as int, parts.1 as int, parts.2 as int),
        valid_version_parts(parts.0 as int, parts.1 as int, parts.2 as int),
{
    let major = (v - 3_000_000_000) / 1_000_000;
    let minor = (v / 1_000) % 1_000;
    let patch = v % 1_000;
    (major, minor, patch)
}

/// Round trip: decoding an encoded version gives back the three components,
/// and the encoded integer always begins with the decimal digit 3.
pub proof fn lemma_version_round_trip(major: int, minor: int, patch: int)
    requires
        valid_version_parts(major, minor, patch),
    ensures
        (encoded_version(major, minor, patch) - 3_000_000_000) / 1_000_000 == major,
        (encoded_version(major, minor, patch) / 1_000) % 1_000 == minor,
        encoded_version(major, minor, patch) % 1_000 == patch,
        encoded_version(major, minor, patch) / 1_000_000_000 == 3,
{
    let e = encoded_version(major, minor, patch);
    vstd::arithmetic::div_mod::lemma_fundamental_div_mod_converse(
        e - 3_000_000_000,
        1_000_000,
        major,
        minor * 1_000 + patch,
    );
    vstd::arithmetic::div_mod::lemma_fundamental_div_mod_converse(
        e,
        1_000,
        3_000_000 + major * 1_000 + minor,
        patch,
    );
    vstd::arithmetic::div_mod::lemma_fundamental_div_mod_converse(
        3_000_000 + major * 1_000 + minor,
        1_000,
        3_000 + major,
        minor,
    );
    vstd::arithmetic::div_mod::lemma_fundamental_div_mod_converse(
        e,
        1_000_000_000,
        3,
        major * 1_000_000 + minor * 1_000 + patch,
    );
}

} // verus!
