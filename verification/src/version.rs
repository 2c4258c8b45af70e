//! The version triple of the native library.
//!
//! `NativeVersion` mirrors the fixed-layout record the native library
//! fills in at the foreign boundary; `Version` is the value type callers
//! keep. A `Version` compares structurally and renders as `"M.m.p"`.

use crate::decimal::{dec_rep, u8_dec_string};
use vstd::prelude::*;

verus! {

/// The native library's version record, as plain values: three unsigned
/// 8-bit fields in the order (major, minor, patch). It exists only at the
/// foreign boundary and is converted to a `Version` right away.
#[derive(Clone, Copy, PartialEq, Eq, Structural, Debug)]
pub struct NativeVersion {
    /// major version
    pub major: u8,
    /// minor version
    pub minor: u8,
    /// update version (patchlevel)
    pub patch: u8,
}

/// A structure that contains information about the version of the native
/// library in use.
#[derive(Clone, Copy, PartialEq, Eq, Structural, Debug)]
pub struct Version {
    /// major version
    pub major: u8,
    /// minor version
    pub minor: u8,
    /// update version (patchlevel)
    pub patch: u8,
}

impl Version {
    /// Convert a populated native version record to a `Version` with the
    /// same three fields.
    pub fn from_ll(sv: &NativeVersion) -> (v: Version)
        ensures
            v.major == sv.major,
            v.minor == sv.minor,
            v.patch == sv.patch,
    {
        Version { major: sv.major, minor: sv.minor, patch: sv.patch }
    }

    /// The rendered form of a version triple: the decimal representations
    /// of major, minor and patch, separated by `.`, with no padding, no
    /// sign and no surrounding whitespace.
    pub open spec fn spec_str(self) -> Seq<char> {
        dec_rep(self.major as int) + seq!['.'] + dec_rep(self.minor as int) + seq![
            '.',
        ] + dec_rep(self.patch as int)
    }

    /// Render the version as `"M.m.p"`.
    pub fn to_string(&self) -> (r: String)
        ensures
            r@ == self.spec_str(),
    {
        let dot: &str = ".";
        proof {
            reveal_strlit(".");
            assert(dot@ =~= seq!['.']);
        }
        let mut r = u8_dec_string(self.major);
        r.append(dot);
        r.append(u8_dec_string(self.minor).as_str());
        r.append(dot);
        r.append(u8_dec_string(self.patch).as_str());
        proof {
            assert(r@ =~= self.spec_str());
        }
        r
    }
}

/// Two `Version` values are equal exactly when all three fields are equal.
pub proof fn lemma_version_structural_eq(a: Version, b: Version)
    ensures
        (a == b) <==> (a.major == b.major && a.minor == b.minor && a.patch == b.patch),
{
}

} // verus!
