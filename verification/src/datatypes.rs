//! Resolution of a declared sample-encoding identifier to a closed enum.

use vstd::prelude::*;
use vstd::string::StringExecFns;

use crate::errors::SigError;

verus! {

/// The supported sample encodings. Both are interleaved complex pairs; the
/// enum only records enough to derive a sample count from a file size.
#[derive(Clone, Copy, Debug, PartialEq, Eq, Structural)]
pub enum SigMFDataType {
    /// Complex 32-bit little-endian float pairs, 8 bytes per sample.
    Cf32Le,
    /// Complex 16-bit little-endian integer pairs, 4 bytes per sample.
    Ci16Le,
}

/// The encoding a datatype identifier denotes, if it is supported.
pub open spec fn spec_datatype_of(s: Seq<char>) -> Option<SigMFDataType> {
    if s == "cf32_le"@ {
        Some(SigMFDataType::Cf32Le)
    } else if s == "ci16_le"@ {
        Some(SigMFDataType::Ci16Le)
    } else {
        None
    }
}

impl SigMFDataType {
    /// Bytes per complex sample: 4 bytes I + 4 bytes Q for `Cf32Le`,
    /// 2 bytes I + 2 bytes Q for `Ci16Le`.
    pub open spec fn spec_sample_size_bytes(self) -> usize {
        match self {
            SigMFDataType::Cf32Le => 8usize,
            SigMFDataType::Ci16Le => 4usize,
        }
    }

    /// Recognizes exactly the two supported encoding identifiers; any other
    /// string is rejected with [`SigError::UnsupportedDatatype`] carrying it.
    pub fn from_string(s: &str) -> (r: Result<SigMFDataType, SigError>)
        ensures
            r is Ok <==> spec_datatype_of(s@) is Some,
            r matches Ok(d) ==> Some(d) == spec_datatype_of(s@),
            r matches Err(e) ==> e@ matches crate::errors::ErrModel::UnsupportedDatatype(t) && t == s@,
    {
        proof {
            reveal_strlit("cf32_le");
            reveal_strlit("ci16_le");
            assert("cf32_le"@[1] != "ci16_le"@[1]);
            assert("cf32_le"@ != "ci16_le"@);
        }
        if crate::strutil::str_eq(s, "cf32_le") {
            Ok(SigMFDataType::Cf32Le)
        } else if crate::strutil::str_eq(s, "ci16_le") {
            Ok(SigMFDataType::Ci16Le)
        } else {
            Err(SigError::UnsupportedDatatype(String::from_str(s)))
        }
    }

    /// The per-sample byte width used to derive `num_samples` from a file size.
    pub fn sample_size_bytes(&self) -> (r: usize)
        ensures
            r == self.spec_sample_size_bytes(),
    {
        match self {
            SigMFDataType::Cf32Le => 8,
            SigMFDataType::Ci16Le => 4,
        }
    }

    /// Every supported encoding is complex-valued.
    pub fn is_complex(&self) -> (r: bool)
        ensures
            r == true,
    {
        true
    }
}

} // verus!
