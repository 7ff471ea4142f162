//! The fatal-condition taxonomy.  Every fatal site surfaces as one of these
//! typed values; none is retried, since none is transient.

use vstd::prelude::*;

verus! {

use vstd::string::StringExecFns;

/// Why a run must stop.
#[derive(Clone, Copy, Debug, PartialEq, Eq, Structural)]
pub enum StreamError {
    /// The input container is not the supported one.
    UnsupportedContainerFormat,
    /// The payload is not the supported coded format.
    UnsupportedCodec,
    /// A record of the stream cannot be decoded.
    MalformedStream,
    /// A frame header arrived before any sequence parameters.
    HeaderOrderViolation,
    /// Multiple operating points, extended timing information, or another
    /// layout this tool does not model.
    UnsupportedFeature,
    /// The bits read back at patch time do not match the previously parsed
    /// level: the computed offset is wrong.
    ConsistencyCheckFailure,
    /// An attempt to remove a tier bit that is not Main.
    InvalidTierTransition,
    /// Conflicting output flags, or an out-of-range forced level.
    InvalidArguments,
}

impl StreamError {
    /// A diagnostic line for this error.
    pub fn message(&self) -> String {
        match self {
            StreamError::UnsupportedContainerFormat => String::from_str(
                "unsupported container format",
            ),
            StreamError::UnsupportedCodec => String::from_str("unsupported codec"),
            StreamError::MalformedStream => String::from_str("malformed stream"),
            StreamError::HeaderOrderViolation => String::from_str(
                "frame header found before sequence header",
            ),
            StreamError::UnsupportedFeature => String::from_str("unsupported stream feature"),
            StreamError::ConsistencyCheckFailure => String::from_str(
                "level at the location seeked to patch does not match the parsed value",
            ),
            StreamError::InvalidTierTransition => String::from_str(
                "cannot reduce level below 4.0 when High tier is specified",
            ),
            StreamError::InvalidArguments => String::from_str("invalid arguments"),
        }
    }
}

} // verus!
