use vstd::prelude::*;

verus! {

/// Failures reported by a cipher session.
#[derive(PartialEq, Eq, Structural, Clone, Copy, Debug)]
pub enum Error {
    /// A length or a call order that the session cannot accept.
    CipherBadInputData,
    /// An output buffer shorter than the worst case that the call may write.
    CipherFullBlockExpected,
    /// The selected mode or algorithm does not offer the requested feature.
    CipherFeatureUnavailable,
    /// The algorithm, mode and key length do not name a known cipher.
    CipherAlgorithmNotSupported,
    /// An authentication tag did not match.
    CipherAuthFailed,
    /// Padding of decrypted data was malformed.
    CipherInvalidPadding,
    /// The engine reported a state that the session cannot account for.
    CipherInvalidContext,
    /// The engine could not allocate its context.
    CipherAllocFailed,
    /// A native cipher identifier outside the known set.
    UnknownCipher,
    /// A native mode identifier outside the known set.
    UnknownMode,
    /// Any other engine failure, with the engine's own code.
    Other(i32),
}

impl Error {
    /// The error for an engine return code: the cipher codes map to their
    /// variants, anything else is carried as it is.
    pub fn from_engine(code: i32) -> (r: Error)
        ensures
            r == match code {
                -0x6080 => Error::CipherFeatureUnavailable,
                -0x6100 => Error::CipherBadInputData,
                -0x6180 => Error::CipherAllocFailed,
                -0x6200 => Error::CipherInvalidPadding,
                -0x6280 => Error::CipherFullBlockExpected,
                -0x6300 => Error::CipherAuthFailed,
                -0x6380 => Error::CipherInvalidContext,
                _ => Error::Other(code),
            },
    {
        match code {
            -0x6080 => Error::CipherFeatureUnavailable,
            -0x6100 => Error::CipherBadInputData,
            -0x6180 => Error::CipherAllocFailed,
            -0x6200 => Error::CipherInvalidPadding,
            -0x6280 => Error::CipherFullBlockExpected,
            -0x6300 => Error::CipherAuthFailed,
            -0x6380 => Error::CipherInvalidContext,
            _ => Error::Other(code),
        }
    }
}

} // verus!
