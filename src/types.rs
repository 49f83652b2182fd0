use vstd::prelude::*;
use crate::error::Error;

verus! {

/// The block-cipher family.
#[derive(PartialEq, Eq, Structural, Clone, Copy, Debug)]
pub enum CipherId {
    Unspecified,
    Null,
    Aes,
    Des,
    Des3,
    Camellia,
    Blowfish,
    Arc4,
}

/// The mode of operation.
#[derive(PartialEq, Eq, Structural, Clone, Copy, Debug)]
pub enum CipherMode {
    Unspecified,
    ECB,
    CBC,
    CFB,
    OFB,
    CTR,
    GCM,
    STREAM,
    CCM,
}

/// A concrete algorithm, mode and key length, as the engine names them.
#[derive(PartialEq, Eq, Structural, Clone, Copy, Debug)]
pub enum CipherType {
    Unspecified,
    Null,
    Aes128Ecb,
    Aes192Ecb,
    Aes256Ecb,
    Aes128Cbc,
    Aes192Cbc,
    Aes256Cbc,
    Aes128Cfb128,
    Aes192Cfb128,
    Aes256Cfb128,
    Aes128Ctr,
    Aes192Ctr,
    Aes256Ctr,
    Aes128Gcm,
    Aes192Gcm,
    Aes256Gcm,
    Camellia128Ecb,
    Camellia192Ecb,
    Camellia256Ecb,
    Camellia128Cbc,
    Camellia192Cbc,
    Camellia256Cbc,
    Camellia128Cfb128,
    Camellia192Cfb128,
    Camellia256Cfb128,
    Camellia128Ctr,
    Camellia192Ctr,
    Camellia256Ctr,
    Camellia128Gcm,
    Camellia192Gcm,
    Camellia256Gcm,
    DesEcb,
    DesCbc,
    DesEdeEcb,
    DesEdeCbc,
    DesEde3Ecb,
    DesEde3Cbc,
    BlowfishEcb,
    BlowfishCbc,
    BlowfishCfb64,
    BlowfishCtr,
    Arcfour128,
    Aes128Ccm,
    Aes192Ccm,
    Aes256Ccm,
    Camellia128Ccm,
    Camellia192Ccm,
    Camellia256Ccm,
}

/// How a final partial block is padded (meaningful for CBC only).
#[derive(PartialEq, Eq, Structural, Clone, Copy, Debug)]
pub enum CipherPadding {
    Pkcs7,
    IsoIec78164,
    AnsiX923,
    Zeros,
    NoPadding,
}

/// The direction a key is bound for.
#[derive(PartialEq, Eq, Structural, Clone, Copy, Debug)]
pub enum Operation {
    Unspecified,
    Decrypt,
    Encrypt,
}

/// Whether a mode authenticates what it encrypts.
pub open spec fn mode_is_aead(m: CipherMode) -> bool {
    m == CipherMode::GCM || m == CipherMode::CCM
}

/// What the engine's descriptor says of a resolved cipher.
#[derive(PartialEq, Eq, Structural, Clone, Copy, Debug)]
pub struct CipherInfo {
    pub id: CipherId,
    pub mode: CipherMode,
    pub key_bit_len: u32,
    pub block_size: usize,
    pub iv_size: usize,
    pub variable_key_len: bool,
}

/// The largest block the engine handles, in bytes.
pub const MAX_BLOCK_LENGTH: usize = 16;

/// The largest IV the engine handles, in bytes.
pub const MAX_IV_LENGTH: usize = 16;

impl CipherInfo {
    /// Sizes that the engine's descriptors can hold.
    pub open spec fn wf(self) -> bool {
        1 <= self.block_size <= MAX_BLOCK_LENGTH && self.iv_size <= MAX_IV_LENGTH
    }

    /// Whether this descriptor is the one for the requested triple.
    pub open spec fn describes(self, id: CipherId, mode: CipherMode, key_bit_len: u32) -> bool {
        &&& self.wf()
        &&& self.id == id
        &&& self.mode == mode
        &&& self.key_bit_len == key_bit_len
    }
}

/// The engine's numeric code of each cipher family.
pub open spec fn id_code(id: CipherId) -> u32 {
    match id {
        CipherId::Unspecified => 0,
        CipherId::Null => 1,
        CipherId::Aes => 2,
        CipherId::Des => 3,
        CipherId::Des3 => 4,
        CipherId::Camellia => 5,
        CipherId::Blowfish => 6,
        CipherId::Arc4 => 7,
    }
}

/// The engine's numeric code of each mode.
pub open spec fn mode_code(m: CipherMode) -> u32 {
    match m {
        CipherMode::Unspecified => 0,
        CipherMode::ECB => 1,
        CipherMode::CBC => 2,
        CipherMode::CFB => 3,
        CipherMode::OFB => 4,
        CipherMode::CTR => 5,
        CipherMode::GCM => 6,
        CipherMode::STREAM => 7,
        CipherMode::CCM => 8,
    }
}

impl CipherId {
    /// The cipher family that the engine's code `code` names, or
    /// `UnknownCipher` for a code outside the known set.
    pub fn from_code(code: u32) -> (r: Result<CipherId, Error>)
        ensures
            r matches Ok(id) ==> id_code(id) == code,
            r is Err <==> code > 7,
            r is Err ==> r == Err::<CipherId, Error>(Error::UnknownCipher),
    {
        match code {
            0 => Ok(CipherId::Unspecified),
            1 => Ok(CipherId::Null),
            2 => Ok(CipherId::Aes),
            3 => Ok(CipherId::Des),
            4 => Ok(CipherId::Des3),
            5 => Ok(CipherId::Camellia),
            6 => Ok(CipherId::Blowfish),
            7 => Ok(CipherId::Arc4),
            _ => Err(Error::UnknownCipher),
        }
    }

    /// The engine's code of this cipher family.
    pub fn code(&self) -> (r: u32)
        ensures
            r == id_code(*self),
    {
        match self {
            CipherId::Unspecified => 0,
            CipherId::Null => 1,
            CipherId::Aes => 2,
            CipherId::Des => 3,
            CipherId::Des3 => 4,
            CipherId::Camellia => 5,
            CipherId::Blowfish => 6,
            CipherId::Arc4 => 7,
        }
    }
}

impl CipherMode {
    /// The mode that the engine's code `code` names, or `UnknownMode` for a
    /// code outside the known set.
    pub fn from_code(code: u32) -> (r: Result<CipherMode, Error>)
        ensures
            r matches Ok(m) ==> mode_code(m) == code,
            r is Err <==> code > 8,
            r is Err ==> r == Err::<CipherMode, Error>(Error::UnknownMode),
    {
        match code {
            0 => Ok(CipherMode::Unspecified),
            1 => Ok(CipherMode::ECB),
            2 => Ok(CipherMode::CBC),
            3 => Ok(CipherMode::CFB),
            4 => Ok(CipherMode::OFB),
            5 => Ok(CipherMode::CTR),
            6 => Ok(CipherMode::GCM),
            7 => Ok(CipherMode::STREAM),
            8 => Ok(CipherMode::CCM),
            _ => Err(Error::UnknownMode),
        }
    }

    /// The engine's code of this mode.
    pub fn code(&self) -> (r: u32)
        ensures
            r == mode_code(*self),
    {
        match self {
            CipherMode::Unspecified => 0,
            CipherMode::ECB => 1,
            CipherMode::CBC => 2,
            CipherMode::CFB => 3,
            CipherMode::OFB => 4,
            CipherMode::CTR => 5,
            CipherMode::GCM => 6,
            CipherMode::STREAM => 7,
            CipherMode::CCM => 8,
        }
    }
}

/// Descriptor flag: the cipher takes keys of any length.
pub const VARIABLE_KEY_LEN_FLAG: u32 = 2;

impl CipherInfo {
    /// Reads the engine's descriptor fields as plain values: the family and
    /// mode codes, key length in bits, IV size, flags and block size.
    pub fn from_descriptor(
        id_code_value: u32,
        mode_code_value: u32,
        key_bit_len: u32,
        iv_size: usize,
        flags: u32,
        block_size: usize,
    ) -> (r: Result<CipherInfo, Error>)
        ensures
            id_code_value > 7 ==> r == Err::<CipherInfo, Error>(Error::UnknownCipher),
            id_code_value <= 7 && mode_code_value > 8 ==> r == Err::<CipherInfo, Error>(Error::UnknownMode),
            id_code_value <= 7 && mode_code_value <= 8 ==> (r matches Ok(info) && {
                &&& id_code(info.id) == id_code_value
                &&& mode_code(info.mode) == mode_code_value
                &&& info.key_bit_len == key_bit_len
                &&& info.iv_size == iv_size
                &&& info.block_size == block_size
                &&& info.variable_key_len == (flags & VARIABLE_KEY_LEN_FLAG != 0)
            }),
    {
        let id = match CipherId::from_code(id_code_value) {
            Ok(id) => id,
            Err(e) => return Err(e),
        };
        let mode = match CipherMode::from_code(mode_code_value) {
            Ok(m) => m,
            Err(e) => return Err(e),
        };
        Ok(CipherInfo {
            id,
            mode,
            key_bit_len,
            block_size,
            iv_size,
            variable_key_len: flags & VARIABLE_KEY_LEN_FLAG != 0,
        })
    }
}

/// Codes name cipher families and modes one to one: each family and mode
/// has its own code, and reading a code back gives the same value.
pub proof fn lemma_codes_round_trip(a: CipherId, b: CipherId, m: CipherMode, n: CipherMode)
    ensures
        id_code(a) == id_code(b) ==> a == b,
        mode_code(m) == mode_code(n) ==> m == n,
        id_code(a) <= 7,
        mode_code(m) <= 8,
{
}

} // verus!
