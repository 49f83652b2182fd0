use vstd::prelude::*;
use crate::error::Error;
use crate::types::{CipherId, CipherInfo, CipherMode, CipherPadding, Operation, mode_is_aead, MAX_IV_LENGTH};

verus! {

/// The largest key, in bits, that the engine accepts (its length is a C `int`).
pub const MAX_KEY_BITS: usize = 0x7fff_ffff;

/// Bytes of output that `update` may write for `in_len` bytes of input.
pub open spec fn update_capacity(info: CipherInfo, in_len: int) -> int {
    if info.mode == CipherMode::ECB {
        info.block_size as int
    } else {
        in_len + info.block_size
    }
}

/// Whether a key of `key_len` bytes fits the cipher.
pub open spec fn key_fits(info: CipherInfo, key_len: int) -> bool {
    if info.variable_key_len {
        0 < key_len * 8 <= MAX_KEY_BITS
    } else {
        key_len * 8 == info.key_bit_len && key_len * 8 <= MAX_KEY_BITS
    }
}

/// One cipher session: the resolved descriptor, the bound direction, the
/// padding scheme and the IV. The key itself lives in the engine.
pub struct Cipher {
    pub info: CipherInfo,
    pub operation: Operation,
    pub padding: CipherPadding,
    pub iv: Vec<u8>,
    /// Whether an update has run since the last reset, key or finish.
    pub streaming: bool,
}

impl Cipher {
    pub open spec fn wf(&self) -> bool {
        &&& self.info.wf()
        &&& self.iv@.len() <= MAX_IV_LENGTH
    }

    /// Starts a session for the engine's descriptor `info` of the triple
    /// `(cipher_id, cipher_mode, key_bit_len)`, or `None` where the engine
    /// has no such cipher.
    pub fn setup(
        cipher_id: CipherId,
        cipher_mode: CipherMode,
        key_bit_len: u32,
        info: Option<CipherInfo>,
    ) -> (r: Result<Cipher, Error>)
        ensures
            r is Ok <==> (info is Some && info->0.describes(cipher_id, cipher_mode, key_bit_len)),
            r is Err ==> r == Err::<Cipher, Error>(Error::CipherAlgorithmNotSupported),
            r matches Ok(c) ==> {
                &&& c.wf()
                &&& c.info == info->0
                &&& c.operation == Operation::Unspecified
                &&& c.padding == CipherPadding::Pkcs7
                &&& c.iv@.len() == 0
                &&& !c.streaming
            },
    {
        match info {
            Some(i) => {
                if 1 <= i.block_size && i.block_size <= crate::types::MAX_BLOCK_LENGTH
                    && i.iv_size <= MAX_IV_LENGTH && i.id == cipher_id && i.mode == cipher_mode
                    && i.key_bit_len == key_bit_len
                {
                    Ok(Cipher {
                        info: i,
                        operation: Operation::Unspecified,
                        padding: CipherPadding::Pkcs7,
                        iv: Vec::new(),
                        streaming: false,
                    })
                } else {
                    Err(Error::CipherAlgorithmNotSupported)
                }
            },
            None => Err(Error::CipherAlgorithmNotSupported),
        }
    }

    /// Binds a direction and a key of `key.len()` bytes; a new key drops any
    /// partial stream.
    pub fn set_key(&mut self, op: Operation, key: &[u8]) -> (r: Result<(), Error>)
        ensures
            r is Ok <==> (op != Operation::Unspecified && key_fits(old(self).info, key@.len() as int)),
            r is Err ==> r == Err::<(), Error>(Error::CipherBadInputData) && *final(self) == *old(self),
            r is Ok ==> {
                &&& final(self).operation == op
                &&& !final(self).streaming
                &&& final(self).info == old(self).info
                &&& final(self).padding == old(self).padding
                &&& final(self).iv@ == old(self).iv@
            },
    {
        let len = key.len();
        let fits = if len > MAX_KEY_BITS / 8 {
            false
        } else if self.info.variable_key_len {
            0 < len
        } else {
            len as u64 * 8 == self.info.key_bit_len as u64
        };
        if op == Operation::Unspecified || !fits {
            return Err(Error::CipherBadInputData);
        }
        self.operation = op;
        self.streaming = false;
        Ok(())
    }

    /// Selects the padding scheme; only CBC pads.
    pub fn set_padding(&mut self, padding: CipherPadding) -> (r: Result<(), Error>)
        ensures
            r is Ok <==> old(self).info.mode == CipherMode::CBC,
            r is Err ==> r == Err::<(), Error>(Error::CipherFeatureUnavailable) && *final(self) == *old(self),
            r is Ok ==> *final(self) == (Cipher { padding, ..*old(self) }),
    {
        if self.info.mode != CipherMode::CBC {
            return Err(Error::CipherFeatureUnavailable);
        }
        self.padding = padding;
        Ok(())
    }

    /// Sets the IV or nonce, kept for the authenticated one-shot calls. Its
    /// length must be the cipher's IV size exactly.
    pub fn set_iv(&mut self, iv: &[u8]) -> (r: Result<(), Error>)
        requires
            old(self).wf(),
        ensures
            r is Ok <==> iv@.len() == old(self).info.iv_size,
            r is Err ==> r == Err::<(), Error>(Error::CipherBadInputData) && *final(self) == *old(self),
            r is Ok ==> {
                &&& final(self).wf()
                &&& final(self).iv@ == iv@
                &&& final(self).info == old(self).info
                &&& final(self).operation == old(self).operation
                &&& final(self).padding == old(self).padding
                &&& final(self).streaming == old(self).streaming
            },
    {
        if iv.len() != self.info.iv_size {
            return Err(Error::CipherBadInputData);
        }
        self.iv = copy_bytes(iv);
        Ok(())
    }

    /// Drops any partial block, ready for a new message under the same key and IV.
    pub fn reset(&mut self) -> (r: Result<(), Error>)
        ensures
            r is Ok,
            *final(self) == (Cipher { streaming: false, ..*old(self) }),
    {
        self.streaming = false;
        Ok(())
    }

    /// Checks an update of `in_len` bytes into `out_len` bytes of output
    /// before the engine is called: the output must hold the worst case,
    /// and a key must be bound.
    pub fn update(&mut self, in_len: usize, out_len: usize) -> (r: Result<(), Error>)
        ensures
            out_len < update_capacity(old(self).info, in_len as int) ==>
                r == Err::<(), Error>(Error::CipherFullBlockExpected),
            out_len >= update_capacity(old(self).info, in_len as int) ==> r == (
                if old(self).operation == Operation::Unspecified {
                    Err::<(), Error>(Error::CipherBadInputData)
                } else {
                    Ok::<(), Error>(())
                }),
            r is Err ==> *final(self) == *old(self),
            r is Ok ==> *final(self) == (Cipher { streaming: true, ..*old(self) }),
    {
        let enough = if self.info.mode == CipherMode::ECB {
            out_len >= self.info.block_size
        } else {
            in_len <= out_len && out_len - in_len >= self.info.block_size
        };
        if !enough {
            return Err(Error::CipherFullBlockExpected);
        }
        if self.operation == Operation::Unspecified {
            return Err(Error::CipherBadInputData);
        }
        self.streaming = true;
        Ok(())
    }

    /// Checks a finish into `out_len` bytes of output before the engine is
    /// called: one block must fit.
    pub fn finish(&mut self, out_len: usize) -> (r: Result<(), Error>)
        ensures
            out_len < old(self).info.block_size ==> r == Err::<(), Error>(Error::CipherFullBlockExpected),
            out_len >= old(self).info.block_size ==> r == (
                if old(self).operation == Operation::Unspecified {
                    Err::<(), Error>(Error::CipherBadInputData)
                } else {
                    Ok::<(), Error>(())
                }),
            r is Err ==> *final(self) == *old(self),
            r is Ok ==> *final(self) == (Cipher { streaming: false, ..*old(self) }),
    {
        if out_len < self.info.block_size {
            return Err(Error::CipherFullBlockExpected);
        }
        if self.operation == Operation::Unspecified {
            return Err(Error::CipherBadInputData);
        }
        self.streaming = false;
        Ok(())
    }

    /// Checks that a tag may be written: the key must be bound for encryption.
    pub fn write_tag(&self) -> (r: Result<(), Error>)
        ensures
            r == if self.operation == Operation::Encrypt {
                Ok::<(), Error>(())
            } else {
                Err::<(), Error>(Error::CipherBadInputData)
            },
    {
        if self.operation == Operation::Encrypt {
            Ok(())
        } else {
            Err(Error::CipherBadInputData)
        }
    }

    /// Checks that a tag may be verified: the key must be bound for decryption.
    pub fn check_tag(&self) -> (r: Result<(), Error>)
        ensures
            r == if self.operation == Operation::Decrypt {
                Ok::<(), Error>(())
            } else {
                Err::<(), Error>(Error::CipherBadInputData)
            },
    {
        if self.operation == Operation::Decrypt {
            Ok(())
        } else {
            Err(Error::CipherBadInputData)
        }
    }

    pub fn block_size(&self) -> (r: usize)
        ensures
            r == self.info.block_size,
    {
        self.info.block_size
    }

    pub fn iv_size(&self) -> (r: usize)
        ensures
            r == self.info.iv_size,
    {
        self.info.iv_size
    }

    /// True exactly for the authenticated modes, GCM and CCM.
    pub fn is_authenticated(&self) -> (r: bool)
        ensures
            r == mode_is_aead(self.info.mode),
    {
        self.info.mode == CipherMode::GCM || self.info.mode == CipherMode::CCM
    }

    /// Checks an authenticated encryption of `plain_len` bytes into
    /// `cipher_len` bytes of output, and hands back the IV that the engine
    /// call takes.
    pub fn encrypt_auth(&self, plain_len: usize, cipher_len: usize) -> (r: Result<Vec<u8>, Error>)
        ensures
            r is Ok <==> plain_len <= cipher_len,
            r is Err ==> r == Err::<Vec<u8>, Error>(Error::CipherBadInputData),
            r matches Ok(iv) ==> iv@ == self.iv@,
    {
        if plain_len > cipher_len {
            return Err(Error::CipherBadInputData);
        }
        Ok(self.iv.clone())
    }

    /// Checks an authenticated decryption of `cipher_len` bytes into
    /// `plain_len` bytes of output, and hands back the IV that the engine
    /// call takes. Wrap-style ciphers, whose ciphertext is longer than
    /// their plaintext, are not held to the length check.
    pub fn decrypt_auth(&self, cipher_len: usize, plain_len: usize) -> (r: Result<Vec<u8>, Error>)
        ensures
            r is Ok <==> !(mode_is_aead(self.info.mode) && cipher_len > plain_len),
            r is Err ==> r == Err::<Vec<u8>, Error>(Error::CipherBadInputData),
            r matches Ok(iv) ==> iv@ == self.iv@,
    {
        if self.is_authenticated() && cipher_len > plain_len {
            return Err(Error::CipherBadInputData);
        }
        Ok(self.iv.clone())
    }

    /// Checks a CMAC over a key of `key_len` bytes into `out_len` bytes of
    /// output, and resets the session for it.
    pub fn cmac(&mut self, key_len: usize, out_len: usize) -> (r: Result<(), Error>)
        ensures
            out_len < old(self).info.block_size ==> r == Err::<(), Error>(Error::CipherFullBlockExpected),
            out_len >= old(self).info.block_size ==> r == (
                if key_len * 8 > MAX_KEY_BITS {
                    Err::<(), Error>(Error::CipherBadInputData)
                } else {
                    Ok::<(), Error>(())
                }),
            r is Err ==> *final(self) == *old(self),
            r is Ok ==> *final(self) == (Cipher { streaming: false, ..*old(self) }),
    {
        if out_len < self.info.block_size {
            return Err(Error::CipherFullBlockExpected);
        }
        if key_len > MAX_KEY_BITS / 8 {
            return Err(Error::CipherBadInputData);
        }
        self.streaming = false;
        Ok(())
    }
}

fn copy_bytes(s: &[u8]) -> (r: Vec<u8>)
    ensures
        r@ == s@,
{
    let mut r: Vec<u8> = Vec::new();
    let mut i: usize = 0;
    while i < s.len()
        invariant
            i <= s@.len(),
            r@ == s@.subrange(0, i as int),
        decreases s@.len() - i,
    {
        r.push(s[i]);
        i = i + 1;
    }
    assert(r@ =~= s@);
    r
}

/// What a session reports for an engine call that was given `out_len`
/// bytes of output and answered `engine`: the count it wrote, unless that
/// count exceeds the space it was given.
pub fn engine_output(out_len: usize, engine: Result<usize, Error>) -> (r: Result<usize, Error>)
    ensures
        engine matches Ok(n) ==> (r == if n <= out_len {
            Ok::<usize, Error>(n)
        } else {
            Err::<usize, Error>(Error::CipherInvalidContext)
        }),
        engine is Err ==> r == engine,
{
    match engine {
        Ok(n) => if n <= out_len {
            Ok(n)
        } else {
            Err(Error::CipherInvalidContext)
        },
        Err(e) => Err(e),
    }
}

} // verus!
