use cipher_session::error::Error;
use cipher_session::oneshot::{Action, CryptoRun, Stage};
use cipher_session::session::{engine_output, Cipher};
use cipher_session::types::{CipherId, CipherInfo, CipherMode, CipherPadding, Operation};

fn info(id: CipherId, mode: CipherMode, key_bit_len: u32, block_size: usize, iv_size: usize) -> CipherInfo {
    CipherInfo {
        id,
        mode,
        key_bit_len,
        block_size,
        iv_size,
        variable_key_len: false,
    }
}

fn aes(mode: CipherMode) -> Cipher {
    let iv_size = if mode == CipherMode::ECB { 0 } else if mode == CipherMode::GCM || mode == CipherMode::CCM { 12 } else { 16 };
    Cipher::setup(CipherId::Aes, mode, 128, Some(info(CipherId::Aes, mode, 128, 16, iv_size))).unwrap()
}

/// Runs a one-shot action sequence with `engine` standing for the block
/// cipher: it gets the input range and writes into the output slice.
fn drive(
    c: &mut Cipher,
    start: (CryptoRun, Action),
    input: &[u8],
    out: &mut [u8],
    engine: &mut dyn FnMut(&[u8], &mut [u8]) -> usize,
) -> (Result<usize, Error>, Vec<Action>) {
    let (mut run, mut action) = start;
    let mut seen = Vec::new();
    loop {
        seen.push(action);
        let event = match action {
            Action::Reset => Ok(0),
            Action::Update { input_start, input_end, output_start } => {
                Ok(engine(&input[input_start..input_end], &mut out[output_start..]))
            }
            Action::Finish { .. } => Ok(0),
            Action::Done(n) => return (Ok(n), seen),
            Action::Fail(e) => return (Err(e), seen),
        };
        action = c.step(&mut run, event);
    }
}

#[test]
fn setup_accepts_matching_descriptor() {
    let c = aes(CipherMode::CBC);
    assert_eq!(c.block_size(), 16);
    assert_eq!(c.iv_size(), 16);
    assert_eq!(c.operation, Operation::Unspecified);
}

#[test]
fn setup_rejects_missing_or_mismatched_descriptor() {
    let r = Cipher::setup(CipherId::Aes, CipherMode::CBC, 128, None);
    assert!(matches!(r, Err(Error::CipherAlgorithmNotSupported)));
    let r = Cipher::setup(CipherId::Aes, CipherMode::CBC, 256, Some(info(CipherId::Aes, CipherMode::CBC, 128, 16, 16)));
    assert!(matches!(r, Err(Error::CipherAlgorithmNotSupported)));
    let r = Cipher::setup(CipherId::Aes, CipherMode::CBC, 128, Some(info(CipherId::Aes, CipherMode::CBC, 128, 0, 16)));
    assert!(matches!(r, Err(Error::CipherAlgorithmNotSupported)));
}

#[test]
fn set_key_checks_length_and_direction() {
    let mut c = aes(CipherMode::CBC);
    assert_eq!(c.set_key(Operation::Encrypt, &[0u8; 15]), Err(Error::CipherBadInputData));
    assert_eq!(c.set_key(Operation::Unspecified, &[0u8; 16]), Err(Error::CipherBadInputData));
    assert_eq!(c.operation, Operation::Unspecified);
    assert_eq!(c.set_key(Operation::Decrypt, &[0u8; 16]), Ok(()));
    assert_eq!(c.operation, Operation::Decrypt);
}

#[test]
fn set_key_variable_length() {
    let mut i = info(CipherId::Blowfish, CipherMode::CBC, 128, 8, 8);
    i.variable_key_len = true;
    let mut c = Cipher::setup(CipherId::Blowfish, CipherMode::CBC, 128, Some(i)).unwrap();
    assert_eq!(c.set_key(Operation::Encrypt, &[1u8; 7]), Ok(()));
    assert_eq!(c.set_key(Operation::Encrypt, &[]), Err(Error::CipherBadInputData));
}

#[test]
fn set_padding_only_in_cbc() {
    let mut c = aes(CipherMode::CBC);
    assert_eq!(c.set_padding(CipherPadding::NoPadding), Ok(()));
    assert_eq!(c.padding, CipherPadding::NoPadding);
    let mut e = aes(CipherMode::ECB);
    assert_eq!(e.set_padding(CipherPadding::Zeros), Err(Error::CipherFeatureUnavailable));
    assert_eq!(e.padding, CipherPadding::Pkcs7);
}

#[test]
fn set_iv_checks_length() {
    let mut c = aes(CipherMode::CBC);
    assert_eq!(c.set_iv(&[0u8; 12]), Err(Error::CipherBadInputData));
    assert_eq!(c.set_iv(&[7u8; 16]), Ok(()));
    assert_eq!(c.iv, vec![7u8; 16]);
    let mut g = aes(CipherMode::GCM);
    assert_eq!(g.set_iv(&[1u8; 8]), Err(Error::CipherBadInputData));
    assert_eq!(g.set_iv(&[1u8; 16]), Err(Error::CipherBadInputData));
    assert_eq!(g.set_iv(&[]), Err(Error::CipherBadInputData));
    assert!(g.iv.is_empty());
    assert_eq!(g.set_iv(&[1u8; 12]), Ok(()));
    assert_eq!(g.iv, vec![1u8; 12]);
}

#[test]
fn update_needs_worst_case_space() {
    let mut c = aes(CipherMode::CBC);
    c.set_key(Operation::Encrypt, &[0u8; 16]).unwrap();
    assert_eq!(c.update(16, 31), Err(Error::CipherFullBlockExpected));
    assert!(!c.streaming);
    assert_eq!(c.update(16, 32), Ok(()));
    assert!(c.streaming);
    assert_eq!(c.update(usize::MAX, usize::MAX), Err(Error::CipherFullBlockExpected));
    let mut e = aes(CipherMode::ECB);
    e.set_key(Operation::Encrypt, &[0u8; 16]).unwrap();
    assert_eq!(e.update(16, 15), Err(Error::CipherFullBlockExpected));
    assert_eq!(e.update(16, 16), Ok(()));
}

#[test]
fn update_without_key_is_refused() {
    let mut c = aes(CipherMode::CTR);
    assert_eq!(c.update(4, 20), Err(Error::CipherBadInputData));
    assert_eq!(c.finish(16), Err(Error::CipherBadInputData));
}

#[test]
fn finish_needs_one_block() {
    let mut c = aes(CipherMode::CBC);
    c.set_key(Operation::Decrypt, &[0u8; 16]).unwrap();
    assert_eq!(c.finish(15), Err(Error::CipherFullBlockExpected));
    assert_eq!(c.finish(16), Ok(()));
    assert_eq!(c.reset(), Ok(()));
}

#[test]
fn tags_follow_direction() {
    let mut c = aes(CipherMode::GCM);
    assert_eq!(c.write_tag(), Err(Error::CipherBadInputData));
    c.set_key(Operation::Encrypt, &[0u8; 16]).unwrap();
    assert_eq!(c.write_tag(), Ok(()));
    assert_eq!(c.check_tag(), Err(Error::CipherBadInputData));
    c.set_key(Operation::Decrypt, &[0u8; 16]).unwrap();
    assert_eq!(c.check_tag(), Ok(()));
}

#[test]
fn authenticated_exactly_for_gcm_and_ccm() {
    let modes = [
        CipherMode::Unspecified,
        CipherMode::ECB,
        CipherMode::CBC,
        CipherMode::CFB,
        CipherMode::OFB,
        CipherMode::CTR,
        CipherMode::GCM,
        CipherMode::STREAM,
        CipherMode::CCM,
    ];
    for id in [CipherId::Aes, CipherId::Camellia, CipherId::Des] {
        for m in modes {
            let c = Cipher::setup(id, m, 128, Some(info(id, m, 128, 16, 12))).unwrap();
            assert_eq!(c.is_authenticated(), m == CipherMode::GCM || m == CipherMode::CCM);
        }
    }
}

#[test]
fn encrypt_auth_checks_output_and_hands_iv() {
    let mut c = aes(CipherMode::GCM);
    c.set_iv(&[5u8; 12]).unwrap();
    assert_eq!(c.encrypt_auth(17, 16), Err(Error::CipherBadInputData));
    assert_eq!(c.encrypt_auth(16, 16), Ok(vec![5u8; 12]));
}

#[test]
fn decrypt_auth_length_rule() {
    let g = aes(CipherMode::GCM);
    assert_eq!(g.decrypt_auth(17, 16), Err(Error::CipherBadInputData));
    assert_eq!(g.decrypt_auth(16, 16), Ok(vec![]));
    let e = aes(CipherMode::ECB);
    assert_eq!(e.decrypt_auth(24, 16), Ok(vec![]));
}

#[test]
fn engine_output_bounds() {
    assert_eq!(engine_output(16, Ok(16)), Ok(16));
    assert_eq!(engine_output(16, Ok(17)), Err(Error::CipherInvalidContext));
    assert_eq!(engine_output(16, Err(Error::CipherAuthFailed)), Err(Error::CipherAuthFailed));
}

#[test]
fn cmac_needs_one_block_of_output() {
    let mut c = aes(CipherMode::ECB);
    assert_eq!(c.cmac(16, 15), Err(Error::CipherFullBlockExpected));
    assert_eq!(c.cmac(16, 16), Ok(()));
    assert!(!c.streaming);
}

#[test]
fn engine_error_codes() {
    assert_eq!(Error::from_engine(-0x6300), Error::CipherAuthFailed);
    assert_eq!(Error::from_engine(-0x6280), Error::CipherFullBlockExpected);
    assert_eq!(Error::from_engine(-0x6100), Error::CipherBadInputData);
    assert_eq!(Error::from_engine(-1), Error::Other(-1));
}

#[test]
fn native_codes_round_trip() {
    for code in 0..8u32 {
        assert_eq!(CipherId::from_code(code).unwrap().code(), code);
    }
    for code in 0..9u32 {
        assert_eq!(CipherMode::from_code(code).unwrap().code(), code);
    }
    assert_eq!(CipherId::from_code(2), Ok(CipherId::Aes));
    assert_eq!(CipherMode::from_code(6), Ok(CipherMode::GCM));
    assert_eq!(CipherId::from_code(8), Err(Error::UnknownCipher));
    assert_eq!(CipherMode::from_code(9), Err(Error::UnknownMode));
}

#[test]
fn descriptor_fields() {
    let i = CipherInfo::from_descriptor(2, 6, 128, 12, 1, 16).unwrap();
    assert_eq!(i.id, CipherId::Aes);
    assert_eq!(i.mode, CipherMode::GCM);
    assert_eq!(i.iv_size, 12);
    assert_eq!(i.block_size, 16);
    assert!(!i.variable_key_len);
    let b = CipherInfo::from_descriptor(6, 2, 128, 8, 2, 8).unwrap();
    assert!(b.variable_key_len);
    assert_eq!(CipherInfo::from_descriptor(9, 2, 128, 8, 0, 8), Err(Error::UnknownCipher));
    assert_eq!(CipherInfo::from_descriptor(2, 12, 128, 8, 0, 8), Err(Error::UnknownMode));
}

#[test]
fn des_key_parity() {
    let mut key = [0x00u8, 0x01, 0x02, 0x03, 0xfe, 0xff, 0x10, 0x80, 0x00];
    assert_eq!(Cipher::set_parity(&mut key), Ok(()));
    assert_eq!(key, [0x01, 0x01, 0x02, 0x02, 0xfe, 0xfe, 0x10, 0x80, 0x00]);
    for b in key[..8].iter() {
        assert_eq!(b.count_ones() % 2, 1);
    }
}

#[test]
fn no_overflow() {
    let mut c = aes(CipherMode::CBC);
    c.set_key(Operation::Encrypt, &[0u8; 16]).unwrap();
    c.set_iv(&[0u8; 16]).unwrap();
    let mut out = [0u8; 48];
    let start = c.encrypt(16, 16);
    let (r, seen) = drive(&mut c, start, &[0u8; 16], &mut out[..16], &mut |_, o| {
        o[..16].copy_from_slice(&[0xaa; 16]);
        16
    });
    assert_eq!(r, Err(Error::CipherFullBlockExpected));
    assert_eq!(out[16..], [0u8; 32]);
    assert_eq!(out[..16], [0u8; 16]);
    assert_eq!(seen, vec![Action::Reset, Action::Fail(Error::CipherFullBlockExpected)]);
}

#[test]
fn ecb_one_shot_concatenates_blocks() {
    let block_in = [0x00u8, 0x11, 0x22, 0x33, 0x44, 0x55, 0x66, 0x77, 0x88, 0x99, 0xaa, 0xbb, 0xcc, 0xdd, 0xee, 0xff];
    let block_out = [0x69u8, 0xc4, 0xe0, 0xd8, 0x6a, 0x7b, 0x04, 0x30, 0xd8, 0xcd, 0xb7, 0x80, 0x70, 0xb4, 0xc5, 0x5a];
    let mut c = aes(CipherMode::ECB);
    c.set_key(Operation::Encrypt, b"\x00\x01\x02\x03\x04\x05\x06\x07\x08\x09\x0a\x0b\x0c\x0d\x0e\x0f").unwrap();
    let mut input = block_in.to_vec();
    input.extend_from_slice(&block_in);
    let mut out = [0u8; 48];
    let start = c.encrypt(32, 48);
    let (r, seen) = drive(&mut c, start, &input, &mut out, &mut |i, o| {
        assert_eq!(i.len(), 16);
        assert_eq!(i, &block_in[..]);
        o[..16].copy_from_slice(&block_out);
        16
    });
    assert_eq!(r, Ok(32));
    assert_eq!(out[..16], block_out);
    assert_eq!(out[16..32], block_out);
    assert_eq!(out[32..], [0u8; 16]);
    assert_eq!(
        seen,
        vec![
            Action::Reset,
            Action::Update { input_start: 0, input_end: 16, output_start: 0 },
            Action::Update { input_start: 16, input_end: 32, output_start: 16 },
            Action::Done(32),
        ]
    );
}

#[test]
fn ecb_last_chunk_is_shorter() {
    let mut c = Cipher::setup(CipherId::Des, CipherMode::ECB, 64, Some(info(CipherId::Des, CipherMode::ECB, 64, 8, 0))).unwrap();
    c.set_key(Operation::Encrypt, &[0u8; 8]).unwrap();
    let mut out = [0u8; 24];
    let start = c.encrypt(20, 24);
    let mut sizes = Vec::new();
    let (r, _) = drive(&mut c, start, &[3u8; 20], &mut out, &mut |i, _| {
        sizes.push(i.len());
        8
    });
    assert_eq!(sizes, vec![8, 8, 4]);
    assert_eq!(r, Ok(24));
}

#[test]
fn ecb_empty_input_writes_nothing() {
    let mut c = aes(CipherMode::ECB);
    c.set_key(Operation::Encrypt, &[0u8; 16]).unwrap();
    let start = c.encrypt(0, 0);
    let (r, seen) = drive(&mut c, start, &[], &mut [], &mut |_, _| panic!("no block to encrypt"));
    assert_eq!(r, Ok(0));
    assert_eq!(seen, vec![Action::Reset, Action::Done(0)]);
}

#[test]
fn cbc_one_shot_updates_then_finishes() {
    let mut c = aes(CipherMode::CBC);
    c.set_key(Operation::Decrypt, &[0u8; 16]).unwrap();
    let mut out = [0u8; 64];
    let start = c.decrypt(32, 64);
    let (r, seen) = drive(&mut c, start, &[9u8; 32], &mut out, &mut |_, _| 16);
    assert_eq!(r, Ok(16));
    assert_eq!(
        seen,
        vec![
            Action::Reset,
            Action::Update { input_start: 0, input_end: 32, output_start: 0 },
            Action::Finish { output_start: 16 },
            Action::Done(16),
        ]
    );
}

#[test]
fn engine_errors_end_the_run() {
    let mut c = aes(CipherMode::CBC);
    c.set_key(Operation::Decrypt, &[0u8; 16]).unwrap();
    let (mut run, _) = c.decrypt(16, 32);
    assert_eq!(c.step(&mut run, Err(Error::CipherAllocFailed)), Action::Fail(Error::CipherAllocFailed));
    assert_eq!(run.stage, Stage::Over);
    assert_eq!(c.step(&mut run, Ok(0)), Action::Fail(Error::CipherBadInputData));
}

#[test]
fn overlong_engine_report_is_refused() {
    let mut c = aes(CipherMode::CTR);
    c.set_key(Operation::Encrypt, &[0u8; 16]).unwrap();
    let (mut run, _) = c.encrypt(4, 20);
    assert_eq!(c.step(&mut run, Ok(0)), Action::Update { input_start: 0, input_end: 4, output_start: 0 });
    assert_eq!(c.step(&mut run, Ok(21)), Action::Fail(Error::CipherInvalidContext));
}

#[test]
fn finish_space_checked_after_update() {
    let mut c = aes(CipherMode::CBC);
    c.set_key(Operation::Encrypt, &[0u8; 16]).unwrap();
    let (mut run, _) = c.encrypt(16, 32);
    assert_eq!(c.step(&mut run, Ok(0)), Action::Update { input_start: 0, input_end: 16, output_start: 0 });
    assert_eq!(c.step(&mut run, Ok(32)), Action::Fail(Error::CipherFullBlockExpected));
}

/// Stands for AES-128 under the key 00..0f on the one block this test feeds.
fn aes_128_known_block(i: &[u8], o: &mut [u8]) -> usize {
    assert_eq!(i, b"\x00\x11\x22\x33\x44\x55\x66\x77\x88\x99\xaa\xbb\xcc\xdd\xee\xff");
    o[..16].copy_from_slice(b"\x69\xc4\xe0\xd8\x6a\x7b\x04\x30\xd8\xcd\xb7\x80\x70\xb4\xc5\x5a");
    16
}

#[test]
fn one_part_ecb() {
    let mut c = aes(CipherMode::ECB);
    c.set_key(
        Operation::Encrypt,
        b"\x00\x01\x02\x03\x04\x05\x06\x07\x08\x09\x0a\x0b\x0c\x0d\x0e\x0f",
    )
    .unwrap();
    let mut out = [0u8; 48];
    let plain = b"\x00\x11\x22\x33\x44\x55\x66\x77\x88\x99\xaa\xbb\xcc\xdd\xee\xff\x00\x11\x22\x33\x44\x55\x66\x77\x88\x99\xaa\xbb\xcc\xdd\xee\xff";
    let start = c.encrypt(plain.len(), out.len());
    let (r, _) = drive(&mut c, start, plain, &mut out, &mut aes_128_known_block);
    let len = r.unwrap();
    assert_eq!(len, 32);
    assert_eq!(&out[..len], b"\x69\xc4\xe0\xd8\x6a\x7b\x04\x30\xd8\xcd\xb7\x80\x70\xb4\xc5\x5a\x69\xc4\xe0\xd8\x6a\x7b\x04\x30\xd8\xcd\xb7\x80\x70\xb4\xc5\x5a");
}

#[test]
fn cmac_test() {
    // The tag itself is the engine's; the session decides whether the call
    // may go ahead with this key and a 16-byte output.
    let mut c = aes(CipherMode::ECB);
    let out = [0u8; 16];
    let key = b"\x00\x01\x02\x03\x04\x05\x06\x07\x08\x09\x0a\x0b\x0c\x0d\x0e\x0f";
    c.cmac(key.len(), out.len()).expect("Success in CMAC");
    assert!(!c.streaming);
}
