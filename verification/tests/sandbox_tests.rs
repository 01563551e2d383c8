use gaol::sandbox::{env_entry, exec_image, Command};
use gaol::utf8::is_valid_utf8;

#[test]
fn env_entry_key_equals_value() {
    let entry = env_entry(&b"FOO".to_vec(), &b"bar".to_vec()).unwrap();
    assert_eq!(entry, b"FOO=bar".to_vec());
}

#[test]
fn env_entry_empty_halves() {
    assert_eq!(env_entry(&Vec::new(), &Vec::new()).unwrap(), b"=".to_vec());
}

#[test]
fn env_entry_multibyte_text() {
    let entry = env_entry(&b"LANG".to_vec(), &"café".as_bytes().to_vec()).unwrap();
    assert_eq!(entry, "LANG=café".as_bytes().to_vec());
}

#[test]
fn env_entry_rejects_non_text_bytes() {
    assert!(env_entry(&vec![0xFF], &b"bar".to_vec()).is_err());
    assert!(env_entry(&b"FOO".to_vec(), &vec![0xC0, 0x80]).is_err());
}

#[test]
fn env_entry_rejects_nul_bytes() {
    assert!(env_entry(&b"FO\0O".to_vec(), &b"bar".to_vec()).is_err());
    assert!(env_entry(&b"FOO".to_vec(), &b"b\0ar".to_vec()).is_err());
}

#[test]
fn exec_image_assembles_argv_and_env() {
    let command = Command {
        program_path: b"/bin/ls".to_vec(),
        args: vec![b"-l".to_vec(), b"/tmp".to_vec()],
        env: vec![
            (b"FOO".to_vec(), b"bar".to_vec()),
            (b"PATH".to_vec(), b"/bin".to_vec()),
        ],
    };
    let image = exec_image(&command).unwrap();
    assert_eq!(
        image.argv,
        vec![b"/bin/ls".to_vec(), b"-l".to_vec(), b"/tmp".to_vec()]
    );
    assert_eq!(image.env, vec![b"FOO=bar".to_vec(), b"PATH=/bin".to_vec()]);
}

#[test]
fn exec_image_rejects_nul_in_path_or_args() {
    let command = Command {
        program_path: b"/bin/\0ls".to_vec(),
        args: Vec::new(),
        env: Vec::new(),
    };
    assert!(exec_image(&command).is_err());

    let command = Command {
        program_path: b"/bin/ls".to_vec(),
        args: vec![b"-\0l".to_vec()],
        env: Vec::new(),
    };
    assert!(exec_image(&command).is_err());
}

#[test]
fn exec_image_rejects_non_text_environment() {
    let command = Command {
        program_path: b"/bin/ls".to_vec(),
        args: Vec::new(),
        env: vec![(b"FOO".to_vec(), vec![0x80])],
    };
    assert!(exec_image(&command).is_err());
}

#[test]
fn utf8_accepts_well_formed_sequences() {
    for bytes in [
        Vec::new(),
        b"hello".to_vec(),
        "héllo wörld".as_bytes().to_vec(),
        vec![0xE2, 0x82, 0xAC],       // three-byte character
        vec![0xF0, 0x9F, 0x98, 0x80], // four-byte character
        vec![0x7F],
        vec![0xC2, 0x80],
        vec![0xED, 0x9F, 0xBF], // last code point before the surrogate range
        vec![0xF4, 0x8F, 0xBF, 0xBF], // largest code point
    ] {
        assert!(is_valid_utf8(&bytes), "rejected {bytes:?}");
        assert!(std::str::from_utf8(&bytes).is_ok());
    }
}

#[test]
fn utf8_rejects_ill_formed_sequences() {
    for bytes in [
        vec![0xFF],
        vec![0x80],             // lone continuation byte
        vec![0xC0, 0x80],       // overlong two-byte form
        vec![0xC1, 0xBF],       // overlong two-byte form
        vec![0xE0, 0x80, 0x80], // overlong three-byte form
        vec![0xED, 0xA0, 0x80], // surrogate
        vec![0xF0, 0x80, 0x80, 0x80], // overlong four-byte form
        vec![0xF4, 0x90, 0x80, 0x80], // beyond the largest code point
        vec![0xF5, 0x80, 0x80, 0x80],
        vec![0xE2, 0x82],       // truncated
        vec![0xC2],             // truncated
        vec![b'a', 0xE2, 0x82, b'b'], // continuation cut short
    ] {
        assert!(!is_valid_utf8(&bytes), "accepted {bytes:?}");
        assert!(std::str::from_utf8(&bytes).is_err());
    }
}
