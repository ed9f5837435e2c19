use uname::text::decode_field;
use uname::utsname::{IdentityError, Platform, RawIdentity, UtsName};

/// A raw field buffer of length `len`: `text`, a null terminator, zero padding.
fn field(text: &[u8], len: usize) -> Vec<u8> {
    let mut buf = vec![0u8; len];
    buf[..text.len()].copy_from_slice(text);
    buf
}

/// A well-formed raw record of buffer length `len` with distinct field texts.
fn sample_raw(len: usize) -> RawIdentity {
    RawIdentity {
        sysname: field(b"Linux", len),
        nodename: field(b"host1", len),
        release: field(b"6.1.0", len),
        version: field(b"#1 SMP", len),
        machine: field(b"x86_64", len),
    }
}

#[test]
fn sysname_linux_record() {
    let raw = sample_raw(65);
    let id = UtsName::from_raw(&raw, Platform::Linux).unwrap();
    assert_eq!(id.sysname(), "Linux");
}

#[test]
fn sysname_darwin_record() {
    let mut raw = sample_raw(256);
    raw.sysname = field(b"Darwin", 256);
    let id = UtsName::from_raw(&raw, Platform::Darwin).unwrap();
    assert_eq!(id.sysname(), "Darwin");
}

#[test]
fn accessors_return_all_fields() {
    let raw = sample_raw(65);
    let id = UtsName::from_raw(&raw, Platform::Linux).unwrap();
    assert_eq!(id.platform(), Platform::Linux);
    assert_eq!(id.sysname(), "Linux");
    assert_eq!(id.nodename(), "host1");
    assert_eq!(id.release(), "6.1.0");
    assert_eq!(id.version(), "#1 SMP");
    assert_eq!(id.machine(), "x86_64");
}

#[test]
fn fields_have_no_nulls_and_fit() {
    let raw = sample_raw(65);
    let id = UtsName::from_raw(&raw, Platform::Linux).unwrap();
    let fields = [id.sysname(), id.nodename(), id.release(), id.version(), id.machine()];
    for text in fields {
        assert!(!text.contains('\0'));
        assert!(text.len() < 65);
    }
}

#[test]
fn repeated_decode_is_stable() {
    let raw = sample_raw(65);
    let a = UtsName::from_raw(&raw, Platform::Linux).unwrap();
    let b = UtsName::from_raw(&raw, Platform::Linux).unwrap();
    assert_eq!(a.sysname(), b.sysname());
    assert_eq!(a.nodename(), b.nodename());
    assert_eq!(a.release(), b.release());
    assert_eq!(a.version(), b.version());
    assert_eq!(a.machine(), b.machine());
}

#[test]
fn repeated_reads_identical() {
    let raw = sample_raw(65);
    let id = UtsName::from_raw(&raw, Platform::Linux).unwrap();
    let first = id.release().to_owned();
    let second = id.release().to_owned();
    assert_eq!(first, second);
}

#[test]
fn empty_field_allowed() {
    let mut raw = sample_raw(65);
    raw.nodename = field(b"", 65);
    let id = UtsName::from_raw(&raw, Platform::Linux).unwrap();
    assert_eq!(id.nodename(), "");
}

#[test]
fn multibyte_text_decodes() {
    let mut raw = sample_raw(65);
    raw.nodename = field(&[0x43, 0x61, 0x66, 0xC3, 0xA9], 65);
    let id = UtsName::from_raw(&raw, Platform::Linux).unwrap();
    assert_eq!(id.nodename(), "Caf\u{e9}");
}

#[test]
fn wrong_length_rejected() {
    let mut raw = sample_raw(65);
    raw.release = field(b"6.1.0", 64);
    let r = UtsName::from_raw(&raw, Platform::Linux);
    assert_eq!(r.unwrap_err(), IdentityError::Malformed);
}

#[test]
fn wrong_platform_length_rejected() {
    let raw = sample_raw(65);
    let r = UtsName::from_raw(&raw, Platform::Darwin);
    assert_eq!(r.unwrap_err(), IdentityError::Malformed);
}

#[test]
fn missing_terminator_rejected() {
    let mut raw = sample_raw(65);
    raw.machine = vec![b'a'; 65];
    let r = UtsName::from_raw(&raw, Platform::Linux);
    assert_eq!(r.unwrap_err(), IdentityError::Malformed);
}

#[test]
fn invalid_encoding_rejected() {
    let mut raw = sample_raw(65);
    raw.version = field(&[0xFF, 0xFE], 65);
    let r = UtsName::from_raw(&raw, Platform::Linux);
    assert_eq!(r.unwrap_err(), IdentityError::Malformed);
}

#[test]
fn truncated_multibyte_rejected() {
    let mut raw = sample_raw(65);
    raw.nodename = field(&[0xC3], 65);
    let r = UtsName::from_raw(&raw, Platform::Linux);
    assert_eq!(r.unwrap_err(), IdentityError::Malformed);
}

#[test]
fn buffer_len_per_platform() {
    assert_eq!(Platform::Linux.buffer_len(), 65);
    assert_eq!(Platform::Darwin.buffer_len(), 256);
}

#[test]
fn decode_field_takes_prefix_before_null() {
    let mut buf = field(b"abc", 65);
    buf[10] = b'z';
    let decoded = decode_field(&buf, 65).unwrap();
    assert_eq!(decoded, "abc");
}

#[test]
fn clone_preserves_fields() {
    let raw = sample_raw(65);
    let id = UtsName::from_raw(&raw, Platform::Linux).unwrap();
    let copy = id.clone();
    assert_eq!(copy.platform(), id.platform());
    assert_eq!(copy.sysname(), id.sysname());
    assert_eq!(copy.nodename(), id.nodename());
    assert_eq!(copy.release(), id.release());
    assert_eq!(copy.version(), id.version());
    assert_eq!(copy.machine(), id.machine());
}

#[test]
fn error_variants_distinct() {
    assert_ne!(IdentityError::Unavailable, IdentityError::Malformed);
}
