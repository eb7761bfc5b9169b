use rpgmvmz_decrypter::decrypter::{DecryptError, InitError};
use rpgmvmz_decrypter::encryption_key::ParseError as KeyError;
use rpgmvmz_decrypter::messages::{
    show_decrypt_error, show_decryption_error, show_init_error, show_invalid_encryption_key_error,
    show_parse_system_json_error,
};
use rpgmvmz_decrypter::pipeline::{DecryptionError, FileFailure, FileOp, ScanFailure};
use rpgmvmz_decrypter::system_json::ParseError;
use rpgmvmz_decrypter::text::decimal;

#[test]
fn decimal_notation() {
    assert_eq!(decimal(0), "0");
    assert_eq!(decimal(7), "7");
    assert_eq!(decimal(10), "10");
    assert_eq!(decimal(1234567890), "1234567890");
    assert_eq!(decimal(u128::MAX), u128::MAX.to_string());
}

#[test]
fn key_errors_count_positions_from_one() {
    assert_eq!(
        show_invalid_encryption_key_error(&KeyError::InvalidCharacter { c: 'z', index: 0 }),
        "invalid character 'z' at position 1"
    );
    assert_eq!(show_invalid_encryption_key_error(&KeyError::InvalidLength), "invalid length");
    assert_eq!(
        show_init_error(&InitError::InvalidCharacter { c: 'g', index: 11 }),
        "invalid character 'g' at position 12"
    );
}

#[test]
fn manifest_parse_errors() {
    assert_eq!(show_parse_system_json_error(&ParseError::NotAnObject), "content is not an object");
    assert_eq!(
        show_parse_system_json_error(&ParseError::EncryptionKeyNotExists),
        "encryptionKey not exists"
    );
    assert_eq!(
        show_parse_system_json_error(&ParseError::EncryptionKeyIsNotAString),
        "encryptionKey is not a string"
    );
    assert_eq!(
        show_parse_system_json_error(&ParseError::InvalidEncryptionKey {
            encryption_key: "abc".to_string(),
            source: KeyError::InvalidLength,
        }),
        "encryptionKey is invalid(abc): invalid length"
    );
}

#[test]
fn short_buffer_message() {
    assert_eq!(
        show_decrypt_error(&DecryptError::TooShort { len: 3 }),
        "the file holds 3 bytes, fewer than its 16-byte header"
    );
}

#[test]
fn run_errors() {
    assert_eq!(
        show_decryption_error(&DecryptionError::NotExists("g".to_string())),
        "specified path does not exist: g"
    );
    assert_eq!(
        show_decryption_error(&DecryptionError::NotADirectory("g".to_string())),
        "specified path is not a directory: g"
    );
    assert_eq!(
        show_decryption_error(&DecryptionError::SystemJsonNotFound),
        "System.json was not found"
    );
    assert_eq!(
        show_decryption_error(&DecryptionError::ReadSystemJson {
            path: "g/data/System.json".to_string(),
            cause: "denied".to_string(),
        }),
        "failed to read System.json(g/data/System.json): denied"
    );
    assert_eq!(
        show_decryption_error(&DecryptionError::ParseSystemJson {
            path: "s.json".to_string(),
            source: ParseError::InvalidEncryptionKey {
                encryption_key: "zz".to_string(),
                source: KeyError::InvalidCharacter { c: 'z', index: 0 },
            },
        }),
        "failed to parse System.json(s.json): encryptionKey is invalid(zz): invalid character 'z' at position 1"
    );
    assert_eq!(
        show_decryption_error(&DecryptionError::MarkSystemJsonAsUnencrypted {
            path: "s.json".to_string(),
            cause: "full".to_string(),
        }),
        "failed to mark System.json as unencrypted(s.json): full"
    );
}

#[test]
fn incomplete_run_lists_each_failure_on_its_own_line() {
    let e = DecryptionError::Incomplete {
        scan: vec![
            ScanFailure { path: Some("g/x".to_string()), cause: "denied".to_string() },
            ScanFailure { path: None, cause: "loop".to_string() },
        ],
        files: vec![
            FileFailure { path: "g/a.rpgmvp".to_string(), op: FileOp::Read, cause: "gone".to_string() },
            FileFailure { path: "g/b.rpgmvo".to_string(), op: FileOp::Remove, cause: "busy".to_string() },
        ],
    };
    assert_eq!(
        show_decryption_error(&e),
        "failed to scan g/x: denied\nfailed to scan: loop\nfailed to read encrypted file(g/a.rpgmvp): gone\nfailed to remove encrypted file(g/b.rpgmvo): busy"
    );
    let empty = DecryptionError::Incomplete { scan: Vec::new(), files: Vec::new() };
    assert_eq!(show_decryption_error(&empty), "");
}
