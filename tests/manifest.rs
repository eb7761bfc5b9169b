use rpgmvmz_decrypter::encryption_key;
use rpgmvmz_decrypter::system_json::{ParseError, SystemJson};

fn fields_of(text: &str) -> serde_json::Map<String, serde_json::Value> {
    text.parse::<serde_json::Map<String, serde_json::Value>>().unwrap()
}

#[test]
fn parses_a_manifest_and_its_key() {
    let sj = SystemJson::from_str(
        r#"{"encryptionKey":"a1b2c3d4","hasEncryptedImages":true,"gameTitle":"x"}"#,
    )
    .unwrap();
    assert_eq!(sj.encryption_key.iter(), vec![0xa1, 0xb2, 0xc3, 0xd4]);
    assert_eq!(sj.content.len(), 3);
    assert_eq!(sj.content["gameTitle"], serde_json::Value::String("x".to_string()));
}

#[test]
fn refuses_text_that_is_no_object() {
    assert_eq!(SystemJson::from_str("not json").err(), Some(ParseError::NotAnObject));
    assert_eq!(SystemJson::from_str("[1, 2]").err(), Some(ParseError::NotAnObject));
    assert_eq!(SystemJson::from_str("\"encryptionKey\"").err(), Some(ParseError::NotAnObject));
}

#[test]
fn refuses_a_manifest_without_key() {
    assert_eq!(
        SystemJson::from_str(r#"{"hasEncryptedAudio":true}"#).err(),
        Some(ParseError::EncryptionKeyNotExists)
    );
}

#[test]
fn refuses_a_key_that_is_no_string() {
    assert_eq!(
        SystemJson::from_str(r#"{"encryptionKey":1234}"#).err(),
        Some(ParseError::EncryptionKeyIsNotAString)
    );
    assert_eq!(
        SystemJson::from_str(r#"{"encryptionKey":null}"#).err(),
        Some(ParseError::EncryptionKeyIsNotAString)
    );
}

#[test]
fn refuses_a_malformed_key() {
    assert_eq!(
        SystemJson::from_str(r#"{"encryptionKey":"zz"}"#).err(),
        Some(ParseError::InvalidEncryptionKey {
            encryption_key: "zz".to_string(),
            source: encryption_key::ParseError::InvalidCharacter { c: 'z', index: 0 },
        })
    );
    assert_eq!(
        SystemJson::from_str(r#"{"encryptionKey":"abc"}"#).err(),
        Some(ParseError::InvalidEncryptionKey {
            encryption_key: "abc".to_string(),
            source: encryption_key::ParseError::InvalidLength,
        })
    );
}

#[test]
fn marking_removes_both_flags_and_keeps_the_key() {
    let mut sj = SystemJson::from_str(
        r#"{"encryptionKey":"a1","hasEncryptedImages":true,"hasEncryptedAudio":true,"n":1}"#,
    )
    .unwrap();
    sj.mark_as_unencrypted();
    let out = fields_of(&sj.to_json());
    assert!(!out.contains_key("hasEncryptedImages"));
    assert!(!out.contains_key("hasEncryptedAudio"));
    assert_eq!(out["encryptionKey"], serde_json::Value::String("a1".to_string()));
    assert_eq!(out["n"], serde_json::Value::from(1));
    assert_eq!(out.len(), 2);
}

#[test]
fn marking_a_manifest_without_flags_changes_nothing() {
    let mut sj = SystemJson::from_str(r#"{"encryptionKey":"a1","n":[1,2]}"#).unwrap();
    sj.mark_as_unencrypted();
    assert_eq!(fields_of(&sj.to_json()), fields_of(r#"{"encryptionKey":"a1","n":[1,2]}"#));
}

#[test]
fn removing_encryption_info_removes_the_key_too() {
    let mut sj = SystemJson::from_str(
        r#"{"encryptionKey":"a1","hasEncryptedImages":false,"hasEncryptedAudio":true,"t":"s"}"#,
    )
    .unwrap();
    sj.remove_encryption_info();
    assert_eq!(fields_of(&sj.to_json()), fields_of(r#"{"t":"s"}"#));
}

#[test]
fn refuses_an_empty_key() {
    assert_eq!(
        SystemJson::from_str(r#"{"encryptionKey":""}"#).err(),
        Some(ParseError::InvalidEncryptionKey {
            encryption_key: String::new(),
            source: encryption_key::ParseError::InvalidLength,
        })
    );
}

#[test]
fn written_text_parses_back_to_the_same_fields() {
    let text = r#"{"encryptionKey":"a1","quote":"say \"hi\"\n","n":1.5,"list":[true,null],"o":{"k":"v"}}"#;
    let sj = SystemJson::from_str(text).unwrap();
    assert_eq!(fields_of(&sj.to_json()), fields_of(text));
}

#[test]
fn refuses_a_manifest_nested_deeper_than_the_parser_accepts() {
    let deep = format!(r#"{{"encryptionKey":"a1","d":{}{}}}"#, "[".repeat(200), "]".repeat(200));
    assert_eq!(SystemJson::from_str(&deep).err(), Some(ParseError::NotAnObject));
    let shallow = format!(r#"{{"encryptionKey":"a1","d":{}{}}}"#, "[".repeat(20), "]".repeat(20));
    let sj = SystemJson::from_str(&shallow).unwrap();
    assert_eq!(fields_of(&sj.to_json()), fields_of(&shallow));
}
