use vstd::prelude::*;

use crate::encryption_key::{self, parse_spec, EncryptionKey};
use vstd::utf8::encode_utf8;

verus! {

/// `serde_json::Map`, carried through as it is: what the logic reads of it
/// is given by `object_fields`.
#[verifier::external_type_specification]
#[verifier::external_body]
#[verifier::reject_recursive_types(K)]
#[verifier::reject_recursive_types(V)]
pub struct ExJsonMap<K, V>(serde_json::Map<K, V>);

/// `serde_json::Value`, the values of a `serde_json::Map`.
#[verifier::external_type_specification]
#[verifier::external_body]
pub struct ExJsonValue(serde_json::Value);

/// The fields of a manifest, as serde_json holds them.
pub type JsonObject = serde_json::Map<String, serde_json::Value>;

/// The value of a JSON field as the manifest logic reads it.
pub enum JsonField {
    /// A JSON string, with its text.
    Text(Seq<char>),
    /// Any other JSON value, with the JSON text that serde_json writes for it.
    Other(Seq<char>),
}

/// The fields of a JSON object, each key with its value.
pub type Fields = Map<Seq<char>, JsonField>;

/// The fields of a JSON object: each key, with its value read as a
/// `JsonField`.
pub uninterp spec fn object_fields(m: serde_json::Map<String, serde_json::Value>) -> Map<
    Seq<char>,
    JsonField,
>;

/// Whether the values of a JSON object nest no deeper than serde_json's
/// parser accepts.
pub uninterp spec fn within_depth(m: serde_json::Map<String, serde_json::Value>) -> bool;

/// The fields, in the sense of `object_fields`, of the JSON object that `text`
/// parses to; `None` where `text` is no JSON object.
pub uninterp spec fn parsed_object(text: Seq<char>) -> Option<Map<Seq<char>, JsonField>>;

/// The keys of the fields, each with the text of its value where that is a
/// JSON string and `None` where it is any other value.
pub open spec fn string_fields(fields: Fields) -> Map<Seq<char>, Option<Seq<char>>> {
    fields.map_values(
        |v: JsonField|
            match v {
                JsonField::Text(s) => Some(s),
                JsonField::Other(_) => None,
            },
    )
}

/// Relies on `FromStr for serde_json::Map<String, Value>` (`serde_json::from_str`):
/// it succeeds on a text that holds one JSON object nested no deeper than its
/// parser accepts, and what it builds depends on the text alone.
#[verifier::external_body]
fn parse_object(text: &str) -> (r: Option<JsonObject>)
    ensures
        match r {
            Some(m) => parsed_object(text@) == Some(object_fields(m)) && within_depth(m),
            None => parsed_object(text@) is None,
        },
{
    text.parse::<JsonObject>().ok()
}

/// Relies on `serde_json::Map::get`: the value under `key`, if any, read as
/// a JSON string or as some other value.
#[verifier::external_body]
fn get_field(m: &JsonObject, key: &str) -> (r: Option<Option<String>>)
    ensures
        match r {
            None => !object_fields(*m).contains_key(key@),
            Some(v) => object_fields(*m).contains_key(key@) && match v {
                Some(s) => object_fields(*m)[key@] == JsonField::Text(s@),
                None => object_fields(*m)[key@] is Other,
            },
        },
{
    match m.get(key) {
        None => None,
        Some(serde_json::Value::String(s)) => Some(Some(s.clone())),
        Some(_) => Some(None),
    }
}

/// Relies on `serde_json::Map::remove`: the entry under `key` leaves and the
/// others stay.
#[verifier::external_body]
fn remove_field(m: &mut JsonObject, key: &str)
    ensures
        object_fields(*final(m)) == object_fields(*old(m)).remove(key@),
        within_depth(*old(m)) ==> within_depth(*final(m)),
{
    m.remove(key);
}

/// Relies on `serde_json::to_string`, which writes the map as a JSON object:
/// with string keys and values of `Value` it does not fail, and where the map
/// nests no deeper than the parser accepts, its keys and string values,
/// escaped as JSON asks, parse back as they were.
#[verifier::external_body]
fn encode_object(m: &JsonObject) -> (r: Option<String>)
    ensures
        match r {
            Some(t) => within_depth(*m) ==> (parsed_object(t@) matches Some(p) && string_fields(p)
                == string_fields(object_fields(*m))),
            None => false,
        },
{
    serde_json::to_string(m).ok()
}

/// The name of the field that holds the hexadecimal key.
pub open spec fn key_field() -> Seq<char> {
    "encryptionKey"@
}

/// The name of the flag that marks the audio as encrypted.
pub open spec fn audio_flag() -> Seq<char> {
    "hasEncryptedAudio"@
}

/// The name of the flag that marks the images as encrypted.
pub open spec fn images_flag() -> Seq<char> {
    "hasEncryptedImages"@
}

/// Why a manifest text was refused.
#[derive(Debug, Clone, PartialEq, Eq)]
pub enum ParseError {
    /// The text is no JSON object.
    NotAnObject,
    /// The object has no `encryptionKey` field.
    EncryptionKeyNotExists,
    /// The `encryptionKey` field holds no JSON string.
    EncryptionKeyIsNotAString,
    /// The `encryptionKey` string is no valid key.
    InvalidEncryptionKey { encryption_key: String, source: encryption_key::ParseError },
}

/// The game's manifest: its key, decoded, and all of its fields.
pub struct SystemJson {
    pub encryption_key: EncryptionKey,
    pub content: JsonObject,
}

/// Whether `r` is what parsing a manifest text with the fields `parsed` gives.
pub open spec fn parse_result(
    parsed: Option<Fields>,
    r: Result<SystemJson, ParseError>,
) -> bool {
    match parsed {
        None => r matches Err(ParseError::NotAnObject),
        Some(fields) => if !fields.contains_key(key_field()) {
            r matches Err(ParseError::EncryptionKeyNotExists)
        } else {
            match fields[key_field()] {
                JsonField::Other(_) => r matches Err(ParseError::EncryptionKeyIsNotAString),
                JsonField::Text(text) => match parse_spec(encode_utf8(text)) {
                    Ok(mask) => r matches Ok(sj) && sj.encryption_key@ == mask && object_fields(
                        sj.content,
                    ) == fields && within_depth(sj.content),
                    Err(e) => r matches Err(
                        ParseError::InvalidEncryptionKey { encryption_key, source },
                    ) && encryption_key@ == text && source == e,
                },
            }
        },
    }
}

impl SystemJson {
    /// Parses a manifest text: a JSON object whose `encryptionKey` field is
    /// a string of hexadecimal digit pairs.
    pub fn from_str(content: &str) -> (r: Result<SystemJson, ParseError>)
        ensures
            parse_result(parsed_object(content@), r),
    {
        let fields = match parse_object(content) {
            Some(m) => m,
            None => return Err(ParseError::NotAnObject),
        };
        let key_text = match get_field(&fields, "encryptionKey") {
            None => return Err(ParseError::EncryptionKeyNotExists),
            Some(None) => return Err(ParseError::EncryptionKeyIsNotAString),
            Some(Some(s)) => s,
        };
        match EncryptionKey::from_str(key_text.as_str()) {
            Ok(encryption_key) => Ok(SystemJson { encryption_key, content: fields }),
            Err(source) => Err(ParseError::InvalidEncryptionKey { encryption_key: key_text, source }),
        }
    }

    /// Records that the assets are no longer encrypted, for a manifest that
    /// stays beside them: both encryption flags are removed, the key stays.
    pub fn mark_as_unencrypted(&mut self)
        ensures
            object_fields(final(self).content) == object_fields(old(self).content).remove(
                audio_flag(),
            ).remove(images_flag()),
            within_depth(old(self).content) ==> within_depth(final(self).content),
            final(self).encryption_key == old(self).encryption_key,
    {
        remove_field(&mut self.content, "hasEncryptedAudio");
        remove_field(&mut self.content, "hasEncryptedImages");
    }

    /// Strips all encryption information, for a manifest copied beside a
    /// decrypted copy of the game: both flags and the key are removed.
    pub fn remove_encryption_info(&mut self)
        ensures
            object_fields(final(self).content) == object_fields(old(self).content).remove(
                images_flag(),
            ).remove(audio_flag()).remove(key_field()),
            within_depth(old(self).content) ==> within_depth(final(self).content),
            final(self).encryption_key == old(self).encryption_key,
    {
        remove_field(&mut self.content, "hasEncryptedImages");
        remove_field(&mut self.content, "hasEncryptedAudio");
        remove_field(&mut self.content, "encryptionKey");
    }

    /// The manifest's fields as JSON text. Where they nest no deeper than the
    /// parser accepts, as those parsed by `from_str` do, the text parses back
    /// to the same keys and the same string values. Other values are written
    /// as serde_json writes them; a float may read back a last digit apart.
    pub fn to_json(&self) -> (r: String)
        ensures
            within_depth(self.content) ==> (parsed_object(r@) matches Some(p) && string_fields(p)
                == string_fields(object_fields(self.content))),
    {
        match encode_object(&self.content) {
            Some(text) => text,
            None => String::new(),
        }
    }
}

} // verus!
