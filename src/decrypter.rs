use vstd::prelude::*;

use crate::encryption_key::{parse_spec, EncryptionKey, ParseError};
use vstd::string::StringSliceAdditionalSpecFns;

verus! {

/// The length of the fixed header that opens every encrypted asset.
pub const HEADER_LEN: usize = 16;

/// The buffer after the cipher: the header as it was, each of the first body
/// bytes XORed with the mask byte at its position in the body, and the bytes
/// past the mask as they were.
pub open spec fn decrypted(bytes: Seq<u8>, masks: Seq<u8>) -> Seq<u8> {
    Seq::new(
        bytes.len(),
        |i: int|
            if HEADER_LEN <= i < HEADER_LEN + masks.len() {
                bytes[i] ^ masks[i - HEADER_LEN]
            } else {
                bytes[i]
            },
    )
}

/// Why the mask was not built.
#[derive(Debug, Clone, Copy, PartialEq, Eq, Structural)]
pub enum InitError {
    /// The byte at `index` of the key is no hexadecimal digit.
    InvalidCharacter { c: char, index: usize },
    /// The key has an odd number of bytes.
    InvalidLength,
}

/// Why a buffer was not decrypted.
#[derive(Debug, Clone, Copy, PartialEq, Eq, Structural)]
pub enum DecryptError {
    /// The buffer of length `len` is shorter than the header.
    TooShort { len: usize },
}

/// Applies the positional XOR mask to asset buffers.
pub struct Decrypter {
    masks: Vec<u8>,
}

impl View for Decrypter {
    type V = Seq<u8>;

    closed spec fn view(&self) -> Seq<u8> {
        self.masks@
    }
}

impl Decrypter {
    /// Builds the mask from a hexadecimal key, two digits to a byte.
    pub fn new(encryption_key: &str) -> (r: Result<Decrypter, InitError>)
        ensures
            match r {
                Ok(d) => parse_spec(encryption_key.spec_bytes()) == Ok::<Seq<u8>, ParseError>(d@),
                Err(InitError::InvalidCharacter { c, index }) => parse_spec(
                    encryption_key.spec_bytes(),
                ) == Err::<Seq<u8>, ParseError>(ParseError::InvalidCharacter { c, index }),
                Err(InitError::InvalidLength) => parse_spec(encryption_key.spec_bytes())
                    == Err::<Seq<u8>, ParseError>(ParseError::InvalidLength),
            },
    {
        match EncryptionKey::from_str(encryption_key) {
            Ok(key) => Ok(Decrypter::from_key(&key)),
            Err(ParseError::InvalidCharacter { c, index }) => Err(
                InitError::InvalidCharacter { c, index },
            ),
            Err(ParseError::InvalidLength) => Err(InitError::InvalidLength),
        }
    }

    /// The decrypter whose mask is `key`.
    pub fn from_key(key: &EncryptionKey) -> (r: Decrypter)
        ensures
            r@ == key@,
    {
        Decrypter { masks: key.iter() }
    }

    /// Decrypts `bytes` in place: the header stays, body byte `i` is XORed with
    /// mask byte `i` while both exist, and the rest of the body stays. A buffer
    /// shorter than the header is refused and left as it was.
    pub fn decrypt(&self, bytes: &mut Vec<u8>) -> (r: Result<(), DecryptError>)
        ensures
            old(bytes)@.len() < HEADER_LEN ==> r == Err::<(), DecryptError>(
                DecryptError::TooShort { len: old(bytes)@.len() as usize },
            ) && final(bytes)@ == old(bytes)@,
            old(bytes)@.len() >= HEADER_LEN ==> r is Ok && final(bytes)@ == decrypted(
                old(bytes)@,
                self@,
            ),
    {
        let len = bytes.len();
        if len < HEADER_LEN {
            return Err(DecryptError::TooShort { len });
        }
        let body_len = len - HEADER_LEN;
        let n = if body_len < self.masks.len() {
            body_len
        } else {
            self.masks.len()
        };
        let mut i: usize = 0;
        while i < n
            invariant
                n <= self.masks@.len(),
                HEADER_LEN + n <= len,
                len == bytes@.len(),
                len == old(bytes)@.len(),
                i <= n,
                n == self.masks@.len() || HEADER_LEN + n == len,
                forall|j: int|
                    0 <= j < len ==> #[trigger] bytes@[j] == if HEADER_LEN <= j < HEADER_LEN + i {
                        old(bytes)@[j] ^ self.masks@[j - HEADER_LEN]
                    } else {
                        old(bytes)@[j]
                    },
            decreases n - i,
        {
            let k = HEADER_LEN + i;
            let b = bytes[k] ^ self.masks[i];
            bytes.set(k, b);
            i = i + 1;
        }
        assert(bytes@ == decrypted(old(bytes)@, self.masks@));
        Ok(())
    }
}

/// The cipher keeps the header, XORs each body byte that has a mask byte at
/// its position with it, and keeps the body bytes past the mask.
pub proof fn lemma_decrypted_bytes(bytes: Seq<u8>, masks: Seq<u8>)
    requires
        bytes.len() >= HEADER_LEN,
    ensures
        decrypted(bytes, masks).len() == bytes.len(),
        forall|i: int| 0 <= i < HEADER_LEN ==> #[trigger] decrypted(bytes, masks)[i] == bytes[i],
        forall|i: int|
            0 <= i < bytes.len() - HEADER_LEN && i < masks.len() ==> #[trigger] decrypted(
                bytes,
                masks,
            )[HEADER_LEN + i] == bytes[HEADER_LEN + i] ^ masks[i],
        forall|i: int|
            HEADER_LEN + masks.len() <= i < bytes.len() ==> #[trigger] decrypted(bytes, masks)[i]
                == bytes[i],
{
}

/// Applying the cipher twice with a mask as long as the body gives the
/// buffer back.
pub proof fn lemma_decrypt_twice(bytes: Seq<u8>, masks: Seq<u8>)
    requires
        bytes.len() >= HEADER_LEN,
        masks.len() == bytes.len() - HEADER_LEN,
    ensures
        decrypted(decrypted(bytes, masks), masks) == bytes,
{
    let once = decrypted(bytes, masks);
    let twice = decrypted(once, masks);
    assert forall|i: int| 0 <= i < bytes.len() implies #[trigger] twice[i] == bytes[i] by {
        if HEADER_LEN <= i < HEADER_LEN + masks.len() {
            let a = bytes[i];
            let k = masks[i - HEADER_LEN];
            assert((a ^ k) ^ k == a) by (bit_vector);
        }
    }
    assert(twice == bytes);
}

} // verus!
