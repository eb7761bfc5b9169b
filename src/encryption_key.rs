use vstd::prelude::*;
use vstd::string::StringSliceAdditionalSpecFns;

verus! {

/// The error of `hex::decode`; the key parser tells its variants apart.
#[verifier::external_type_specification]
pub struct ExFromHexError(hex::FromHexError);

/// Whether a byte is an ASCII hexadecimal digit, of either case.
pub open spec fn is_hex_digit(b: u8) -> bool {
    ||| 0x30 <= b <= 0x39
    ||| 0x41 <= b <= 0x46
    ||| 0x61 <= b <= 0x66
}

/// The value of a hexadecimal digit.
pub open spec fn hex_value(b: u8) -> int {
    if 0x30 <= b <= 0x39 {
        b - 0x30
    } else if 0x41 <= b <= 0x46 {
        b - 0x41 + 10
    } else {
        b - 0x61 + 10
    }
}

/// Whether every byte of `s` is a hexadecimal digit.
pub open spec fn all_hex(s: Seq<u8>) -> bool {
    forall|i: int| 0 <= i < s.len() ==> is_hex_digit(#[trigger] s[i])
}

/// Whether `i` is the first position of `s` that holds no hexadecimal digit.
pub open spec fn first_non_hex(s: Seq<u8>, i: int) -> bool {
    &&& 0 <= i < s.len()
    &&& !is_hex_digit(s[i])
    &&& forall|j: int| 0 <= j < i ==> is_hex_digit(#[trigger] s[j])
}

/// The bytes that a string of hexadecimal digit pairs stands for, the more
/// significant digit of each pair first.
pub open spec fn hex_decoded(s: Seq<u8>) -> Seq<u8> {
    Seq::new(s.len() / 2, |i: int| (hex_value(s[2 * i]) * 16 + hex_value(s[2 * i + 1])) as u8)
}

/// Relies on `hex::decode`: it refuses an odd length first, then reports the first
/// byte that is no hexadecimal digit with its index, and otherwise decodes
/// each pair of digits into one byte.
#[verifier::external_body]
fn decode_hex(s: &[u8]) -> (r: Result<Vec<u8>, hex::FromHexError>)
    ensures
        match r {
            Ok(v) => s@.len() % 2 == 0 && all_hex(s@) && v@ == hex_decoded(s@),
            Err(hex::FromHexError::OddLength) => s@.len() % 2 == 1,
            Err(hex::FromHexError::InvalidHexCharacter { c, index }) => {
                &&& s@.len() % 2 == 0
                &&& first_non_hex(s@, index as int)
                &&& c == (s@[index as int] as char)
            },
            Err(hex::FromHexError::InvalidStringLength) => false,
        },
{
    hex::decode(s)
}

/// Why a string is no encryption key.
#[derive(Debug, Clone, Copy, PartialEq, Eq, Structural)]
pub enum ParseError {
    /// The byte at `index` is no hexadecimal digit; `c` is that byte as a character.
    InvalidCharacter { c: char, index: usize },
    /// The string is empty, or has an odd number of bytes so that its digits
    /// do not pair up.
    InvalidLength,
}

/// What parsing the bytes `s` of a hexadecimal string gives: a key is never
/// empty, so an empty or odd length is reported first, then the first byte
/// that is no digit.
pub open spec fn parse_spec(s: Seq<u8>) -> Result<Seq<u8>, ParseError> {
    if s.len() == 0 || s.len() % 2 == 1 {
        Err(ParseError::InvalidLength)
    } else if all_hex(s) {
        Ok(hex_decoded(s))
    } else {
        let i = choose|i: int| first_non_hex(s, i);
        Err(ParseError::InvalidCharacter { c: s[i] as char, index: i as usize })
    }
}

/// Parsing a hexadecimal string: a non-empty even-length string of digits
/// gives half as many bytes, never none; an empty or odd-length one is refused
/// for its length; an even-length one whose first non-digit byte stands at `i`
/// is refused with that byte and `i`.
pub proof fn lemma_parse_outcomes(s: Seq<u8>, i: int)
    ensures
        s.len() > 0 && s.len() % 2 == 0 && all_hex(s) ==> (parse_spec(s) matches Ok(bytes)
            && bytes.len() == s.len() / 2 && bytes.len() > 0),
        s.len() == 0 || s.len() % 2 == 1 ==> parse_spec(s) == Err::<Seq<u8>, ParseError>(
            ParseError::InvalidLength,
        ),
        s.len() % 2 == 0 && first_non_hex(s, i) ==> parse_spec(s) == Err::<Seq<u8>, ParseError>(
            ParseError::InvalidCharacter { c: s[i] as char, index: i as usize },
        ),
{
    if s.len() % 2 == 0 && first_non_hex(s, i) {
        assert(!all_hex(s));
        let j = choose|j: int| first_non_hex(s, j);
        if j < i {
            assert(is_hex_digit(s[j]));
        } else if j > i {
            assert(is_hex_digit(s[i]));
        }
    }
}

/// The byte mask of the cipher, as decoded from the hexadecimal
/// `encryptionKey` of the manifest; never empty.
pub struct EncryptionKey(Vec<u8>);

impl View for EncryptionKey {
    type V = Seq<u8>;

    closed spec fn view(&self) -> Seq<u8> {
        self.0@
    }
}

impl EncryptionKey {
    /// Parses the hexadecimal string `s`, two digits to a byte; the empty
    /// string is no key.
    pub fn from_str(s: &str) -> (r: Result<EncryptionKey, ParseError>)
        ensures
            match r {
                Ok(k) => parse_spec(s.spec_bytes()) == Ok::<Seq<u8>, ParseError>(k@) && k@.len()
                    > 0,
                Err(e) => parse_spec(s.spec_bytes()) == Err::<Seq<u8>, ParseError>(e),
            },
    {
        let bytes = s.as_bytes();
        if bytes.len() == 0 {
            return Err(ParseError::InvalidLength);
        }
        match decode_hex(bytes) {
            Ok(masks) => Ok(EncryptionKey(masks)),
            Err(hex::FromHexError::InvalidHexCharacter { c, index }) => {
                proof {
                    let s = bytes@;
                    assert forall|i: int| first_non_hex(s, i) implies i == index as int by {
                        if i < index as int {
                            assert(is_hex_digit(s[i]));
                        } else if i > index as int {
                            assert(is_hex_digit(s[index as int]));
                        }
                    }
                    assert(!all_hex(s));
                }
                Err(ParseError::InvalidCharacter { c, index })
            },
            Err(_) => Err(ParseError::InvalidLength),
        }
    }

    /// The mask bytes, in order.
    pub fn iter(&self) -> (r: Vec<u8>)
        ensures
            r@ == self@,
    {
        let mut out: Vec<u8> = Vec::new();
        let mut i: usize = 0;
        while i < self.0.len()
            invariant
                i <= self.0@.len(),
                out@ == self.0@.subrange(0, i as int),
            decreases self.0@.len() - i,
        {
            out.push(self.0[i]);
            i = i + 1;
            assert(out@ == self.0@.subrange(0, i as int));
        }
        assert(self.0@.subrange(0, self.0@.len() as int) == self.0@);
        out
    }

    /// The number of mask bytes.
    pub fn len(&self) -> (r: usize)
        ensures
            r == self@.len(),
    {
        self.0.len()
    }

    /// The mask byte at position `i`.
    pub fn get(&self, i: usize) -> (r: u8)
        requires
            i < self@.len(),
        ensures
            r == self@[i as int],
    {
        self.0[i]
    }
}

} // verus!
