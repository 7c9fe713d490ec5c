use vstd::prelude::*;
use vstd::utf8::*;

use crate::error::ChunkError;

verus! {

/// True when `b` is an ASCII uppercase letter.
pub open spec fn is_upper(b: u8) -> bool {
    65 <= b <= 90
}

/// True when `b` is an ASCII lowercase letter.
pub open spec fn is_lower(b: u8) -> bool {
    97 <= b <= 122
}

/// True when `b` is an ASCII letter.
pub open spec fn is_alpha(b: u8) -> bool {
    is_upper(b) || is_lower(b)
}

/// True when every byte of `s` is an ASCII letter.
pub open spec fn all_alpha(s: Seq<u8>) -> bool {
    forall|i: int| 0 <= i < s.len() ==> is_alpha(#[trigger] s[i])
}

/// True when bit 5 of `b` (the case bit of a letter) is clear.
pub open spec fn bit5_clear(b: u8) -> bool {
    b & 32 == 0
}

/// A type code that PNG accepts: four letters whose third is uppercase.
pub open spec fn valid_type(t: Seq<u8>) -> bool {
    t.len() == 4 && all_alpha(t) && bit5_clear(t[2])
}

/// True when `c` is an ASCII letter.
pub open spec fn is_alpha_char(c: char) -> bool {
    ('A' <= c <= 'Z') || ('a' <= c <= 'z')
}

/// What parsing a type code from text gives: the character check comes
/// first, then the length check; the reserved bit is not looked at.
pub open spec fn type_from_chars(s: Seq<char>) -> Result<Seq<u8>, ChunkError> {
    if exists|i: int| 0 <= i < s.len() && !is_alpha_char(#[trigger] s[i]) {
        Err(ChunkError::InvalidCharacter)
    } else if s.len() != 4 {
        Err(ChunkError::InvalidLength)
    } else {
        Ok(s.map_values(|c: char| c as u8))
    }
}

/// The characters that the bytes of a type code stand for.
pub open spec fn type_chars(t: Seq<u8>) -> Seq<char> {
    t.map_values(|b: u8| b as char)
}

/// `(b >> 5) & 1` reads the same bit as `b & 32`.
proof fn lemma_shifted_bit5(b: u8)
    ensures
        ((b >> 5u8) & 1u8 == 0u8) == bit5_clear(b),
        ((b >> 5u8) & 1u8 == 1u8) == !bit5_clear(b),
{
    assert(((b >> 5u8) & 1u8 == 0u8) == (b & 32u8 == 0u8)) by (bit_vector);
    assert(((b >> 5u8) & 1u8 == 1u8) == (b & 32u8 != 0u8)) by (bit_vector);
}

/// The case bit of a letter: clear for uppercase, set for lowercase. So
/// each of a type code's properties (critical, public, reserved bit valid,
/// safe to copy) is read off the case of the letter at its position.
pub proof fn lemma_case_bit(b: u8)
    ensures
        is_upper(b) ==> bit5_clear(b),
        is_lower(b) ==> !bit5_clear(b),
        is_alpha(b) ==> (bit5_clear(b) <==> is_upper(b)),
{
    assert(65u8 <= b <= 90u8 ==> b & 32u8 == 0u8) by (bit_vector);
    assert(97u8 <= b <= 122u8 ==> b & 32u8 != 0u8) by (bit_vector);
}

/// A type code parsed from four ASCII letters is accepted whatever the case
/// of its third letter, and is valid exactly when that letter is uppercase.
pub proof fn lemma_text_type_skips_reserved_bit(s: Seq<char>)
    requires
        s.len() == 4,
        forall|i: int| 0 <= i < 4 ==> is_alpha_char(#[trigger] s[i]),
    ensures
        type_from_chars(s) is Ok,
        valid_type(type_from_chars(s)->Ok_0) <==> ('A' <= s[2] <= 'Z'),
{
    let t = s.map_values(|c: char| c as u8);
    assert(all_alpha(t));
    lemma_case_bit(t[2]);
}

/// A four-byte PNG chunk type code.
#[derive(Debug)]
pub struct ChunkType {
    ctype: [u8; 4],
}

impl View for ChunkType {
    type V = Seq<u8>;

    closed spec fn view(&self) -> Seq<u8> {
        self.ctype@
    }
}

impl ChunkType {
    /// Every byte of a type code is an ASCII letter, whichever
    /// constructor made it.
    #[verifier::type_invariant]
    spec fn inv(self) -> bool {
        all_alpha(self.ctype@)
    }

    /// Builds a type code from four bytes, accepting only a valid one.
    pub fn try_from(value: [u8; 4]) -> (r: Result<ChunkType, ChunkError>)
        ensures
            valid_type(value@) ==> (r matches Ok(t) && t@ == value@),
            !valid_type(value@) ==> r == Err::<ChunkType, ChunkError>(ChunkError::InvalidChunkType),
    {
        if bytes_alphabetic(value) && reserved_bit_clear(value[2]) {
            Ok(ChunkType { ctype: value })
        } else {
            Err(ChunkError::InvalidChunkType)
        }
    }

    /// Builds a type code from four ASCII letters; the reserved bit is
    /// not checked here (see `is_valid`).
    pub fn from_str(s: &str) -> (r: Result<ChunkType, ChunkError>)
        ensures
            match r {
                Ok(t) => type_from_chars(s@) == Ok::<Seq<u8>, ChunkError>(t@),
                Err(e) => type_from_chars(s@) == Err::<Seq<u8>, ChunkError>(e),
            },
    {
        proof {
            broadcast use vstd::string::is_ascii_spec_bytes;
        }
        if !s.is_ascii() {
            proof {
                let i = choose|i: int| 0 <= i < s@.len() && !('\0' <= #[trigger] s@[i] <= '\u{7f}');
                assert(!is_alpha_char(s@[i]));
            }
            return Err(ChunkError::InvalidCharacter);
        }
        let b = s.as_bytes();
        assert(b@.len() == s@.len());
        let n = b.len();
        let mut i: usize = 0;
        while i < n
            invariant
                n == b@.len(),
                b@.len() == s@.len(),
                vstd::string::is_ascii(s),
                forall|k: int| 0 <= k < s@.len() ==> #[trigger] b@[k] == s@[k] as u8,
                0 <= i <= n,
                forall|k: int| 0 <= k < i ==> is_alpha_char(#[trigger] s@[k]),
            decreases n - i,
        {
            let c = b[i];
            assert(c == s@[i as int] as u8);
            if !((c >= 65 && c <= 90) || (c >= 97 && c <= 122)) {
                assert(!is_alpha_char(s@[i as int]));
                return Err(ChunkError::InvalidCharacter);
            }
            assert(is_alpha_char(s@[i as int]));
            i = i + 1;
        }
        if n != 4 {
            return Err(ChunkError::InvalidLength);
        }
        let value: [u8; 4] = [b[0], b[1], b[2], b[3]];
        assert(value@ =~= s@.map_values(|c: char| c as u8));
        Ok(ChunkType { ctype: value })
    }

    /// The four bytes of the code.
    pub fn bytes(&self) -> (r: [u8; 4])
        ensures
            r@ == self@,
    {
        self.ctype
    }

    /// True when the code is four letters with an uppercase third letter.
    pub fn is_valid(&self) -> (r: bool)
        ensures
            r == valid_type(self@),
    {
        bytes_alphabetic(self.ctype) && self.is_reserved_bit_valid()
    }

    /// True when the first letter is uppercase: the chunk is critical.
    pub fn is_critical(&self) -> (r: bool)
        ensures
            r == bit5_clear(self@[0]),
    {
        proof {
            lemma_shifted_bit5(self.ctype[0]);
        }
        (self.ctype[0] >> 5) & 1 == 0
    }

    /// True when the second letter is uppercase: the chunk is public.
    pub fn is_public(&self) -> (r: bool)
        ensures
            r == bit5_clear(self@[1]),
    {
        proof {
            lemma_shifted_bit5(self.ctype[1]);
        }
        (self.ctype[1] >> 5) & 1 == 0
    }

    /// True when the third letter is uppercase, as the PNG version in force asks.
    pub fn is_reserved_bit_valid(&self) -> (r: bool)
        ensures
            r == bit5_clear(self@[2]),
    {
        reserved_bit_clear(self.ctype[2])
    }

    /// True when the fourth letter is lowercase: editors may copy the chunk.
    pub fn is_safe_to_copy(&self) -> (r: bool)
        ensures
            r == !bit5_clear(self@[3]),
    {
        proof {
            lemma_shifted_bit5(self.ctype[3]);
        }
        (self.ctype[3] >> 5) & 1 == 1
    }

    /// The code as text.
    pub fn to_string(&self) -> (r: String)
        ensures
            r@ == type_chars(self@),
    {
        proof {
            use_type_invariant(self);
        }
        let v: Vec<u8> = vec![self.ctype[0], self.ctype[1], self.ctype[2], self.ctype[3]];
        let ghost chars = type_chars(v@);
        proof {
            assert(is_ascii_chars(chars));
            is_ascii_chars_encode_utf8(chars);
            assert(encode_utf8(chars) =~= v@);
            encode_utf8_valid_utf8(chars);
            encode_utf8_decode_utf8(chars);
        }
        match utf8_string(v) {
            Some(s) => s,
            // not taken: ASCII letters are valid UTF-8, as proved above
            None => String::new(),
        }
    }
}

impl PartialEq for ChunkType {
    fn eq(&self, other: &ChunkType) -> (r: bool) {
        let r = self.ctype[0] == other.ctype[0] && self.ctype[1] == other.ctype[1]
            && self.ctype[2] == other.ctype[2] && self.ctype[3] == other.ctype[3];
        proof {
            if r {
                assert(self@ =~= other@);
            }
        }
        r
    }
}

impl vstd::std_specs::cmp::PartialEqSpecImpl for ChunkType {
    open spec fn obeys_eq_spec() -> bool {
        true
    }

    open spec fn eq_spec(&self, other: &ChunkType) -> bool {
        self@ == other@
    }
}

impl Eq for ChunkType {}

impl std::str::FromStr for ChunkType {
    type Err = ChunkError;

    fn from_str(s: &str) -> Result<ChunkType, ChunkError> {
        ChunkType::from_str(s)
    }
}

impl Clone for ChunkType {
    fn clone(&self) -> (r: ChunkType)
        ensures
            r@ == self@,
    {
        proof {
            use_type_invariant(self);
        }
        ChunkType { ctype: self.ctype }
    }
}

/// True when every byte of `value` is an ASCII letter.
pub fn bytes_alphabetic(value: [u8; 4]) -> (r: bool)
    ensures
        r == all_alpha(value@),
{
    let mut i: usize = 0;
    while i < 4
        invariant
            0 <= i <= 4,
            forall|k: int| 0 <= k < i ==> is_alpha(#[trigger] value@[k]),
        decreases 4 - i,
    {
        let b = value[i];
        if !((b >= 65 && b <= 90) || (b >= 97 && b <= 122)) {
            return false;
        }
        i = i + 1;
    }
    true
}

fn reserved_bit_clear(b: u8) -> (r: bool)
    ensures
        r == bit5_clear(b),
{
    proof {
        lemma_shifted_bit5(b);
    }
    (b >> 5) & 1 == 0
}

/// Relies on `String::from_utf8`: it succeeds exactly on valid UTF-8 and
/// then holds the text those bytes encode.
#[verifier::external_body]
pub(crate) fn utf8_string(bytes: Vec<u8>) -> (r: Option<String>)
    ensures
        r is Some <==> valid_utf8(bytes@),
        r matches Some(s) ==> s@ == decode_utf8(bytes@),
{
    String::from_utf8(bytes).ok()
}

} // verus!
