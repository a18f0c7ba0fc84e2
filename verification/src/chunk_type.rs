//! The `ChunkType` value: a 4-byte PNG chunk-type tag.
//!
//! A tag is constructible only from four ASCII letter bytes. The case of
//! each byte (bit 5) encodes one boolean flag: byte 0 the critical flag,
//! byte 1 the public flag, byte 2 the reserved bit, byte 3 the
//! safe-to-copy flag.

use vstd::prelude::*;
use vstd::std_specs::cmp::PartialEqSpec;
use vstd::string::StringSliceAdditionalSpecFns;
use vstd::utf8::encode_utf8;

verus! {

/// A byte in `A`-`Z`.
pub open spec fn is_uppercase_letter(b: u8) -> bool {
    65 <= b <= 90
}

/// A byte in `a`-`z`.
pub open spec fn is_lowercase_letter(b: u8) -> bool {
    97 <= b <= 122
}

/// A byte allowed in a chunk-type tag: an ASCII letter of either case.
pub open spec fn is_letter(b: u8) -> bool {
    is_uppercase_letter(b) || is_lowercase_letter(b)
}

/// Every byte of the sequence is an ASCII letter.
pub open spec fn all_letters(bytes: Seq<u8>) -> bool {
    forall|i: int| 0 <= i < bytes.len() ==> is_letter(#[trigger] bytes[i])
}

/// The strict validity rule for a tag: four letter bytes with the
/// reserved byte (position 2) uppercase.
pub open spec fn spec_is_valid(bytes: Seq<u8>) -> bool {
    bytes.len() == 4 && all_letters(bytes) && is_uppercase_letter(bytes[2])
}

/// Why constructing a tag failed.
#[derive(Clone, Copy, Debug, PartialEq, Eq, Structural)]
pub enum ChunkTypeError {
    /// Some input byte lies outside `A`-`Z` and `a`-`z`.
    InvalidByte,
    /// Text input whose byte length is not exactly 4.
    InvalidLength,
}

/// A PNG chunk-type tag: four ASCII letter bytes, immutable once built.
///
/// Its view is the sequence of the four bytes.
#[derive(Clone, Copy, Debug)]
pub struct ChunkType {
    bytes: [u8; 4],
}

impl View for ChunkType {
    type V = Seq<u8>;

    closed spec fn view(&self) -> Seq<u8> {
        self.bytes@
    }
}

impl ChunkType {
    /// Every tag that was ever constructed holds four letter bytes.
    #[verifier::type_invariant]
    spec fn letters_invariant(self) -> bool {
        all_letters(self.bytes@)
    }

    /// Builds a tag from four raw bytes; fails iff some byte is not an
    /// ASCII letter.
    pub fn from_bytes(bytes: [u8; 4]) -> (r: Result<ChunkType, ChunkTypeError>)
        ensures
            match r {
                Ok(t) => all_letters(bytes@) && t@ == bytes@,
                Err(e) => !all_letters(bytes@) && e == ChunkTypeError::InvalidByte,
            },
    {
        let mut i: usize = 0;
        while i < 4
            invariant
                i <= 4,
                forall|j: int| 0 <= j < i ==> is_letter(#[trigger] bytes@[j]),
            decreases 4 - i,
        {
            let b = bytes[i];
            if b < 65 || (90 < b && b < 97) || 122 < b {
                return Err(ChunkTypeError::InvalidByte);
            }
            i += 1;
        }
        Ok(ChunkType { bytes })
    }

    /// Builds a tag from text; fails iff the text is not exactly 4 bytes
    /// long or some byte is not an ASCII letter.
    pub fn from_text(s: &str) -> (r: Result<ChunkType, ChunkTypeError>)
        ensures
            match r {
                Ok(t) => s.spec_bytes().len() == 4 && all_letters(s.spec_bytes()) && t@
                    == s.spec_bytes(),
                Err(e) => (e == ChunkTypeError::InvalidLength && s.spec_bytes().len() != 4) || (e
                    == ChunkTypeError::InvalidByte && s.spec_bytes().len() == 4 && !all_letters(
                    s.spec_bytes(),
                )),
            },
    {
        let b: &[u8] = s.as_bytes();
        if b.len() != 4 {
            return Err(ChunkTypeError::InvalidLength);
        }
        let tag_bytes: [u8; 4] = [b[0], b[1], b[2], b[3]];
        proof {
            assert(tag_bytes@ =~= s.spec_bytes());
        }
        ChunkType::from_bytes(tag_bytes)
    }

    /// Returns the four stored bytes verbatim.
    pub fn bytes(&self) -> (r: [u8; 4])
        ensures
            r@ == self@,
    {
        self.bytes
    }

    /// Renders the tag as text: the string whose UTF-8 bytes are exactly
    /// the four tag bytes.
    pub fn to_text(&self) -> (r: String)
        ensures
            encode_utf8(r@) == self@,
    {
        proof {
            use_type_invariant(&*self);
        }
        text_from_letter_bytes(self.bytes)
    }

    /// The strict validity check: true iff the reserved byte (position 2)
    /// is uppercase, the other positions being letters by construction.
    pub fn is_valid(&self) -> (r: bool)
        ensures
            r == spec_is_valid(self@),
    {
        proof {
            use_type_invariant(&*self);
        }
        let b = self.bytes[2];
        65 <= b && b <= 90
    }

    /// The critical flag: true iff byte 0 is uppercase (bit 5 clear).
    pub fn is_critical(&self) -> (r: bool)
        ensures
            r == is_uppercase_letter(self@[0]),
    {
        proof {
            use_type_invariant(&*self);
        }
        let b = self.bytes[0];
        proof {
            assert(((b >> 5) & 1 == 0) == (65 <= b <= 90)) by (bit_vector)
                requires
                    (65 <= b <= 90) || (97 <= b <= 122),
            ;
        }
        (b >> 5) & 1 == 0
    }

    /// The public flag: true iff byte 1 is uppercase (bit 5 clear).
    pub fn is_public(&self) -> (r: bool)
        ensures
            r == is_uppercase_letter(self@[1]),
    {
        proof {
            use_type_invariant(&*self);
        }
        let b = self.bytes[1];
        proof {
            assert(((b >> 5) & 1 == 0) == (65 <= b <= 90)) by (bit_vector)
                requires
                    (65 <= b <= 90) || (97 <= b <= 122),
            ;
        }
        (b >> 5) & 1 == 0
    }

    /// The reserved bit: valid iff byte 2 is uppercase (bit 5 clear).
    pub fn is_reserved_bit_valid(&self) -> (r: bool)
        ensures
            r == is_uppercase_letter(self@[2]),
    {
        proof {
            use_type_invariant(&*self);
        }
        let b = self.bytes[2];
        proof {
            assert(((b >> 5) & 1 == 0) == (65 <= b <= 90)) by (bit_vector)
                requires
                    (65 <= b <= 90) || (97 <= b <= 122),
            ;
        }
        (b >> 5) & 1 == 0
    }

    /// The safe-to-copy flag: true iff byte 3 is lowercase (bit 5 set).
    pub fn is_safe_to_copy(&self) -> (r: bool)
        ensures
            r == is_lowercase_letter(self@[3]),
    {
        proof {
            use_type_invariant(&*self);
        }
        let b = self.bytes[3];
        proof {
            assert(((b >> 5) & 1 == 1) == (97 <= b <= 122)) by (bit_vector)
                requires
                    (65 <= b <= 90) || (97 <= b <= 122),
            ;
        }
        (b >> 5) & 1 == 1
    }
}

/// Relies on `String::from_utf8`: on valid UTF-8 input (here four ASCII
/// letters) it returns the string whose UTF-8 bytes are exactly the
/// input bytes.
#[verifier::external_body]
fn text_from_letter_bytes(bytes: [u8; 4]) -> (r: String)
    requires
        all_letters(bytes@),
    ensures
        encode_utf8(r@) == bytes@,
{
    String::from_utf8(bytes.to_vec()).unwrap()
}

impl PartialEq for ChunkType {
    /// Tags are equal iff their four bytes are pairwise equal, in order.
    fn eq(&self, other: &Self) -> (r: bool) {
        self.bytes[0] == other.bytes[0] && self.bytes[1] == other.bytes[1] && self.bytes[2]
            == other.bytes[2] && self.bytes[3] == other.bytes[3]
    }
}

impl Eq for ChunkType {}

impl vstd::std_specs::cmp::PartialEqSpecImpl for ChunkType {
    open spec fn obeys_eq_spec() -> bool {
        true
    }

    open spec fn eq_spec(&self, other: &Self) -> bool {
        self@ =~= other@
    }
}

/// Tag equality is an equivalence relation and is determined by the four
/// underlying bytes alone.
pub proof fn lemma_eq_is_equivalence(a: ChunkType, b: ChunkType, c: ChunkType)
    ensures
        a.eq_spec(&a),
        a.eq_spec(&b) == b.eq_spec(&a),
        a.eq_spec(&b) && b.eq_spec(&c) ==> a.eq_spec(&c),
        a.eq_spec(&b) <==> a@ == b@,
{
}

/// Two texts with the same UTF-8 byte content are the same text. With the
/// contracts of `from_text` and `to_text`, this says that rendering a tag
/// built from a text gives back exactly that text, case preserved.
pub proof fn lemma_text_round_trip(s: &str, t: &str)
    requires
        s.spec_bytes() == t.spec_bytes(),
    ensures
        s@ == t@,
{
    vstd::utf8::encode_utf8_decode_utf8(s@);
    vstd::utf8::encode_utf8_decode_utf8(t@);
}

} // verus!
