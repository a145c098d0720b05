//! The closed set of payload codecs and their wire identifiers.

use vstd::prelude::*;

verus! {

/// Payload encoding carried by a frame.
#[derive(Clone, Copy, Debug, PartialEq, Eq, Structural)]
pub enum Codec {
    /// Compressed audio; only a placeholder payload is produced for it.
    Opus,
    /// Interleaved 16-bit signed little-endian PCM.
    Pcm16Le,
}

/// Wire identifier of [`Codec::Opus`].
pub const CODEC_ID_OPUS: u8 = 1;

/// Wire identifier of [`Codec::Pcm16Le`].
pub const CODEC_ID_PCM16LE: u8 = 2;

/// ASCII lower-casing of one character; every other character is kept.
pub open spec fn ascii_lower(c: char) -> char {
    if 'A' <= c && c <= 'Z' {
        ((c as u8) + 32) as char
    } else {
        c
    }
}

/// The characters of `s`, each ASCII lower-cased.
pub open spec fn ascii_lowercase(s: Seq<char>) -> Seq<char> {
    s.map_values(|c: char| ascii_lower(c))
}

/// Whether `s` names the Opus codec: it reads `opus` once ASCII lower-cased.
pub open spec fn names_opus(s: Seq<char>) -> bool {
    ascii_lowercase(s) == seq!['o', 'p', 'u', 's']
}

/// ASCII lower-casing of one byte.
pub open spec fn lower_byte(b: u8) -> u8 {
    if 65 <= b && b <= 90 {
        (b + 32) as u8
    } else {
        b
    }
}

fn to_lower_byte(b: u8) -> (r: u8)
    ensures
        r == lower_byte(b),
{
    if 65 <= b && b <= 90 {
        b + 32
    } else {
        b
    }
}

impl Codec {
    /// The identifier that stands for the codec in a frame header.
    pub open spec fn spec_id(self) -> u8 {
        match self {
            Codec::Opus => CODEC_ID_OPUS,
            Codec::Pcm16Le => CODEC_ID_PCM16LE,
        }
    }

    /// The codec's wire identifier.
    pub fn id(self) -> (r: u8)
        ensures
            r == self.spec_id(),
            r == 1 || r == 2,
    {
        match self {
            Codec::Opus => CODEC_ID_OPUS,
            Codec::Pcm16Le => CODEC_ID_PCM16LE,
        }
    }

    /// The codec with the given wire identifier, if there is one.
    pub fn from_id(id: u8) -> (r: Option<Codec>)
        ensures
            id == CODEC_ID_OPUS ==> r == Some(Codec::Opus),
            id == CODEC_ID_PCM16LE ==> r == Some(Codec::Pcm16Le),
            id != CODEC_ID_OPUS && id != CODEC_ID_PCM16LE ==> r.is_none(),
            r.is_some() ==> r.unwrap().spec_id() == id,
    {
        if id == CODEC_ID_OPUS {
            Some(Codec::Opus)
        } else if id == CODEC_ID_PCM16LE {
            Some(Codec::Pcm16Le)
        } else {
            None
        }
    }

    /// Reads a codec name, ignoring ASCII case. `opus` selects Opus; every
    /// other text, the empty one too, selects 16-bit PCM.
    pub fn parse(s: &str) -> (r: Codec)
        ensures
            names_opus(s@) ==> r == Codec::Opus,
            !names_opus(s@) ==> r == Codec::Pcm16Le,
    {
        broadcast use vstd::string::is_ascii_spec_bytes;

        if !s.is_ascii() {
            proof {
                lemma_non_ascii_is_not_opus(s@);
            }
            return Codec::Pcm16Le;
        }
        let bytes = s.as_bytes();
        assert(bytes@ =~= Seq::new(s@.len(), |i: int| s@[i] as u8));
        if bytes.len() != 4 {
            assert(ascii_lowercase(s@).len() == s@.len());
            return Codec::Pcm16Le;
        }
        let b0 = to_lower_byte(bytes[0]);
        let b1 = to_lower_byte(bytes[1]);
        let b2 = to_lower_byte(bytes[2]);
        let b3 = to_lower_byte(bytes[3]);
        proof {
            lemma_lower_char_byte(s@[0]);
            lemma_lower_char_byte(s@[1]);
            lemma_lower_char_byte(s@[2]);
            lemma_lower_char_byte(s@[3]);
            let low = ascii_lowercase(s@);
            assert(low[0] == ascii_lower(s@[0]));
            assert(low[1] == ascii_lower(s@[1]));
            assert(low[2] == ascii_lower(s@[2]));
            assert(low[3] == ascii_lower(s@[3]));
        }
        if b0 == 111 && b1 == 112 && b2 == 117 && b3 == 115 {
            assert(ascii_lowercase(s@) =~= seq!['o', 'p', 'u', 's']);
            Codec::Opus
        } else {
            Codec::Pcm16Le
        }
    }
}

/// On an ASCII character, lower-casing the character and lower-casing its
/// byte agree.
proof fn lemma_lower_char_byte(c: char)
    requires
        (c as u32) < 128,
    ensures
        ascii_lower(c) as u8 == lower_byte(c as u8),
        (ascii_lower(c) as u32) < 128,
        (ascii_lower(c) == 'o') == (lower_byte(c as u8) == 111),
        (ascii_lower(c) == 'p') == (lower_byte(c as u8) == 112),
        (ascii_lower(c) == 'u') == (lower_byte(c as u8) == 117),
        (ascii_lower(c) == 's') == (lower_byte(c as u8) == 115),
{
}

/// A text with a character outside ASCII does not name Opus.
proof fn lemma_non_ascii_is_not_opus(s: Seq<char>)
    requires
        !vstd::utf8::is_ascii_chars(s),
    ensures
        !names_opus(s),
{
    if names_opus(s) {
        let low = ascii_lowercase(s);
        assert(low.len() == s.len());
        assert forall|i: int| 0 <= i < s.len() implies (s[i] as u32) < 128 by {
            assert(low[i] == ascii_lower(s[i]));
            assert(low[i] == seq!['o', 'p', 'u', 's'][i]);
        }
        assert(vstd::utf8::is_ascii_chars(s));
    }
}

} // verus!
