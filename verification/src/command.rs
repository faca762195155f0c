//! The command-tag codec: converts between a human-readable ASCII command
//! name and its fixed 12-byte wire form.
//!
//! On the wire a command is exactly 12 bytes: the name's ASCII bytes,
//! left-justified, right-padded with zero bytes. Decoding stops at the first
//! zero byte and ignores everything after it, so any 12 bytes decode to some
//! name without error; whether that name means anything is decided later by
//! the dispatch table. Encoders never place a zero byte inside a meaningful
//! name (all built-in names are ASCII words), so first-zero truncation is
//! lossless for every name this crate emits.

use vstd::prelude::*;
use crate::error::DecodeError;

verus! {

/// A command name: the string key that identifies a message's payload kind.
#[derive(PartialEq, Eq, Clone, Debug)]
pub struct CommandString(pub String);

/// The 12-byte wire form of a command name: one byte per character,
/// left-justified, right-padded with zero bytes.
pub open spec fn spec_command_tag(name: Seq<char>) -> Seq<u8> {
    Seq::new(12, |i: int| if i < name.len() { name[i] as u8 } else { 0u8 })
}

/// How many bytes of `tag` stand before its first zero byte
/// (all of them when no byte is zero).
pub open spec fn spec_name_end(tag: Seq<u8>) -> nat
    decreases tag.len(),
{
    if tag.len() == 0 {
        0
    } else if tag[0] == 0 {
        0
    } else {
        1 + spec_name_end(tag.drop_first())
    }
}

/// The command name read from a wire tag: the bytes before the first zero
/// byte, each mapped to the character with the same code. Bytes after the
/// first zero byte are ignored whatever they hold.
pub open spec fn spec_tag_name(tag: Seq<u8>) -> Seq<char> {
    Seq::new(spec_name_end(tag), |i: int| tag[i] as char)
}

/// What `spec_name_end` means position by position: it points at the first
/// zero byte of the tag, or past the end when no byte is zero.
pub proof fn lemma_name_end(tag: Seq<u8>)
    ensures
        spec_name_end(tag) <= tag.len(),
        forall|i: int| 0 <= i < spec_name_end(tag) ==> tag[i] != 0,
        spec_name_end(tag) < tag.len() ==> tag[spec_name_end(tag) as int] == 0,
    decreases tag.len(),
{
    if tag.len() > 0 && tag[0] != 0 {
        let rest = tag.drop_first();
        lemma_name_end(rest);
        assert forall|i: int| 0 <= i < spec_name_end(tag) implies tag[i] != 0 by {
            if i > 0 {
                assert(rest[i - 1] == tag[i]);
            }
        }
        if spec_name_end(tag) < tag.len() {
            assert(rest[spec_name_end(tag) - 1] == tag[spec_name_end(tag) as int]);
        }
    }
}

/// Appends one character to a string.
///
/// Relies on `String::push`: it appends the given `char` at the end and
/// changes nothing else.
#[verifier::external_body]
fn push_char(s: &mut String, c: char)
    ensures
        final(s)@ == old(s)@.push(c),
{
    s.push(c);
}

impl CommandString {
    /// Encodes the name into its 12-byte wire tag: ASCII bytes left-justified,
    /// zero-padded. A name longer than 12 bytes has no wire form, so callers
    /// must establish the bound; every built-in command name satisfies it.
    pub fn consensus_encode(&self) -> (r: Vec<u8>)
        requires
            vstd::utf8::is_ascii_chars(self.0@),
            self.0@.len() <= 12,
        ensures
            r@ == spec_command_tag(self.0@),
    {
        let s: &str = self.0.as_str();
        let bytes: Vec<u8> = s.as_bytes_vec();
        proof {
            vstd::utf8::is_ascii_chars_encode_utf8(self.0@);
        }
        let n: usize = bytes.len();
        let mut r: Vec<u8> = Vec::new();
        let mut i: usize = 0;
        while i < 12
            invariant
                i <= 12,
                n == bytes@.len(),
                n == self.0@.len(),
                forall|j: int| 0 <= j < n ==> bytes@[j] == self.0@[j] as u8,
                r@ =~= spec_command_tag(self.0@).take(i as int),
            decreases 12 - i,
        {
            if i < n {
                r.push(bytes[i]);
            } else {
                r.push(0u8);
            }
            i += 1;
        }
        proof {
            assert(r@ =~= spec_command_tag(self.0@));
        }
        r
    }

    /// Decodes a 12-byte wire tag read from the front of `data` into a
    /// command name, by the first-zero-byte convention. Fails with
    /// `Truncated`, and only with it, exactly when fewer than 12 bytes are
    /// given; any 12 bytes decode successfully.
    pub fn consensus_decode(data: &Vec<u8>) -> (r: Result<CommandString, DecodeError>)
        ensures
            match r {
                Ok(cs) => data@.len() >= 12 && cs.0@ == spec_tag_name(data@.take(12)),
                Err(e) => data@.len() < 12 && (e is Truncated),
            },
    {
        if data.len() < 12 {
            return Err(DecodeError::Truncated);
        }
        let ghost tag: Seq<u8> = data@.take(12);
        proof {
            lemma_name_end(tag);
        }
        let mut name = String::new();
        let mut i: usize = 0;
        while i < 12 && data[i] != 0
            invariant
                i <= 12,
                data@.len() >= 12,
                tag == data@.take(12),
                i <= spec_name_end(tag),
                spec_name_end(tag) <= 12,
                forall|j: int| 0 <= j < spec_name_end(tag) ==> tag[j] != 0,
                spec_name_end(tag) < 12 ==> tag[spec_name_end(tag) as int] == 0,
                name@ =~= spec_tag_name(tag).take(i as int),
            decreases 12 - i,
        {
            proof {
                assert(tag[i as int] == data@[i as int]);
                assert(i < spec_name_end(tag)) by {
                    if spec_name_end(tag) <= i {
                        assert(tag[spec_name_end(tag) as int] == 0);
                    }
                }
            }
            push_char(&mut name, data[i] as char);
            i += 1;
        }
        proof {
            assert(i == spec_name_end(tag)) by {
                if i < 12 {
                    assert(tag[i as int] == data@[i as int]);
                }
            }
            assert(name@ =~= spec_tag_name(tag));
        }
        Ok(CommandString(name))
    }
}

/// Law: the tag codec round-trips. Any ASCII name of at most 12 characters
/// that contains no zero character decodes from its own wire tag unchanged.
pub proof fn lemma_command_codec_round_trip(name: Seq<char>)
    requires
        vstd::utf8::is_ascii_chars(name),
        name.len() <= 12,
        forall|i: int| 0 <= i < name.len() ==> name[i] != '\0',
    ensures
        spec_tag_name(spec_command_tag(name)) == name,
{
    let tag = spec_command_tag(name);
    lemma_name_end(tag);
    assert forall|i: int| 0 <= i < name.len() implies tag[i] != 0 by {
        assert('\0' <= name[i] <= '\u{7f}');
    }
    assert(spec_name_end(tag) == name.len()) by {
        if spec_name_end(tag) < name.len() {
            assert(tag[spec_name_end(tag) as int] != 0);
        }
        if spec_name_end(tag) > name.len() {
            assert(tag[name.len() as int] == 0);
        }
    }
    assert forall|i: int| 0 <= i < name.len() implies spec_tag_name(tag)[i] == name[i] by {
        assert('\0' <= name[i] <= '\u{7f}');
        assert((name[i] as u8) as char == name[i]);
    }
    assert(spec_tag_name(tag) =~= name);
}

} // verus!
