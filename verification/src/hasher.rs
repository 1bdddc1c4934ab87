//! The structural hash that tells whether a layout can be reused.
//!
//! Each widget contributes the bytes of what decides its layout, in the order
//! of the tree. The hash is the FNV-1a hash of those bytes, so two trees with
//! the same bytes have the same hash.
use vstd::prelude::*;
use vstd::string::StringSliceAdditionalSpecFns;
use vstd::utf8::encode_utf8;

use crate::alignment::Alignment;
use crate::length::Length;
use crate::padding::Padding;

verus! {

/// The state that an empty hasher starts from.
pub const OFFSET_BASIS: u64 = 0xcbf2_9ce4_8422_2325;

/// The factor by which the state is multiplied after each byte.
pub const PRIME: u64 = 0x0000_0100_0000_01b3;

/// The state after `byte` is hashed from `state`.
pub open spec fn mix(state: u64, byte: u8) -> u64 {
    (state ^ (byte as u64)).wrapping_mul(PRIME)
}

/// The state after `bytes` are hashed from `state`, first to last.
pub open spec fn absorb(state: u64, bytes: Seq<u8>) -> u64
    decreases bytes.len(),
{
    if bytes.len() == 0 {
        state
    } else {
        mix(absorb(state, bytes.drop_last()), bytes.last())
    }
}

/// Hashing bytes and then more bytes is hashing all of them in a row.
pub proof fn lemma_absorb_twice(state: u64, first: Seq<u8>, second: Seq<u8>)
    ensures
        absorb(absorb(state, first), second) == absorb(state, first + second),
    decreases second.len(),
{
    if second.len() == 0 {
        assert(first + second =~= first);
    } else {
        lemma_absorb_twice(state, first, second.drop_last());
        assert((first + second).drop_last() =~= first + second.drop_last());
        assert((first + second).last() == second.last());
    }
}

/// The bytes of a 16-bit number, lowest first.
pub open spec fn bytes_u16(v: u16) -> Seq<u8> {
    seq![(v & 0xff) as u8, (v >> 8) as u8]
}

/// The bytes of a 32-bit number, lowest first.
pub open spec fn bytes_u32(v: u32) -> Seq<u8> {
    seq![(v & 0xff) as u8, ((v >> 8) & 0xff) as u8, ((v >> 16) & 0xff) as u8, (v >> 24) as u8]
}

/// The bytes of a text: its UTF-8 encoding, and a byte that no encoding holds
/// to mark its end.
pub open spec fn bytes_str(s: Seq<char>) -> Seq<u8> {
    encode_utf8(s).push(0xff)
}

/// The bytes of a sizing policy: a byte for its kind, and its number where
/// it has one.
pub open spec fn bytes_length(length: Length) -> Seq<u8> {
    match length {
        Length::Fill => seq![0u8],
        Length::FillPortion(portion) => seq![1u8] + bytes_u16(portion),
        Length::Shrink => seq![2u8],
        Length::Units(units) => seq![3u8] + bytes_u16(units),
    }
}

/// The bytes of a size that may be missing: a zero byte, or a one byte and
/// the size.
pub open spec fn bytes_size(size: Option<u16>) -> Seq<u8> {
    match size {
        None => seq![0u8],
        Some(size) => seq![1u8] + bytes_u16(size),
    }
}

/// The byte of an alignment.
pub open spec fn byte_alignment(alignment: Alignment) -> u8 {
    match alignment {
        Alignment::Start => 0,
        Alignment::Center => 1,
        Alignment::End => 2,
        Alignment::Fill => 3,
    }
}

/// The bytes of a padding: its four sides, clockwise from the top.
pub open spec fn bytes_padding(padding: Padding) -> Seq<u8> {
    bytes_u16(padding.top) + bytes_u16(padding.right) + bytes_u16(padding.bottom) + bytes_u16(padding.left)
}

/// The bytes of the settings of a row or a column.
pub open spec fn bytes_flex(
    max_width: u32,
    max_height: u32,
    align_items: Alignment,
    width: Length,
    height: Length,
    spacing: u16,
    padding: Padding,
) -> Seq<u8> {
    bytes_u32(max_width) + bytes_u32(max_height) + seq![byte_alignment(align_items)] + bytes_length(width)
        + bytes_length(height) + bytes_u16(spacing) + bytes_padding(padding)
}

/// The bytes of the settings that shape a control with a label beside it:
/// its width policy, the size of the control itself, the spacing between
/// control and label, and the size of the label.
pub open spec fn bytes_control(width: Length, size: u16, spacing: u16, text_size: Option<u16>) -> Seq<u8> {
    bytes_length(width) + bytes_u16(size) + bytes_u16(spacing) + bytes_size(text_size)
}

/// The hasher of the layout-relevant parts of a widget tree.
#[derive(Debug, Clone, Copy, PartialEq, Eq, Structural)]
pub struct Hasher {
    /// The hash of all that was written so far.
    pub state: u64,
}

impl Hasher {
    /// A hasher to which nothing was written.
    pub fn new() -> (hasher: Hasher)
        ensures
            hasher.state == OFFSET_BASIS,
    {
        Hasher { state: OFFSET_BASIS }
    }

    /// The hash of all that was written.
    pub fn finish(&self) -> (hash: u64)
        ensures
            hash == self.state,
    {
        self.state
    }

    /// Writes one byte.
    pub fn write_u8(&mut self, byte: u8)
        ensures
            final(self).state == absorb(old(self).state, seq![byte]),
    {
        proof {
            assert(seq![byte].drop_last() =~= Seq::<u8>::empty());
            assert(absorb(self.state, Seq::<u8>::empty()) == self.state);
        }
        self.state = (self.state ^ (byte as u64)).wrapping_mul(PRIME);
    }

    /// Writes bytes, first to last.
    pub fn write(&mut self, bytes: &[u8])
        ensures
            final(self).state == absorb(old(self).state, bytes@),
    {
        let mut i: usize = 0;
        while i < bytes.len()
            invariant
                i <= bytes@.len(),
                self.state == absorb(old(self).state, bytes@.take(i as int)),
            decreases bytes@.len() - i,
        {
            proof {
                assert(bytes@.take(i + 1).drop_last() =~= bytes@.take(i as int));
            }
            self.state = (self.state ^ (bytes[i] as u64)).wrapping_mul(PRIME);
            i += 1;
        }
        assert(bytes@.take(bytes@.len() as int) =~= bytes@);
    }

    /// Writes a 16-bit number.
    pub fn write_u16(&mut self, v: u16)
        ensures
            final(self).state == absorb(old(self).state, bytes_u16(v)),
    {
        let ghost start = self.state;
        self.write_u8((v & 0xff) as u8);
        self.write_u8((v >> 8) as u8);
        proof {
            lemma_absorb_twice(start, seq![(v & 0xff) as u8], seq![(v >> 8) as u8]);
            assert(seq![(v & 0xff) as u8] + seq![(v >> 8) as u8] =~= bytes_u16(v));
        }
    }

    /// Writes a 32-bit number.
    pub fn write_u32(&mut self, v: u32)
        ensures
            final(self).state == absorb(old(self).state, bytes_u32(v)),
    {
        let ghost start = self.state;
        let b0 = (v & 0xff) as u8;
        let b1 = ((v >> 8) & 0xff) as u8;
        let b2 = ((v >> 16) & 0xff) as u8;
        let b3 = (v >> 24) as u8;
        self.write_u8(b0);
        self.write_u8(b1);
        self.write_u8(b2);
        self.write_u8(b3);
        proof {
            lemma_absorb_twice(start, seq![b0], seq![b1]);
            lemma_absorb_twice(start, seq![b0] + seq![b1], seq![b2]);
            lemma_absorb_twice(start, seq![b0] + seq![b1] + seq![b2], seq![b3]);
            assert(seq![b0] + seq![b1] + seq![b2] + seq![b3] =~= bytes_u32(v));
        }
    }

    /// Writes a text.
    pub fn write_str(&mut self, s: &str)
        ensures
            final(self).state == absorb(old(self).state, bytes_str(s@)),
    {
        let ghost start = self.state;
        self.write(s.as_bytes());
        self.write_u8(0xff);
        proof {
            lemma_absorb_twice(start, s.spec_bytes(), seq![0xffu8]);
            assert(s.spec_bytes() + seq![0xffu8] =~= bytes_str(s@));
        }
    }

    /// Writes a sizing policy.
    pub fn write_length(&mut self, length: Length)
        ensures
            final(self).state == absorb(old(self).state, bytes_length(length)),
    {
        let ghost start = self.state;
        match length {
            Length::Fill => {
                self.write_u8(0);
            },
            Length::FillPortion(portion) => {
                self.write_u8(1);
                self.write_u16(portion);
                proof {
                    lemma_absorb_twice(start, seq![1u8], bytes_u16(portion));
                }
            },
            Length::Shrink => {
                self.write_u8(2);
            },
            Length::Units(units) => {
                self.write_u8(3);
                self.write_u16(units);
                proof {
                    lemma_absorb_twice(start, seq![3u8], bytes_u16(units));
                }
            },
        }
    }

    /// Writes a size that may be missing.
    pub fn write_size(&mut self, size: Option<u16>)
        ensures
            final(self).state == absorb(old(self).state, bytes_size(size)),
    {
        let ghost start = self.state;
        match size {
            None => {
                self.write_u8(0);
            },
            Some(size) => {
                self.write_u8(1);
                self.write_u16(size);
                proof {
                    lemma_absorb_twice(start, seq![1u8], bytes_u16(size));
                }
            },
        }
    }

    /// Writes an alignment.
    pub fn write_alignment(&mut self, alignment: Alignment)
        ensures
            final(self).state == absorb(old(self).state, seq![byte_alignment(alignment)]),
    {
        let byte: u8 = match alignment {
            Alignment::Start => 0,
            Alignment::Center => 1,
            Alignment::End => 2,
            Alignment::Fill => 3,
        };
        self.write_u8(byte);
    }

    /// Writes a padding.
    pub fn write_padding(&mut self, padding: Padding)
        ensures
            final(self).state == absorb(old(self).state, bytes_padding(padding)),
    {
        let ghost start = self.state;
        self.write_u16(padding.top);
        self.write_u16(padding.right);
        self.write_u16(padding.bottom);
        self.write_u16(padding.left);
        proof {
            lemma_absorb_twice(start, bytes_u16(padding.top), bytes_u16(padding.right));
            lemma_absorb_twice(start, bytes_u16(padding.top) + bytes_u16(padding.right), bytes_u16(padding.bottom));
            lemma_absorb_twice(
                start,
                bytes_u16(padding.top) + bytes_u16(padding.right) + bytes_u16(padding.bottom),
                bytes_u16(padding.left),
            );
        }
    }

    /// Writes the settings of a row or a column.
    pub fn write_flex(
        &mut self,
        max_width: u32,
        max_height: u32,
        align_items: Alignment,
        width: Length,
        height: Length,
        spacing: u16,
        padding: Padding,
    )
        ensures
            final(self).state == absorb(
                old(self).state,
                bytes_flex(max_width, max_height, align_items, width, height, spacing, padding),
            ),
    {
        let ghost start = self.state;
        self.write_u32(max_width);
        self.write_u32(max_height);
        let ghost a = bytes_u32(max_width) + bytes_u32(max_height);
        proof {
            lemma_absorb_twice(start, bytes_u32(max_width), bytes_u32(max_height));
        }
        self.write_alignment(align_items);
        let ghost b = a + seq![byte_alignment(align_items)];
        proof {
            lemma_absorb_twice(start, a, seq![byte_alignment(align_items)]);
        }
        self.write_length(width);
        let ghost c = b + bytes_length(width);
        proof {
            lemma_absorb_twice(start, b, bytes_length(width));
        }
        self.write_length(height);
        let ghost d = c + bytes_length(height);
        proof {
            lemma_absorb_twice(start, c, bytes_length(height));
        }
        self.write_u16(spacing);
        let ghost e = d + bytes_u16(spacing);
        proof {
            lemma_absorb_twice(start, d, bytes_u16(spacing));
        }
        self.write_padding(padding);
        proof {
            lemma_absorb_twice(start, e, bytes_padding(padding));
        }
    }

    /// Writes the settings that shape a control with a label beside it.
    pub fn write_control(&mut self, width: Length, size: u16, spacing: u16, text_size: Option<u16>)
        ensures
            final(self).state == absorb(old(self).state, bytes_control(width, size, spacing, text_size)),
    {
        let ghost start = self.state;
        self.write_length(width);
        self.write_u16(size);
        let ghost a = bytes_length(width) + bytes_u16(size);
        proof {
            lemma_absorb_twice(start, bytes_length(width), bytes_u16(size));
        }
        self.write_u16(spacing);
        let ghost b = a + bytes_u16(spacing);
        proof {
            lemma_absorb_twice(start, a, bytes_u16(spacing));
        }
        self.write_size(text_size);
        proof {
            lemma_absorb_twice(start, b, bytes_size(text_size));
        }
    }
}

} // verus!
