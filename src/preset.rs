//! The preset and bank byte format: the three normalized parameter values,
//! each as the little-endian bytes of its 32-bit float bit pattern, in
//! declared parameter order.
use vstd::prelude::*;

verus! {

/// Length in bytes of a stored preset.
pub const PRESET_LEN: usize = 12;

/// The stored parameter values, each the bit pattern of a normalized `f32`.
#[derive(Clone, Copy, Debug, PartialEq, Eq, Structural)]
pub struct PresetValues {
    pub pitch: u32,
    pub pitch_fine: u32,
    pub mix: u32,
}

/// Why stored data could not be loaded.
#[derive(Clone, Copy, Debug, PartialEq, Eq, Structural)]
pub enum PresetError {
    /// The data does not hold exactly one value per parameter; carries its length.
    WrongLength(usize),
}

/// The byte of `w` that starts at bit `shift`.
pub open spec fn byte_of(w: u32, shift: u32) -> u8 {
    ((w >> shift) & 0xff) as u8
}

/// The four bytes of `w`, least significant first.
pub open spec fn le_bytes(w: u32) -> Seq<u8> {
    seq![byte_of(w, 0), byte_of(w, 8), byte_of(w, 16), byte_of(w, 24)]
}

/// The word whose bytes, least significant first, are `b0`..`b3`.
pub open spec fn word_from_le(b0: u8, b1: u8, b2: u8, b3: u8) -> u32 {
    (b0 as u32) | ((b1 as u32) << 8) | ((b2 as u32) << 16) | ((b3 as u32) << 24)
}

/// The little-endian word stored at byte offset `i` of `s`.
pub open spec fn word_at(s: Seq<u8>, i: int) -> u32 {
    word_from_le(s[i], s[i + 1], s[i + 2], s[i + 3])
}

impl PresetValues {
    /// The stored form of these values.
    pub open spec fn spec_bytes(self) -> Seq<u8> {
        le_bytes(self.pitch) + le_bytes(self.pitch_fine) + le_bytes(self.mix)
    }

    /// The values that a stored preset of the right length holds.
    pub open spec fn spec_from_bytes(s: Seq<u8>) -> PresetValues {
        PresetValues { pitch: word_at(s, 0), pitch_fine: word_at(s, 4), mix: word_at(s, 8) }
    }

    /// The stored form of these values, `PRESET_LEN` bytes.
    pub fn to_bytes(&self) -> (r: Vec<u8>)
        ensures
            r@ == self.spec_bytes(),
            r@.len() == PRESET_LEN,
    {
        let mut out: Vec<u8> = Vec::with_capacity(PRESET_LEN);
        push_le(&mut out, self.pitch);
        push_le(&mut out, self.pitch_fine);
        push_le(&mut out, self.mix);
        assert(out@ =~= self.spec_bytes());
        out
    }

    /// Reads stored values back; data of any length but `PRESET_LEN` is refused.
    pub fn from_bytes(data: &[u8]) -> (r: Result<PresetValues, PresetError>)
        ensures
            data@.len() == PRESET_LEN ==> r == Ok::<PresetValues, PresetError>(
                PresetValues::spec_from_bytes(data@),
            ),
            data@.len() != PRESET_LEN ==> r == Err::<PresetValues, PresetError>(
                PresetError::WrongLength(data@.len() as usize),
            ),
    {
        if data.len() != PRESET_LEN {
            return Err(PresetError::WrongLength(data.len()));
        }
        Ok(PresetValues {
            pitch: read_le(data, 0),
            pitch_fine: read_le(data, 4),
            mix: read_le(data, 8),
        })
    }
}

/// Appends the little-endian bytes of `w`.
fn push_le(out: &mut Vec<u8>, w: u32)
    ensures
        final(out)@ == old(out)@ + le_bytes(w),
{
    out.push((w & 0xff) as u8);
    out.push(((w >> 8u32) & 0xff) as u8);
    out.push(((w >> 16u32) & 0xff) as u8);
    out.push(((w >> 24u32) & 0xff) as u8);
    assert(final(out)@ =~= old(out)@ + le_bytes(w)) by {
        assert((w & 0xff) as u8 == byte_of(w, 0)) by (bit_vector);
    }
}

/// The little-endian word at byte offset `i` of `data`.
fn read_le(data: &[u8], i: usize) -> (r: u32)
    requires
        i + 4 <= data@.len(),
    ensures
        r == word_at(data@, i as int),
{
    let b0 = data[i] as u32;
    let b1 = data[i + 1] as u32;
    let b2 = data[i + 2] as u32;
    let b3 = data[i + 3] as u32;
    b0 | (b1 << 8u32) | (b2 << 16u32) | (b3 << 24u32)
}

/// Storing values and loading them back gives the same bit patterns.
pub proof fn lemma_preset_round_trip(v: PresetValues)
    ensures
        v.spec_bytes().len() == PRESET_LEN,
        PresetValues::spec_from_bytes(v.spec_bytes()) == v,
{
    lemma_word_round_trip(v.pitch);
    lemma_word_round_trip(v.pitch_fine);
    lemma_word_round_trip(v.mix);
    let s = v.spec_bytes();
    assert(s.subrange(0, 4) =~= le_bytes(v.pitch));
    assert(s.subrange(4, 8) =~= le_bytes(v.pitch_fine));
    assert(s.subrange(8, 12) =~= le_bytes(v.mix));
    assert(word_at(s, 0) == word_at(le_bytes(v.pitch), 0));
    assert(word_at(s, 4) == word_at(le_bytes(v.pitch_fine), 0));
    assert(word_at(s, 8) == word_at(le_bytes(v.mix), 0));
}

/// A word survives conversion to its little-endian bytes and back.
proof fn lemma_word_round_trip(w: u32)
    ensures
        word_at(le_bytes(w), 0) == w,
{
    assert(word_from_le(byte_of(w, 0), byte_of(w, 8), byte_of(w, 16), byte_of(w, 24)) == w)
        by (bit_vector);
}

} // verus!
