//! The layout contract: size, field order and byte representation of the
//! values that cross the host/guest boundary.
//!
//! Every numeric field is a 32-bit IEEE-754 float. The host never computes
//! with these numbers, it only transports them, so a field is held as the
//! float's bit pattern in a `u32`. Fields are packed in declaration order,
//! each stored least significant byte first, as the guest's linear memory
//! stores them.

use vstd::arithmetic::div_mod::{
    lemma_div_denominator, lemma_fundamental_div_mod, lemma_fundamental_div_mod_converse,
    lemma_mod_bound,
};
use vstd::prelude::*;

verus! {

/// Bytes taken by one field.
pub const WORD_SIZE: usize = 4;

/// Bytes taken by a [`Vec3`]: three packed fields.
pub const VEC3_SIZE: usize = 12;

/// Bytes taken by a [`Quat`]: four packed fields.
pub const QUAT_SIZE: usize = 16;

/// Offset of `pos` inside an encoded [`Transform`].
pub const TRANSFORM_POS_OFFSET: usize = 0;

/// Offset of `rotation` inside an encoded [`Transform`]: directly behind `pos`.
pub const TRANSFORM_ROTATION_OFFSET: usize = 12;

/// Bytes taken by a [`Transform`]: a vector followed by a quaternion, no padding.
pub const TRANSFORM_SIZE: usize = 28;

/// The sizes and offsets follow from the field order alone: fields are
/// packed, and a transform is its vector directly followed by its quaternion.
pub proof fn lemma_layout_is_packed()
    ensures
        VEC3_SIZE == 3 * WORD_SIZE,
        QUAT_SIZE == 4 * WORD_SIZE,
        TRANSFORM_POS_OFFSET == 0,
        TRANSFORM_ROTATION_OFFSET == TRANSFORM_POS_OFFSET + VEC3_SIZE,
        TRANSFORM_SIZE == TRANSFORM_ROTATION_OFFSET + QUAT_SIZE,
{
}

/// The four bytes of a field, least significant first.
#[verifier::opaque]
pub open spec fn word_to_bytes(word: u32) -> Seq<u8> {
    seq![
        (word % 256) as u8,
        ((word / 256) % 256) as u8,
        ((word / 65536) % 256) as u8,
        (word / 16777216) as u8,
    ]
}

/// The field whose bytes are the first four of `bytes`.
#[verifier::opaque]
pub open spec fn word_from_bytes(bytes: Seq<u8>) -> u32
    recommends
        bytes.len() >= 4,
{
    (bytes[0] + 256 * bytes[1] + 65536 * bytes[2] + 16777216 * bytes[3]) as u32
}

/// Four digits below 256 are the base-256 digits of the number they add up
/// to, and that number lies below 2^32.
proof fn lemma_base_256(b0: int, b1: int, b2: int, b3: int)
    requires
        0 <= b0 < 256,
        0 <= b1 < 256,
        0 <= b2 < 256,
        0 <= b3 < 256,
    ensures
        0 <= b0 + 256 * b1 + 65536 * b2 + 16777216 * b3 < 0x1_0000_0000,
        (b0 + 256 * b1 + 65536 * b2 + 16777216 * b3) % 256 == b0,
        ((b0 + 256 * b1 + 65536 * b2 + 16777216 * b3) / 256) % 256 == b1,
        ((b0 + 256 * b1 + 65536 * b2 + 16777216 * b3) / 65536) % 256 == b2,
        (b0 + 256 * b1 + 65536 * b2 + 16777216 * b3) / 16777216 == b3,
{
    let number: int = b0 + 256 * b1 + 65536 * b2 + 16777216 * b3;
    let above_one: int = b1 + 256 * b2 + 65536 * b3;
    let above_two: int = b2 + 256 * b3;
    let below_two: int = b0 + 256 * b1;
    let below_three: int = b0 + 256 * b1 + 65536 * b2;
    // Each line splits a number into the digits above and below one place.
    lemma_fundamental_div_mod_converse(number, 256, above_one, b0);
    lemma_fundamental_div_mod_converse(above_one, 256, above_two, b1);
    lemma_fundamental_div_mod_converse(number, 65536, above_two, below_two);
    lemma_fundamental_div_mod_converse(above_two, 256, b3, b2);
    lemma_fundamental_div_mod_converse(number, 16777216, b3, below_three);
}

/// The base-256 digits of a number below 2^32 are four, each below 256, and
/// add up to the number.
proof fn lemma_digits(number: int)
    requires
        0 <= number < 0x1_0000_0000,
    ensures
        0 <= number % 256 < 256,
        0 <= (number / 256) % 256 < 256,
        0 <= (number / 65536) % 256 < 256,
        0 <= number / 16777216 < 256,
        number == number % 256 + 256 * ((number / 256) % 256) + 65536 * ((number / 65536) % 256)
            + 16777216 * (number / 16777216),
{
    let above_one: int = number / 256;
    let above_two: int = above_one / 256;
    let above_three: int = above_two / 256;
    // number == 256 * above_one + digit 0, and so on up the places.
    lemma_fundamental_div_mod(number, 256);
    lemma_mod_bound(number, 256);
    lemma_fundamental_div_mod(above_one, 256);
    lemma_mod_bound(above_one, 256);
    lemma_fundamental_div_mod(above_two, 256);
    lemma_mod_bound(above_two, 256);
    assert(0 <= above_one);
    assert(0 <= above_two);
    assert(0 <= above_three < 256);
    // Dividing twice by 256 is dividing by 65536, thrice by 16777216.
    lemma_div_denominator(number, 256, 256);
    assert(above_two == number / 65536);
    lemma_div_denominator(number, 65536, 256);
    assert(above_three == number / 16777216);
}

/// Reading back the bytes of a field gives the field.
pub proof fn lemma_word_round_trip(word: u32)
    ensures
        word_to_bytes(word).len() == WORD_SIZE,
        word_from_bytes(word_to_bytes(word)) == word,
{
    reveal(word_to_bytes);
    reveal(word_from_bytes);
    lemma_digits(word as int);
}

/// Four bytes are the bytes of the field read from them.
pub proof fn lemma_bytes_round_trip(bytes: Seq<u8>)
    requires
        bytes.len() == WORD_SIZE,
    ensures
        word_to_bytes(word_from_bytes(bytes)) == bytes,
{
    reveal(word_to_bytes);
    reveal(word_from_bytes);
    lemma_base_256(bytes[0] as int, bytes[1] as int, bytes[2] as int, bytes[3] as int);
    assert(word_to_bytes(word_from_bytes(bytes)) =~= bytes);
}

/// Appends the bytes of `word` to `out`.
fn put_word(out: &mut Vec<u8>, word: u32)
    ensures
        final(out)@ == old(out)@ + word_to_bytes(word),
{
    proof {
        reveal(word_to_bytes);
        lemma_digits(word as int);
    }
    out.push((word % 256) as u8);
    out.push(((word / 256) % 256) as u8);
    out.push(((word / 65536) % 256) as u8);
    out.push((word / 16777216) as u8);
    assert(out@ =~= old(out)@ + word_to_bytes(word));
}

/// Reads the field stored at `at`.
fn get_word(bytes: &[u8], at: usize) -> (word: u32)
    requires
        at + WORD_SIZE <= bytes.len(),
    ensures
        word == word_from_bytes(bytes@.subrange(at as int, at + WORD_SIZE)),
{
    proof {
        reveal(word_from_bytes);
        lemma_base_256(
            bytes@[at as int] as int,
            bytes@[at + 1] as int,
            bytes@[at + 2] as int,
            bytes@[at + 3] as int,
        );
    }
    let b0: u32 = bytes[at] as u32;
    let b1: u32 = bytes[at + 1] as u32;
    let b2: u32 = bytes[at + 2] as u32;
    let b3: u32 = bytes[at + 3] as u32;
    b0 + 256 * b1 + 65536 * b2 + 16777216 * b3
}

/// A point or direction in space: three floats, held as their bit patterns.
#[derive(Clone, Copy, Debug, PartialEq, Eq, Structural)]
pub struct Vec3 {
    pub x: u32,
    pub y: u32,
    pub z: u32,
}

/// A rotation: four floats, held as their bit patterns.
#[derive(Clone, Copy, Debug, PartialEq, Eq, Structural)]
pub struct Quat {
    pub x: u32,
    pub y: u32,
    pub z: u32,
    pub w: u32,
}

/// A position and a rotation.
#[derive(Clone, Copy, Debug, PartialEq, Eq, Structural)]
pub struct Transform {
    pub pos: Vec3,
    pub rotation: Quat,
}

impl Vec3 {
    /// The byte representation: `x`, `y`, `z`, packed.
    pub open spec fn spec_encode(self) -> Seq<u8> {
        word_to_bytes(self.x) + word_to_bytes(self.y) + word_to_bytes(self.z)
    }

    /// The value whose representation starts `bytes`.
    pub open spec fn spec_decode(bytes: Seq<u8>) -> Vec3
        recommends
            bytes.len() >= VEC3_SIZE,
    {
        Vec3 {
            x: word_from_bytes(bytes.subrange(0, 4)),
            y: word_from_bytes(bytes.subrange(4, 8)),
            z: word_from_bytes(bytes.subrange(8, 12)),
        }
    }

    /// Decoding the representation of a value gives the value back.
    pub proof fn lemma_round_trip(self)
        ensures
            self.spec_encode().len() == VEC3_SIZE,
            Vec3::spec_decode(self.spec_encode()) == self,
    {
        let bytes = self.spec_encode();
        lemma_word_round_trip(self.x);
        lemma_word_round_trip(self.y);
        lemma_word_round_trip(self.z);
        assert(bytes.subrange(0, 4) =~= word_to_bytes(self.x));
        assert(bytes.subrange(4, 8) =~= word_to_bytes(self.y));
        assert(bytes.subrange(8, 12) =~= word_to_bytes(self.z));
    }

    /// A byte range of the right size is the representation of what it decodes to.
    pub proof fn lemma_bytes_round_trip(bytes: Seq<u8>)
        requires
            bytes.len() == VEC3_SIZE,
        ensures
            Vec3::spec_decode(bytes).spec_encode() == bytes,
    {
        lemma_bytes_round_trip(bytes.subrange(0, 4));
        lemma_bytes_round_trip(bytes.subrange(4, 8));
        lemma_bytes_round_trip(bytes.subrange(8, 12));
        assert(Vec3::spec_decode(bytes).spec_encode() =~= bytes);
    }

    /// Appends the representation to `out`.
    fn encode_into(&self, out: &mut Vec<u8>)
        ensures
            final(out)@ == old(out)@ + self.spec_encode(),
    {
        put_word(out, self.x);
        put_word(out, self.y);
        put_word(out, self.z);
        assert(out@ =~= old(out)@ + self.spec_encode());
    }

    /// Reads the value stored at `at`.
    fn decode_at(bytes: &[u8], at: usize) -> (value: Vec3)
        requires
            at + VEC3_SIZE <= bytes.len(),
        ensures
            value == Vec3::spec_decode(bytes@.subrange(at as int, at + VEC3_SIZE)),
    {
        let ghost part = bytes@.subrange(at as int, at + VEC3_SIZE);
        assert(part.subrange(0, 4) =~= bytes@.subrange(at as int, at + 4));
        assert(part.subrange(4, 8) =~= bytes@.subrange(at + 4, at + 8));
        assert(part.subrange(8, 12) =~= bytes@.subrange(at + 8, at + 12));
        Vec3 { x: get_word(bytes, at), y: get_word(bytes, at + 4), z: get_word(bytes, at + 8) }
    }

    /// Encodes the value as `VEC3_SIZE` bytes.
    pub fn encode(&self) -> (bytes: Vec<u8>)
        ensures
            bytes@ == self.spec_encode(),
            bytes@.len() == VEC3_SIZE,
    {
        let mut bytes: Vec<u8> = Vec::new();
        self.encode_into(&mut bytes);
        proof {
            self.lemma_round_trip();
            assert(bytes@ =~= self.spec_encode());
        }
        bytes
    }

    /// Decodes a value from exactly `VEC3_SIZE` bytes; any other length
    /// holds no value of this type.
    pub fn decode(bytes: &[u8]) -> (value: Option<Vec3>)
        ensures
            bytes@.len() == VEC3_SIZE ==> value == Some(Vec3::spec_decode(bytes@)),
            bytes@.len() != VEC3_SIZE ==> value is None,
    {
        if bytes.len() != VEC3_SIZE {
            return None;
        }
        assert(bytes@.subrange(0, VEC3_SIZE as int) =~= bytes@);
        Some(Vec3::decode_at(bytes, 0))
    }
}

impl Quat {
    /// The byte representation: `x`, `y`, `z`, `w`, packed.
    pub open spec fn spec_encode(self) -> Seq<u8> {
        word_to_bytes(self.x) + word_to_bytes(self.y) + word_to_bytes(self.z) + word_to_bytes(
            self.w,
        )
    }

    /// The value whose representation starts `bytes`.
    pub open spec fn spec_decode(bytes: Seq<u8>) -> Quat
        recommends
            bytes.len() >= QUAT_SIZE,
    {
        Quat {
            x: word_from_bytes(bytes.subrange(0, 4)),
            y: word_from_bytes(bytes.subrange(4, 8)),
            z: word_from_bytes(bytes.subrange(8, 12)),
            w: word_from_bytes(bytes.subrange(12, 16)),
        }
    }

    /// Decoding the representation of a value gives the value back.
    pub proof fn lemma_round_trip(self)
        ensures
            self.spec_encode().len() == QUAT_SIZE,
            Quat::spec_decode(self.spec_encode()) == self,
    {
        let bytes = self.spec_encode();
        lemma_word_round_trip(self.x);
        lemma_word_round_trip(self.y);
        lemma_word_round_trip(self.z);
        lemma_word_round_trip(self.w);
        assert(bytes.subrange(0, 4) =~= word_to_bytes(self.x));
        assert(bytes.subrange(4, 8) =~= word_to_bytes(self.y));
        assert(bytes.subrange(8, 12) =~= word_to_bytes(self.z));
        assert(bytes.subrange(12, 16) =~= word_to_bytes(self.w));
    }

    /// A byte range of the right size is the representation of what it decodes to.
    pub proof fn lemma_bytes_round_trip(bytes: Seq<u8>)
        requires
            bytes.len() == QUAT_SIZE,
        ensures
            Quat::spec_decode(bytes).spec_encode() == bytes,
    {
        lemma_bytes_round_trip(bytes.subrange(0, 4));
        lemma_bytes_round_trip(bytes.subrange(4, 8));
        lemma_bytes_round_trip(bytes.subrange(8, 12));
        lemma_bytes_round_trip(bytes.subrange(12, 16));
        assert(Quat::spec_decode(bytes).spec_encode() =~= bytes);
    }

    /// Appends the representation to `out`.
    fn encode_into(&self, out: &mut Vec<u8>)
        ensures
            final(out)@ == old(out)@ + self.spec_encode(),
    {
        put_word(out, self.x);
        put_word(out, self.y);
        put_word(out, self.z);
        put_word(out, self.w);
        assert(out@ =~= old(out)@ + self.spec_encode());
    }

    /// Reads the value stored at `at`.
    fn decode_at(bytes: &[u8], at: usize) -> (value: Quat)
        requires
            at + QUAT_SIZE <= bytes.len(),
        ensures
            value == Quat::spec_decode(bytes@.subrange(at as int, at + QUAT_SIZE)),
    {
        let ghost part = bytes@.subrange(at as int, at + QUAT_SIZE);
        assert(part.subrange(0, 4) =~= bytes@.subrange(at as int, at + 4));
        assert(part.subrange(4, 8) =~= bytes@.subrange(at + 4, at + 8));
        assert(part.subrange(8, 12) =~= bytes@.subrange(at + 8, at + 12));
        assert(part.subrange(12, 16) =~= bytes@.subrange(at + 12, at + 16));
        Quat {
            x: get_word(bytes, at),
            y: get_word(bytes, at + 4),
            z: get_word(bytes, at + 8),
            w: get_word(bytes, at + 12),
        }
    }

    /// Encodes the value as `QUAT_SIZE` bytes.
    pub fn encode(&self) -> (bytes: Vec<u8>)
        ensures
            bytes@ == self.spec_encode(),
            bytes@.len() == QUAT_SIZE,
    {
        let mut bytes: Vec<u8> = Vec::new();
        self.encode_into(&mut bytes);
        proof {
            self.lemma_round_trip();
            assert(bytes@ =~= self.spec_encode());
        }
        bytes
    }

    /// Decodes a value from exactly `QUAT_SIZE` bytes; any other length
    /// holds no value of this type.
    pub fn decode(bytes: &[u8]) -> (value: Option<Quat>)
        ensures
            bytes@.len() == QUAT_SIZE ==> value == Some(Quat::spec_decode(bytes@)),
            bytes@.len() != QUAT_SIZE ==> value is None,
    {
        if bytes.len() != QUAT_SIZE {
            return None;
        }
        assert(bytes@.subrange(0, QUAT_SIZE as int) =~= bytes@);
        Some(Quat::decode_at(bytes, 0))
    }
}

impl Transform {
    /// The byte representation: `pos` directly followed by `rotation`.
    pub open spec fn spec_encode(self) -> Seq<u8> {
        self.pos.spec_encode() + self.rotation.spec_encode()
    }

    /// The value whose representation starts `bytes`.
    pub open spec fn spec_decode(bytes: Seq<u8>) -> Transform
        recommends
            bytes.len() >= TRANSFORM_SIZE,
    {
        Transform {
            pos: Vec3::spec_decode(bytes.subrange(0, 12)),
            rotation: Quat::spec_decode(bytes.subrange(12, 28)),
        }
    }

    /// Decoding the representation of a value gives the value back.
    pub proof fn lemma_round_trip(self)
        ensures
            self.spec_encode().len() == TRANSFORM_SIZE,
            Transform::spec_decode(self.spec_encode()) == self,
    {
        let bytes = self.spec_encode();
        self.pos.lemma_round_trip();
        self.rotation.lemma_round_trip();
        assert(bytes.subrange(0, 12) =~= self.pos.spec_encode());
        assert(bytes.subrange(12, 28) =~= self.rotation.spec_encode());
    }

    /// A byte range of the right size is the representation of what it decodes to.
    pub proof fn lemma_bytes_round_trip(bytes: Seq<u8>)
        requires
            bytes.len() == TRANSFORM_SIZE,
        ensures
            Transform::spec_decode(bytes).spec_encode() == bytes,
    {
        Vec3::lemma_bytes_round_trip(bytes.subrange(0, 12));
        Quat::lemma_bytes_round_trip(bytes.subrange(12, 28));
        assert(Transform::spec_decode(bytes).spec_encode() =~= bytes);
    }

    /// Encodes the value as `TRANSFORM_SIZE` bytes.
    pub fn encode(&self) -> (bytes: Vec<u8>)
        ensures
            bytes@ == self.spec_encode(),
            bytes@.len() == TRANSFORM_SIZE,
    {
        let mut bytes: Vec<u8> = Vec::new();
        self.pos.encode_into(&mut bytes);
        self.rotation.encode_into(&mut bytes);
        proof {
            self.lemma_round_trip();
            assert(bytes@ =~= self.spec_encode());
        }
        bytes
    }

    /// Decodes a value from exactly `TRANSFORM_SIZE` bytes; any other
    /// length holds no value of this type.
    pub fn decode(bytes: &[u8]) -> (value: Option<Transform>)
        ensures
            bytes@.len() == TRANSFORM_SIZE ==> value == Some(Transform::spec_decode(bytes@)),
            bytes@.len() != TRANSFORM_SIZE ==> value is None,
    {
        if bytes.len() != TRANSFORM_SIZE {
            return None;
        }
        Some(
            Transform {
                pos: Vec3::decode_at(bytes, TRANSFORM_POS_OFFSET),
                rotation: Quat::decode_at(bytes, TRANSFORM_ROTATION_OFFSET),
            },
        )
    }
}

} // verus!
