use vstd::prelude::*;

use crate::keys::Pubkey;

verus! {

/// Keccak-256 digest of a byte string.
pub uninterp spec fn keccak_of(data: Seq<u8>) -> Seq<u8>;

/// Relies on anchor_lang::solana_program::keccak::hashv: the Keccak-256
/// digest of the parts fed to one hasher in order, that is of their
/// concatenation.
#[verifier::external_body]
pub(crate) fn keccak_pair(a: &[u8], b: &[u8]) -> (r: [u8; 32])
    ensures
        r@ == keccak_of(a@ + b@),
{
    anchor_lang::solana_program::keccak::hashv(&[a, b]).0
}

/// Value of bytes read least significant first.
pub open spec fn le_value(s: Seq<u8>) -> nat
    decreases s.len(),
{
    if s.len() == 0 {
        0
    } else {
        s[0] as nat + 256 * le_value(s.drop_first())
    }
}

/// The two values that a native-endian reading of `s` can give.
pub open spec fn ne_value(s: Seq<u8>, v: nat) -> bool {
    v == le_value(s) || v == le_value(s.reverse())
}

/// Relies on u16::from_ne_bytes: the bytes read in the machine's order.
#[verifier::external_body]
fn u16_from_ne(bytes: [u8; 2]) -> (r: u16)
    ensures
        ne_value(bytes@, r as nat),
{
    u16::from_ne_bytes(bytes)
}

/// Relies on u64::from_ne_bytes: the bytes read in the machine's order.
#[verifier::external_body]
fn u64_from_ne(bytes: [u8; 8]) -> (r: u64)
    ensures
        ne_value(bytes@, r as nat),
{
    u64::from_ne_bytes(bytes)
}

/// Reads an integer from bytes in the machine's byte order.
pub trait FromNE<const N: usize>: Sized {
    /// The integer's value.
    spec fn as_nat(&self) -> nat;

    fn from_ne_bytes(bytes: [u8; N]) -> (r: Self)
        ensures
            ne_value(bytes@, r.as_nat()),
    ;
}

impl FromNE<1> for u8 {
    open spec fn as_nat(&self) -> nat {
        *self as nat
    }

    fn from_ne_bytes(bytes: [u8; 1]) -> (r: u8) {
        let r = bytes[0];
        assert(le_value(bytes@) == bytes@[0] as nat + 256 * le_value(bytes@.drop_first()));
        assert(bytes@.drop_first() =~= Seq::<u8>::empty());
        assert(bytes@.reverse() =~= bytes@);
        r
    }
}

impl FromNE<2> for u16 {
    open spec fn as_nat(&self) -> nat {
        *self as nat
    }

    fn from_ne_bytes(bytes: [u8; 2]) -> (r: u16) {
        u16_from_ne(bytes)
    }
}

impl FromNE<8> for u64 {
    open spec fn as_nat(&self) -> nat {
        *self as nat
    }

    fn from_ne_bytes(bytes: [u8; 8]) -> (r: u64) {
        u64_from_ne(bytes)
    }
}

/// A fieldless enumeration whose variants can be drawn by their position in
/// the declaration.
pub trait Enumerable: Sized {
    /// Number of variants.
    spec fn count() -> nat;

    /// The variant at position `i` of the declaration.
    spec fn variant_at(i: int) -> Self;

    fn variant_count() -> (r: u8)
        ensures
            r as nat == Self::count(),
            1 <= r < u8::MAX,
    ;

    fn from_index(i: u8) -> (r: Self)
        requires
            (i as nat) < Self::count(),
        ensures
            r == Self::variant_at(i as int),
    ;
}

/// Reduction of a raw draw into the closed range `[min, max]`.
pub open spec fn fitted(v: int, min: int, max: int) -> int {
    v % (max - min + 1) + min
}

/// Pseudo-random bytes: a 32-byte digest sliced in order, each draw taking
/// the next bytes after the cursor.
pub struct RandomGenerator {
    pub offset: u8,
    pub hash: [u8; 32],
}

/// A draw of `n` bytes is possible while it stays inside the digest.
pub open spec fn can_draw(r: RandomGenerator, n: nat) -> bool {
    r.offset as nat + n <= 32
}

/// The bytes that the next draw of width `n` reads.
pub open spec fn window(r: RandomGenerator, n: nat) -> Seq<u8> {
    r.hash@.subrange(r.offset as int, r.offset as int + n)
}


/// Maps a raw value into `[min, max]` as the generator does: the remainder
/// modulo the width of the range, shifted by `min`.
pub fn fit_u8(v: u8, min: u8, max: u8) -> (r: u8)
    requires
        min <= max < u8::MAX,
    ensures
        r == fitted(v as int, min as int, max as int),
        min <= r <= max,
{
    v % (max + 1 - min) + min
}

/// As `fit_u8`, on 16-bit values.
pub fn fit_u16(v: u16, min: u16, max: u16) -> (r: u16)
    requires
        min <= max < u16::MAX,
    ensures
        r == fitted(v as int, min as int, max as int),
        min <= r <= max,
{
    v % (max + 1 - min) + min
}

/// As `fit_u8`, on 64-bit values.
pub fn fit_u64(v: u64, min: u64, max: u64) -> (r: u64)
    requires
        min <= max < u64::MAX,
    ensures
        r == fitted(v as int, min as int, max as int),
        min <= r <= max,
{
    v % (max + 1 - min) + min
}

impl RandomGenerator {
    /// Seeds the generator with the digest of the entropy window
    /// `slot_hashes[8..64]` followed by the key's bytes.
    pub fn new(slot_hashes: &[u8], pubkey: Pubkey) -> (r: RandomGenerator)
        requires
            slot_hashes@.len() >= 64,
        ensures
            r.offset == 0,
            r.hash@ == keccak_of(slot_hashes@.subrange(8, 64) + pubkey.bytes@),
    {
        let mut window: Vec<u8> = Vec::new();
        let mut i: usize = 8;
        while i < 64
            invariant
                8 <= i <= 64,
                slot_hashes@.len() >= 64,
                window@ == slot_hashes@.subrange(8, i as int),
            decreases 64 - i,
        {
            window.push(slot_hashes[i]);
            i = i + 1;
            assert(window@ =~= slot_hashes@.subrange(8, i as int));
        }
        RandomGenerator { offset: 0, hash: keccak_pair(window.as_slice(), &pubkey.bytes) }
    }

    /// Draws one byte.
    pub fn random_u8(&mut self) -> (r: u8)
        requires
            can_draw(*old(self), 1),
        ensures
            *final(self) == advanced_by(*old(self), 1),
            r == old(self).hash@[old(self).offset as int],
    {
        let at = self.offset as usize;
        self.offset = self.offset + 1;
        self.hash[at]
    }

    /// Draws two bytes, read in the machine's byte order.
    pub fn random_u16(&mut self) -> (r: u16)
        requires
            can_draw(*old(self), 2),
        ensures
            *final(self) == advanced_by(*old(self), 2),
            ne_value(window(*old(self), 2), r as nat),
    {
        self.random::<u16, 2>()
    }

    /// Draws eight bytes, read in the machine's byte order.
    pub fn random_u64(&mut self) -> (r: u64)
        requires
            can_draw(*old(self), 8),
        ensures
            *final(self) == advanced_by(*old(self), 8),
            ne_value(window(*old(self), 8), r as nat),
    {
        self.random::<u64, 8>()
    }

    /// Draws one byte and maps it into `[min, max]`.
    pub fn random_within_range_u8(&mut self, min: u8, max: u8) -> (r: u8)
        requires
            can_draw(*old(self), 1),
            min <= max < u8::MAX,
        ensures
            *final(self) == advanced_by(*old(self), 1),
            r == fitted(old(self).hash@[old(self).offset as int] as int, min as int, max as int),
            min <= r <= max,
    {
        let v = self.random_u8();
        fit_u8(v, min, max)
    }

    /// Draws two bytes and maps their value into `[min, max]`.
    pub fn random_within_range_u16(&mut self, min: u16, max: u16) -> (r: u16)
        requires
            can_draw(*old(self), 2),
            min <= max < u16::MAX,
        ensures
            *final(self) == advanced_by(*old(self), 2),
            ne_fitted(window(*old(self), 2), r as int, min as int, max as int),
            min <= r <= max,
    {
        let v = self.random_u16();
        fit_u16(v, min, max)
    }

    /// Draws eight bytes and maps their value into `[min, max]`.
    pub fn random_within_range_u64(&mut self, min: u64, max: u64) -> (r: u64)
        requires
            can_draw(*old(self), 8),
            min <= max < u64::MAX,
        ensures
            *final(self) == advanced_by(*old(self), 8),
            ne_fitted(window(*old(self), 8), r as int, min as int, max as int),
            min <= r <= max,
    {
        let v = self.random_u64();
        fit_u64(v, min, max)
    }
}

/// `r` is what `fitted` gives on one of the two native-endian readings of `w`.
pub open spec fn ne_fitted(w: Seq<u8>, r: int, min: int, max: int) -> bool {
    r == fitted(le_value(w) as int, min, max) || r == fitted(le_value(w.reverse()) as int, min, max)
}

/// The byte `k` places after the cursor.
pub open spec fn byte_at(r: RandomGenerator, k: int) -> int {
    r.hash@[r.offset as int + k] as int
}

/// The generator after `k` more bytes are drawn.
pub open spec fn advanced_by(r: RandomGenerator, k: nat) -> RandomGenerator {
    RandomGenerator { offset: (r.offset + k) as u8, hash: r.hash }
}

impl RandomGenerator {
    /// Draws the next `N` bytes, read as a `T` in the machine's byte order.
    pub fn random<T: FromNE<N>, const N: usize>(&mut self) -> (r: T)
        requires
            can_draw(*old(self), N as nat),
        ensures
            *final(self) == advanced_by(*old(self), N as nat),
            ne_value(window(*old(self), N as nat), r.as_nat()),
    {
        let at = self.offset as usize;
        self.offset = self.offset + N as u8;
        let mut bytes = [0u8; N];
        let mut i: usize = 0;
        while i < N
            invariant
                0 <= i <= N,
                at + N <= 32,
                bytes@.len() == N,
                self.hash == old(self).hash,
                at == old(self).offset,
                self.offset == old(self).offset + N,
                forall|j: int| 0 <= j < i ==> bytes@[j] == self.hash@[at + j],
            decreases N - i,
        {
            bytes[i] = self.hash[at + i];
            i = i + 1;
        }
        assert(bytes@ =~= window(*old(self), N as nat));
        T::from_ne_bytes(bytes)
    }

    /// Draws a variant uniformly (one byte reduced modulo the number of variants).
    pub fn random_enum<E: Enumerable>(&mut self) -> (r: E)
        requires
            can_draw(*old(self), 1),
        ensures
            *final(self) == advanced_by(*old(self), 1),
            r == E::variant_at(fitted(byte_at(*old(self), 0), 0, E::count() - 1)),
    {
        let n = E::variant_count();
        let i = self.random_within_range_u8(0, n - 1);
        E::from_index(i)
    }

    /// Draws a variant among positions `[min, max]` of the declaration.
    pub fn random_enum_within_range<E: Enumerable>(&mut self, min: u8, max: u8) -> (r: E)
        requires
            can_draw(*old(self), 1),
            min <= max < u8::MAX,
            (max as nat) < E::count(),
        ensures
            *final(self) == advanced_by(*old(self), 1),
            r == E::variant_at(fitted(byte_at(*old(self), 0), min as int, max as int)),
    {
        let i = self.random_within_range_u8(min, max);
        E::from_index(i)
    }
}

} // verus!
