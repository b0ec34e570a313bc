//! Identity addressing for tree nodes.
//!
//! A `ViewId` is an order-sensitive path fingerprint: the identity of a child
//! is derived by mixing the parent's identity and adding a selector (a slot
//! index for static composition, or the hash of an application-supplied key
//! for data-driven children). Equal selector paths always yield equal
//! identities; distinct selectors under one parent always yield distinct
//! identities. Distinct paths may collide only with birthday-bound
//! probability, which callers accept by contract.

use vstd::prelude::*;

verus! {

use vstd::string::StringSliceAdditionalSpecFns;

/// Stable identity of a node in the view tree. A value type: copyable,
/// comparable, hashable, with no ownership semantics.
#[derive(Clone, Copy, Debug, PartialEq, Eq, Hash, Structural)]
pub struct ViewId {
    pub id: u64,
}

/// A 64-bit finalizer-style bit mixer (xor-shift and odd-constant multiply
/// rounds), applied to the parent identity before a selector is added.
pub open spec fn spec_mix64(x: u64) -> u64 {
    let a = x ^ (x >> 30);
    let b = vstd::wrapping::u64_specs::wrapping_mul(a, 0xbf58476d1ce4e5b9);
    let c = b ^ (b >> 27);
    let d = vstd::wrapping::u64_specs::wrapping_mul(c, 0x94d049bb133111eb);
    d ^ (d >> 31)
}

fn mix64(x: u64) -> (r: u64)
    ensures
        r == spec_mix64(x),
{
    let a: u64 = x ^ (x >> 30u32);
    let b: u64 = a.wrapping_mul(0xbf58476d1ce4e5b9);
    let c: u64 = b ^ (b >> 27u32);
    let d: u64 = c.wrapping_mul(0x94d049bb133111eb);
    d ^ (d >> 31u32)
}

/// FNV-1a over a byte sequence; used to turn an application-supplied key
/// into a selector for data-driven children.
pub open spec fn spec_fnv1a(bytes: Seq<u8>) -> u64
    decreases bytes.len(),
{
    if bytes.len() == 0 {
        0xcbf29ce484222325
    } else {
        vstd::wrapping::u64_specs::wrapping_mul(
            spec_fnv1a(bytes.drop_last()) ^ (bytes.last() as u64),
            0x100000001b3,
        )
    }
}

fn fnv1a(key: &str) -> (r: u64)
    ensures
        r == spec_fnv1a(key.spec_bytes()),
{
    let bytes: &[u8] = key.as_bytes();
    let mut h: u64 = 0xcbf29ce484222325;
    let mut i: usize = 0;
    while i < bytes.len()
        invariant
            i <= bytes@.len(),
            h == spec_fnv1a(bytes@.subrange(0, i as int)),
            bytes@ == key.spec_bytes(),
        decreases bytes@.len() - i,
    {
        proof {
            assert(bytes@.subrange(0, i + 1 as int).drop_last() == bytes@.subrange(0, i as int));
            assert(bytes@.subrange(0, i + 1 as int).last() == bytes@[i as int]);
        }
        h = (h ^ (bytes[i] as u64)).wrapping_mul(0x100000001b3);
        i = i + 1;
    }
    proof {
        assert(bytes@.subrange(0, bytes@.len() as int) == bytes@);
    }
    h
}

impl Default for ViewId {
    /// The null identity; it names no live node and marks a free capture slot.
    fn default() -> (r: Self)
        ensures
            r.id == 0,
    {
        ViewId { id: 0 }
    }
}

impl ViewId {
    /// The identity of the child reached from `self` through `selector`.
    pub open spec fn spec_child(self, selector: u64) -> ViewId {
        ViewId { id: vstd::wrapping::u64_specs::wrapping_add(spec_mix64(self.id), selector) }
    }

    /// Identity of the child in slot `index` of a static composition.
    /// Deterministic: equal `(self, index)` always give an equal result.
    pub fn child(&self, index: u64) -> (r: ViewId)
        ensures
            r == self.spec_child(index),
    {
        ViewId { id: mix64(self.id).wrapping_add(index) }
    }

    /// Identity of the data-driven child selected by `key`. Deterministic in
    /// `(self, key)`; two distinct keys collide under one parent only with
    /// the accepted birthday risk, and such a collision is a caller contract
    /// violation (undefined association, never a crash).
    pub fn child_keyed(&self, key: &str) -> (r: ViewId)
        ensures
            r == self.spec_child(spec_fnv1a(key.spec_bytes())),
    {
        ViewId { id: mix64(self.id).wrapping_add(fnv1a(key)) }
    }
}

/// Identity stability and per-parent distinctness: a child identity is a
/// function of the parent and the selector alone, and under one parent two
/// distinct selectors never produce the same identity.
pub proof fn lemma_child_distinct(p: ViewId, i: u64, j: u64)
    requires
        i != j,
    ensures
        p.spec_child(i) != p.spec_child(j),
{
}

/// Multiplying by an odd constant and then by its modular inverse returns
/// the argument: the multiply rounds of the mixer are invertible.
proof fn lemma_mul_round_trip(x: u64, c: u64, cinv: u64)
    requires
        ((c as int) * (cinv as int)) % 0x10000000000000000 == 1,
    ensures
        vstd::wrapping::u64_specs::wrapping_mul(
            vstd::wrapping::u64_specs::wrapping_mul(x, c),
            cinv,
        ) == x,
{
    let m = 0x10000000000000000int;
    let b = vstd::wrapping::u64_specs::wrapping_mul(x, c);
    assert(b as int == ((x as int) * (c as int)) % m);
    vstd::arithmetic::div_mod::lemma_mul_mod_noop_left((x as int) * (c as int), cinv as int, m);
    vstd::arithmetic::mul::lemma_mul_is_associative(x as int, c as int, cinv as int);
    vstd::arithmetic::div_mod::lemma_mul_mod_noop_right(x as int, (c as int) * (cinv as int), m);
    vstd::arithmetic::div_mod::lemma_small_mod(x as nat, m as nat);
    assert(((b as int) * (cinv as int)) % m == x as int);
}

/// The mixer is a bijection on 64-bit words: every round — an xor-shift
/// or an odd multiplication — is invertible.
pub proof fn lemma_mix64_injective(x: u64, y: u64)
    requires
        spec_mix64(x) == spec_mix64(y),
    ensures
        x == y,
{
    let ax = x ^ (x >> 30);
    let ay = y ^ (y >> 30);
    let bx = vstd::wrapping::u64_specs::wrapping_mul(ax, 0xbf58476d1ce4e5b9);
    let by = vstd::wrapping::u64_specs::wrapping_mul(ay, 0xbf58476d1ce4e5b9);
    let ex = bx ^ (bx >> 27);
    let ey = by ^ (by >> 27);
    let dx = vstd::wrapping::u64_specs::wrapping_mul(ex, 0x94d049bb133111eb);
    let dy = vstd::wrapping::u64_specs::wrapping_mul(ey, 0x94d049bb133111eb);
    assert(dx == dy) by (bit_vector)
        requires
            dx ^ (dx >> 31) == dy ^ (dy >> 31),
    ;
    assert(((0x94d049bb133111ebu64 as int) * (0x319642b2d24d8ec3u64 as int)) % 0x10000000000000000
        == 1);
    lemma_mul_round_trip(ex, 0x94d049bb133111eb, 0x319642b2d24d8ec3);
    lemma_mul_round_trip(ey, 0x94d049bb133111eb, 0x319642b2d24d8ec3);
    assert(ex == ey);
    assert(bx == by) by (bit_vector)
        requires
            bx ^ (bx >> 27) == by ^ (by >> 27),
    ;
    assert(((0xbf58476d1ce4e5b9u64 as int) * (0x96de1b173f119089u64 as int)) % 0x10000000000000000
        == 1);
    lemma_mul_round_trip(ax, 0xbf58476d1ce4e5b9, 0x96de1b173f119089);
    lemma_mul_round_trip(ay, 0xbf58476d1ce4e5b9, 0x96de1b173f119089);
    assert(ax == ay);
    assert(x == y) by (bit_vector)
        requires
            x ^ (x >> 30) == y ^ (y >> 30),
    ;
}

/// Cross-parent distinctness under one selector: two distinct parents
/// never yield the same child for the same selector, because the mixer
/// is a bijection. Only two distinct full selector paths can collide,
/// with the birthday probability callers accept.
pub proof fn lemma_child_parent_distinct(p: ViewId, q: ViewId, selector: u64)
    requires
        p != q,
    ensures
        p.spec_child(selector) != q.spec_child(selector),
{
    if p.spec_child(selector) == q.spec_child(selector) {
        assert(spec_mix64(p.id) == spec_mix64(q.id));
        lemma_mix64_injective(p.id, q.id);
    }
}

} // verus!
