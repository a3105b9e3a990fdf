use core::marker::PhantomData;
use vstd::prelude::*;

verus! {

/// An enumeration whose variants are numbered `1..=count()`, as the members
/// of an [`EnumSet`]; each variant also carries the engine's native flag bits.
pub trait CLike: Sized {
    /// The variant's number in the set.
    spec fn spec_to_usize(&self) -> nat;

    /// The variant with number `n`.
    spec fn spec_from_usize(n: nat) -> Self;

    /// How many variants there are.
    spec fn spec_count() -> nat;

    /// The engine's bits for the variant.
    spec fn spec_native(&self) -> u32;

    /// Numbering is a bijection between the variants and `1..=count()`, and
    /// every number fits a bit of a `u32`.
    proof fn lemma_numbering(x: Self, n: nat)
        ensures
            Self::spec_count() < 32,
            1 <= x.spec_to_usize() <= Self::spec_count(),
            Self::spec_from_usize(x.spec_to_usize()) == x,
            1 <= n <= Self::spec_count() ==> Self::spec_from_usize(n).spec_to_usize() == n,
    ;

    fn from_usize(n: usize) -> (r: Self)
        requires
            1 <= n <= Self::spec_count(),
        ensures
            r == Self::spec_from_usize(n as nat),
    ;

    fn to_usize(&self) -> (r: usize)
        ensures
            r as nat == self.spec_to_usize(),
    ;

    fn native(&self) -> (r: u32)
        ensures
            r == self.spec_native(),
    ;
}

/// Whether bit `k` of `bits` is set.
pub open spec fn bit_set(bits: u32, k: nat) -> bool {
    k < 32 && bits & (1u32 << k) != 0
}

/// The native encoding of the members of `bits` numbered below `k`: the
/// bitwise or of the native bits of each of them.
pub open spec fn native_below<E: CLike>(bits: u32, k: nat) -> u32
    decreases k,
{
    if k == 0 {
        0
    } else {
        let rest = native_below::<E>(bits, (k - 1) as nat);
        if bit_set(bits, (k - 1) as nat) && 1 <= k - 1 <= E::spec_count() {
            rest | E::spec_from_usize((k - 1) as nat).spec_native()
        } else {
            rest
        }
    }
}

proof fn lemma_bit_or(m: u32, a: u32, b: u32)
    requires
        a < 32,
        b < 32,
    ensures
        ((m | (1u32 << a)) & (1u32 << b) != 0) <==> (a == b || m & (1u32 << b) != 0),
{
    assert(((m | (1u32 << a)) & (1u32 << b) != 0) <==> (a == b || m & (1u32 << b) != 0))
        by (bit_vector)
        requires
            a < 32,
            b < 32,
    ;
}

proof fn lemma_bit_clear(m: u32, a: u32, b: u32)
    requires
        a < 32,
        b < 32,
    ensures
        ((m & !(1u32 << a)) & (1u32 << b) != 0) <==> (a != b && m & (1u32 << b) != 0),
{
    assert(((m & !(1u32 << a)) & (1u32 << b) != 0) <==> (a != b && m & (1u32 << b) != 0))
        by (bit_vector)
        requires
            a < 32,
            b < 32,
    ;
}

/// A set of options of one family, held as one bit per variant number.
#[derive(Copy, Debug)]
pub struct EnumSet<E> {
    bits: u32,
    marker: PhantomData<E>,
}

impl<E> Clone for EnumSet<E> {
    fn clone(&self) -> (r: Self)
        ensures
            r == *self,
    {
        EnumSet { bits: self.bits, marker: PhantomData }
    }
}

impl<E: CLike> EnumSet<E> {
    /// Only bits numbered `1..=count()` are ever set.
    pub open spec fn wf(&self) -> bool {
        forall|k: nat| #[trigger] bit_set(self.spec_bits(), k) ==> 1 <= k <= E::spec_count()
    }

    pub closed spec fn spec_bits(&self) -> u32 {
        self.bits
    }

    /// The members of the set.
    pub open spec fn view(&self) -> Set<E> {
        Set::new(|e: E| bit_set(self.spec_bits(), e.spec_to_usize()))
    }

    /// The set with `e` added, on its bits.
    pub closed spec fn spec_insert(self, e: E) -> Self {
        EnumSet { bits: self.bits | (1u32 << e.spec_to_usize()), marker: self.marker }
    }

    /// The empty set.
    pub closed spec fn spec_empty() -> Self {
        EnumSet { bits: 0, marker: PhantomData }
    }

    /// What the engine receives for this set.
    pub open spec fn spec_native(&self) -> u32 {
        native_below::<E>(self.spec_bits(), 32)
    }

    pub fn empty() -> (r: Self)
        ensures
            r.wf(),
            r@ == Set::<E>::empty(),
            r == Self::spec_empty(),
    {
        let r = EnumSet { bits: 0, marker: PhantomData };
        assert forall|k: nat| #[trigger] bit_set(r.bits, k) implies 1 <= k <= E::spec_count() by {
            assert(0u32 & (1u32 << k) == 0) by (bit_vector);
        }
        assert forall|e: E| !#[trigger] r@.contains(e) by {
            let k = e.spec_to_usize();
            if k < 32 {
                assert(0u32 & (1u32 << k) == 0) by (bit_vector);
            }
        }
        assert(r@ =~= Set::<E>::empty());
        r
    }

    pub fn contains(&self, e: &E) -> (r: bool)
        requires
            self.wf(),
        ensures
            r == self@.contains(*e),
    {
        proof {
            E::lemma_numbering(*e, 0);
        }
        let k = e.to_usize() as u32;
        self.bits & (1u32 << k) != 0
    }

    /// Adds `e`; returns whether it was not a member before.
    pub fn insert(&mut self, e: E) -> (r: bool)
        requires
            old(self).wf(),
        ensures
            final(self).wf(),
            final(self)@ == old(self)@.insert(e),
            *final(self) == old(self).spec_insert(e),
            r == !old(self)@.contains(e),
    {
        proof {
            E::lemma_numbering(e, 0);
        }
        let k = e.to_usize() as u32;
        let r = self.bits & (1u32 << k) == 0;
        let ghost before = *self;
        self.bits = self.bits | (1u32 << k);
        proof {
            assert forall|j: nat| #[trigger] bit_set(self.spec_bits(), j) implies 1 <= j <= E::spec_count() by {
                lemma_bit_or(before.bits, k, j as u32);
                assert(bit_set(before.spec_bits(), j) || j == k);
            }
            assert forall|x: E| #[trigger] self@.contains(x) == before@.insert(e).contains(x) by {
                E::lemma_numbering(x, 0);
                lemma_bit_or(before.bits, k, x.spec_to_usize() as u32);
                E::lemma_numbering(e, 0);
            }
            assert(self@ =~= before@.insert(e));
        }
        r
    }

    /// Removes `e`; returns whether it was a member.
    pub fn remove(&mut self, e: &E) -> (r: bool)
        requires
            old(self).wf(),
        ensures
            final(self).wf(),
            final(self)@ == old(self)@.remove(*e),
            r == old(self)@.contains(*e),
    {
        proof {
            E::lemma_numbering(*e, 0);
        }
        let k = e.to_usize() as u32;
        let r = self.bits & (1u32 << k) != 0;
        let ghost before = *self;
        self.bits = self.bits & !(1u32 << k);
        proof {
            assert forall|j: nat| #[trigger] bit_set(self.spec_bits(), j) implies 1 <= j <= E::spec_count() by {
                lemma_bit_clear(before.bits, k, j as u32);
                assert(bit_set(before.spec_bits(), j));
            }
            assert forall|x: E| #[trigger] self@.contains(x) == before@.remove(*e).contains(x) by {
                E::lemma_numbering(x, 0);
                lemma_bit_clear(before.bits, k, x.spec_to_usize() as u32);
                E::lemma_numbering(*e, 0);
            }
            assert(self@ =~= before@.remove(*e));
        }
        r
    }

    /// The engine's encoding of the set: the bitwise or of the native bits
    /// of its members.
    pub fn native_bits(&self) -> (r: u32)
        requires
            self.wf(),
        ensures
            r == self.spec_native(),
    {
        let mut acc: u32 = 0;
        let mut k: u32 = 0;
        while k < 32
            invariant
                k <= 32,
                self.wf(),
                acc == native_below::<E>(self.bits, k as nat),
            decreases 32 - k,
        {
            if self.bits & (1u32 << k) != 0 {
                assert(bit_set(self.spec_bits(), k as nat));
                let e = E::from_usize(k as usize);
                acc = acc | e.native();
            }
            k = k + 1;
        }
        acc
    }
}

/// The empty set is what the engine receives when no option is given.
pub proof fn lemma_empty_is_no_options<E: CLike>()
    ensures
        EnumSet::<E>::spec_empty().spec_native() == 0,
{
    assert forall|k: nat| k <= 32 implies native_below::<E>(0, k) == 0 by {
        lemma_native_below_zero::<E>(k);
    }
}

proof fn lemma_native_below_zero<E: CLike>(k: nat)
    ensures
        native_below::<E>(0, k) == 0,
    decreases k,
{
    if k > 0 {
        lemma_native_below_zero::<E>((k - 1) as nat);
        if k - 1 < 32 {
            let j = (k - 1) as nat;
            assert(0u32 & (1u32 << j) == 0) by (bit_vector);
        }
    }
}

/// Building a set is insensitive to order and to repetition: inserting `a`
/// then `b` gives the same set as `b` then `a`, and inserting `a` twice is
/// inserting it once.
pub proof fn lemma_insert_order_free<E: CLike>(s: EnumSet<E>, a: E, b: E)
    ensures
        s.spec_insert(a).spec_insert(b) == s.spec_insert(b).spec_insert(a),
        s.spec_insert(a).spec_insert(a) == s.spec_insert(a),
{
    let m = s.bits;
    let x = 1u32 << a.spec_to_usize();
    let y = 1u32 << b.spec_to_usize();
    assert((m | x) | y == (m | y) | x) by (bit_vector);
    assert((m | x) | x == m | x) by (bit_vector);
}

} // verus!
