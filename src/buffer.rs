//! A fixed-capacity accumulator of packed samples.

use vstd::prelude::*;
use crate::sample::{pack_spec, PACKED_LEN};

verus! {

/// Holds up to `N` bytes of packed samples; the filled length is always a
/// multiple of the packed width and never exceeds `N`.
pub struct SampleBuffer<const N: usize> {
    count: usize,
    buffer: [u8; N],
}

impl<const N: usize> View for SampleBuffer<N> {
    type V = Seq<u8>;

    /// The packed bytes accumulated so far.
    closed spec fn view(&self) -> Seq<u8> {
        self.buffer@.subrange(0, self.count as int)
    }
}

impl<const N: usize> SampleBuffer<N> {
    #[verifier::type_invariant]
    spec fn inv(&self) -> bool {
        &&& self.count <= N
        &&& (self.count as nat) % (PACKED_LEN as nat) == 0
    }

    /// One more push fits.
    pub open spec fn has_room(&self) -> bool {
        self@.len() + PACKED_LEN <= N
    }

    /// An empty buffer with zeroed storage.
    pub fn init() -> (r: Self)
        ensures
            r@ == Seq::<u8>::empty(),
    {
        let r = SampleBuffer { count: 0, buffer: [0u8; N] };
        assert(r@ =~= Seq::<u8>::empty());
        r
    }

    /// True when one more push would exceed the capacity.
    pub fn full(&self) -> (r: bool)
        ensures
            r == !self.has_room(),
    {
        proof {
            use_type_invariant(self);
        }
        N - self.count < PACKED_LEN
    }

    pub fn empty(&self) -> (r: bool)
        ensures
            r == (self@.len() == 0),
    {
        proof {
            use_type_invariant(self);
        }
        self.count == 0
    }

    /// Number of bytes accumulated: whatever was pushed, a multiple of the
    /// packed width and within capacity.
    pub fn count(&self) -> (r: usize)
        ensures
            r == self@.len(),
            r % PACKED_LEN == 0,
            r <= N,
    {
        proof {
            use_type_invariant(self);
        }
        self.count
    }

    pub fn clear(&mut self)
        ensures
            final(self)@ == Seq::<u8>::empty(),
        no_unwind
    {
        self.count = 0;
        assert(self@ =~= Seq::<u8>::empty());
    }

    /// The packed bytes accumulated so far.
    pub fn contents(&self) -> (r: &[u8])
        ensures
            r@ == self@,
    {
        proof {
            use_type_invariant(self);
        }
        &self.buffer[0..self.count]
    }

    /// Appends the packed form of bytes 1..6 of `d`.
    pub fn push(&mut self, d: &[u8])
        requires
            d@.len() >= 7,
            old(self).has_room(),
        ensures
            final(self)@ == old(self)@ + pack_spec(d@),
        no_unwind
    {
        proof {
            use_type_invariant(&*self);
        }
        let c = self.count;
        self.buffer[c] = d[1];
        self.buffer[c + 1] = d[3];
        self.buffer[c + 2] = d[5];
        self.buffer[c + 3] = (d[2] & 0x1f) | (d[6] << 5);
        self.buffer[c + 4] = (d[4] & 0x1f) | ((d[6] << 2) & 0x60);
        self.count = c + PACKED_LEN;
        assert(self@ =~= old(self)@ + pack_spec(d@));
    }
}

} // verus!
