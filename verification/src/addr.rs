use vstd::prelude::*;

verus! {

/// The canonical byte form of the reserved sentinel that stands for "no
/// legitimate owner": eight zero bytes.
pub open spec fn zero_addr() -> Seq<u8> {
    Seq::new(8, |i: int| 0u8)
}

/// An account identity in the canonical byte form the host hands to the
/// ledger.  The all-zero value `zero_addr()` is reserved: it marks a ticket
/// as unowned or burned and never denotes a real account.
#[derive(Debug)]
pub struct Addr {
    pub bytes: Vec<u8>,
}

impl View for Addr {
    type V = Seq<u8>;

    open spec fn view(&self) -> Seq<u8> {
        self.bytes@
    }
}

impl Clone for Addr {
    fn clone(&self) -> (r: Addr)
        ensures
            r@ == self@,
    {
        let bytes = self.bytes.clone();
        proof {
            assert(bytes@ =~= self.bytes@);
        }
        Addr { bytes }
    }
}

impl Addr {
    /// The reserved zero-address sentinel.
    pub fn zero() -> (r: Addr)
        ensures
            r@ == zero_addr(),
    {
        let bytes: Vec<u8> = vec![0u8; 8];
        proof {
            assert(bytes@ =~= zero_addr());
        }
        Addr { bytes }
    }

    /// Whether two addresses denote the same account.
    pub fn addr_eq(&self, other: &Addr) -> (r: bool)
        ensures
            r == (self@ == other@),
    {
        if self.bytes.len() != other.bytes.len() {
            return false;
        }
        let n = self.bytes.len();
        let mut i: usize = 0;
        while i < n
            invariant
                n == self.bytes@.len(),
                n == other.bytes@.len(),
                0 <= i <= n,
                forall|j: int| 0 <= j < i ==> self.bytes@[j] == other.bytes@[j],
            decreases n - i,
        {
            if self.bytes[i] != other.bytes[i] {
                return false;
            }
            i += 1;
        }
        proof {
            assert(self@ =~= other@);
        }
        true
    }

    /// Whether this address is the reserved zero-address sentinel.
    pub fn is_zero(&self) -> (r: bool)
        ensures
            r == (self@ == zero_addr()),
    {
        if self.bytes.len() != 8 {
            return false;
        }
        let mut i: usize = 0;
        while i < 8
            invariant
                self.bytes@.len() == 8,
                0 <= i <= 8,
                forall|j: int| 0 <= j < i ==> self.bytes@[j] == 0u8,
            decreases 8 - i,
        {
            if self.bytes[i] != 0u8 {
                assert(self@[i as int] != zero_addr()[i as int]);
                return false;
            }
            i += 1;
        }
        proof {
            assert(self@ =~= zero_addr());
        }
        true
    }
}

} // verus!
