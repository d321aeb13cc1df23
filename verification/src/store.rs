//! A model of the persistence layer both backends commit into: records keyed
//! by address, with exclusive creation (a taken address cannot be reused).
//! The directly-addressable account space and the compressed Merkle-leaf
//! space are two instances of this store; the surrounding ledger runtime
//! guarantees each creation call works on it atomically and alone.

use vstd::prelude::*;
use crate::errors::MultisigError;
use crate::pubkey::Pubkey;
use crate::state::Multisig;

verus! {

/// Some record in the store sits at the given address.
pub open spec fn store_contains_address(s: Seq<(Pubkey, Multisig)>, addr: Seq<u8>) -> bool {
    exists|i: int| 0 <= i < s.len() && (#[trigger] s[i].0@) == addr
}

/// An addressed store of multisig records with exclusive-creation semantics.
pub struct RecordStore {
    entries: Vec<(Pubkey, Multisig)>,
}

impl View for RecordStore {
    type V = Seq<(Pubkey, Multisig)>;

    closed spec fn view(&self) -> Seq<(Pubkey, Multisig)> {
        self.entries@
    }
}

impl RecordStore {
    /// An empty store.
    pub fn new() -> (r: RecordStore)
        ensures
            r@.len() == 0,
    {
        RecordStore { entries: Vec::new() }
    }

    /// How many records the store holds.
    pub fn len(&self) -> (n: usize)
        ensures
            n == self@.len(),
    {
        self.entries.len()
    }

    /// The record at a position, with its address.
    pub fn record_at(&self, i: usize) -> (r: &(Pubkey, Multisig))
        requires
            i < self@.len(),
        ensures
            *r == self@[i as int],
    {
        &self.entries[i]
    }

    /// Whether the address is already occupied.
    pub fn contains_address(&self, addr: &Pubkey) -> (r: bool)
        ensures
            r == store_contains_address(self@, addr@),
    {
        let mut i: usize = 0;
        while i < self.entries.len()
            invariant
                i <= self@.len(),
                forall|k: int| 0 <= k < i ==> (#[trigger] self@[k].0@) != addr@,
            decreases self@.len() - i,
        {
            if self.entries[i].0.key_eq(addr) {
                return true;
            }
            i += 1;
        }
        false
    }

    /// The commit step shared by both backends: places the record at the
    /// address, or refuses if the address (or leaf) is already occupied.
    pub fn commit(&mut self, addr: Pubkey, record: Multisig) -> (r: Result<(), MultisigError>)
        ensures
            r is Err <==> store_contains_address(old(self)@, addr@),
            r is Err ==> r == Err::<(), MultisigError>(MultisigError::AlreadyInitialized)
                && final(self)@ == old(self)@,
            r is Ok ==> final(self)@ == old(self)@.push((addr, record)),
    {
        if self.contains_address(&addr) {
            return Err(MultisigError::AlreadyInitialized);
        }
        self.entries.push((addr, record));
        Ok(())
    }
}

} // verus!
