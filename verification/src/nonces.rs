//! The table of expected next nonces, one entry per account that was looked up.

use crate::assoc::AssocList;
use crate::primitives::Address;
use vstd::prelude::*;

verus! {

/// Expected next nonce per account. An account gets its entry when it is first looked
/// up; the entry then holds the nonce that the account's next scheduled transaction
/// must carry.
pub struct Nonces {
    table: AssocList<Address, u64>,
}

impl View for Nonces {
    type V = Map<Address, u64>;

    closed spec fn view(&self) -> Map<Address, u64> {
        self.table@
    }
}

/// What `ensure_for_address` leaves behind once the account's nonce was looked up:
/// a known account keeps its entry, an unknown one gets the nonce that was found, and a
/// failed lookup changes nothing and is handed on.
pub open spec fn ensured<E>(
    before: Map<Address, u64>,
    address: Address,
    fetched: Result<u64, E>,
    after: Map<Address, u64>,
    done: Result<(), E>,
) -> bool {
    if before.contains_key(address) {
        after == before && done is Ok
    } else {
        match fetched {
            Ok(nonce) => after == before.insert(address, nonce) && done is Ok,
            Err(error) => after == before && done == Err::<(), E>(error),
        }
    }
}

impl Nonces {
    /// No account has two entries.
    pub closed spec fn wf(&self) -> bool {
        self.table.wf()
    }

    /// A table without entries.
    pub fn new() -> (nonces: Nonces)
        ensures
            nonces.wf(),
            nonces@ == Map::<Address, u64>::empty(),
    {
        Nonces { table: AssocList::new() }
    }

    /// The expected next nonce of `address`, if the account is known.
    pub fn get(&self, address: &Address) -> (nonce: Option<u64>)
        requires
            self.wf(),
        ensures
            nonce == (if self@.contains_key(*address) {
                Some(self@[*address])
            } else {
                None
            }),
    {
        match self.table.get(address) {
            Some(nonce) => Some(*nonce),
            None => None,
        }
    }

    /// A handle on the expected next nonce of `address`, if the account is known. What
    /// is written through the handle becomes the account's entry.
    pub fn get_mut(&mut self, address: &Address) -> (nonce: Option<&mut u64>)
        requires
            old(self).wf(),
        ensures
            final(self).wf(),
            nonce is Some <==> old(self)@.contains_key(*address),
            nonce matches Some(slot) ==> *slot == old(self)@[*address],
            nonce matches Some(slot) ==> final(self)@ == old(self)@.insert(*address, *final(slot)),
            nonce is None ==> final(self)@ == old(self)@,
    {
        self.table.get_mut(address)
    }

    /// Records the outcome of looking up the nonce of `address`: an account without an
    /// entry gets the nonce that was found. A known account keeps its entry, whatever
    /// was found, and a failed lookup for an unknown account is handed on.
    pub fn record_fetched<E>(&mut self, address: Address, fetched: Result<u64, E>) -> (done: Result<
        (),
        E,
    >)
        requires
            old(self).wf(),
        ensures
            final(self).wf(),
            ensured(old(self)@, address, fetched, final(self)@, done),
    {
        if self.table.position(&address).is_some() {
            return Ok(());
        }
        match fetched {
            Ok(nonce) => {
                self.table.insert(address, nonce);
                Ok(())
            },
            Err(error) => Err(error),
        }
    }

    /// Makes sure that `address` has an entry. A known account is left as it is and
    /// `fetch_fn` is not called. For an unknown one `fetch_fn` is asked for the account's
    /// current nonce, which becomes its entry; where `fetch_fn` fails, the failure is
    /// handed on and the table stays as it was.
    pub fn ensure_for_address<E, F: FnOnce(Address) -> Result<u64, E>>(
        &mut self,
        address: Address,
        fetch_fn: F,
    ) -> (done: Result<(), E>)
        requires
            old(self).wf(),
            !old(self)@.contains_key(address) ==> call_requires(fetch_fn, (address,)),
        ensures
            final(self).wf(),
            old(self)@.contains_key(address) ==> done is Ok && final(self)@ == old(self)@,
            !old(self)@.contains_key(address) ==> exists|fetched: Result<u64, E>|
                call_ensures(fetch_fn, (address,), fetched) && #[trigger] ensured(
                    old(self)@,
                    address,
                    fetched,
                    final(self)@,
                    done,
                ),
    {
        if self.table.position(&address).is_some() {
            return Ok(());
        }
        let fetched = fetch_fn(address);
        let ghost witness = fetched;
        let done = self.record_fetched(address, fetched);
        assert(ensured(old(self)@, address, witness, self@, done));
        done
    }
}

impl Default for Nonces {
    fn default() -> (nonces: Nonces)
        ensures
            nonces.wf(),
            nonces@ == Map::<Address, u64>::empty(),
    {
        Nonces::new()
    }
}

} // verus!
