use vstd::prelude::*;
use crate::principal::Principal;

verus! {

/// The principals whose consent to the current call the host has confirmed.
///
/// The registries decide which principal must have consented to an
/// operation; this value only records who did.
pub struct Auth {
    signers: Vec<Principal>,
}

impl View for Auth {
    type V = Set<Principal>;

    closed spec fn view(&self) -> Set<Principal> {
        self.signers@.to_set()
    }
}

impl Auth {
    /// Nobody has consented.
    pub fn none() -> (a: Auth)
        ensures
            a@ == Set::<Principal>::empty(),
    {
        let a = Auth { signers: Vec::new() };
        assert(a.signers@.to_set() =~= Set::<Principal>::empty());
        a
    }

    /// Only `p` has consented.
    pub fn of(p: Principal) -> (a: Auth)
        ensures
            a@ == Set::<Principal>::empty().insert(p),
    {
        let mut a = Auth::none();
        a.add(p);
        a
    }

    /// Records that `p` has consented as well.
    pub fn add(&mut self, p: Principal)
        ensures
            final(self)@ == old(self)@.insert(p),
    {
        self.signers.push(p);
        assert(self.signers@.to_set() =~= old(self).signers@.to_set().insert(p)) by {
            assert forall|q: Principal| self.signers@.contains(q) <==> (q == p || old(
                self,
            ).signers@.contains(q)) by {
                if old(self).signers@.contains(q) {
                    let i = choose|i: int| 0 <= i < old(self).signers@.len() && old(self).signers@[i] == q;
                    assert(self.signers@[i] == q);
                }
                if q == p {
                    assert(self.signers@[self.signers@.len() - 1] == p);
                }
            }
        }
    }

    /// Whether `p` has consented.
    pub fn has(&self, p: Principal) -> (r: bool)
        ensures
            r == self@.contains(p),
    {
        let mut i: usize = 0;
        while i < self.signers.len()
            invariant
                i <= self.signers.len(),
                forall|j: int| 0 <= j < i ==> self.signers@[j] != p,
            decreases self.signers.len() - i,
        {
            if self.signers[i] == p {
                return true;
            }
            i += 1;
        }
        false
    }
}

} // verus!
