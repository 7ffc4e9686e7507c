//! Identities, and the guard that tells whether an invocation is
//! attributable to the identity it claims to act for.

use vstd::prelude::*;
use crate::error::Error;

verus! {

/// An externally verifiable principal, known by its canonical key. Two
/// identities are the same principal exactly when their keys are equal.
#[derive(Debug)]
pub struct Identity {
    key: String,
}

impl View for Identity {
    type V = Seq<char>;

    closed spec fn view(&self) -> Seq<char> {
        self.key@
    }
}

impl Identity {
    /// The identity known by `key`.
    pub fn new(key: String) -> (id: Identity)
        ensures
            id@ == key@,
    {
        Identity { key }
    }

    /// The canonical key of the identity.
    pub fn key(&self) -> (key: &String)
        ensures
            key@ == self@,
    {
        &self.key
    }
}

impl Clone for Identity {
    fn clone(&self) -> (id: Identity)
        ensures
            id@ == self@,
    {
        Identity { key: self.key.clone() }
    }
}

impl PartialEq for Identity {
    fn eq(&self, other: &Identity) -> (same: bool) {
        self.key == other.key
    }
}

impl Eq for Identity {}

impl vstd::std_specs::cmp::PartialEqSpecImpl for Identity {
    open spec fn obeys_eq_spec() -> bool {
        true
    }

    open spec fn eq_spec(&self, other: &Identity) -> bool {
        self@ == other@
    }
}

/// The principals that are listed in `identities`.
pub open spec fn keys(identities: Seq<Identity>) -> Set<Seq<char>> {
    Set::new(
        |key: Seq<char>|
            exists|i: int| 0 <= i < identities.len() && #[trigger] identities[i]@ == key,
    )
}

/// Whether no principal is listed twice in `identities`.
pub open spec fn distinct(identities: Seq<Identity>) -> bool {
    forall|i: int, j: int|
        0 <= i < j < identities.len() ==> (#[trigger] identities[i])@ != (#[trigger] identities[j])@
}

/// Whether `who` is listed in `identities`.
pub fn listed(identities: &Vec<Identity>, who: &Identity) -> (found: bool)
    ensures
        found == keys(identities@).contains(who@),
{
    let mut i: usize = 0;
    while i < identities.len()
        invariant
            i <= identities.len(),
            forall|j: int| 0 <= j < i ==> identities[j]@ != who@,
        decreases identities.len() - i,
    {
        if identities[i] == *who {
            return true;
        }
        i += 1;
    }
    false
}

/// Whether no principal is listed twice in `identities`.
pub fn all_distinct(identities: &Vec<Identity>) -> (ok: bool)
    ensures
        ok == distinct(identities@),
{
    let mut i: usize = 0;
    while i < identities.len()
        invariant
            i <= identities.len(),
            forall|a: int, b: int|
                0 <= a < b < i ==> (#[trigger] identities[a])@ != (#[trigger] identities[b])@,
        decreases identities.len() - i,
    {
        let mut j: usize = 0;
        while j < i
            invariant
                j <= i < identities.len(),
                forall|a: int| 0 <= a < j ==> (#[trigger] identities[a])@ != identities[i as int]@,
            decreases i - j,
        {
            if identities[j] == identities[i] {
                return false;
            }
            j += 1;
        }
        i += 1;
    }
    true
}

/// What the guard answers for `claimed` when the invocation is attributable
/// to exactly the identities in `signers`.
pub open spec fn authenticated(signers: Set<Seq<char>>, claimed: Seq<char>) -> Result<(), Error> {
    if signers.contains(claimed) {
        Ok(())
    } else {
        Err(Error::Unauthorized)
    }
}

/// The identities to which the current invocation is attributable: those
/// whose signatures over it were checked before the ledger was called.
pub struct Authorization {
    signers: Vec<Identity>,
}

impl View for Authorization {
    type V = Set<Seq<char>>;

    closed spec fn view(&self) -> Set<Seq<char>> {
        keys(self.signers@)
    }
}

impl Authorization {
    /// An invocation that nobody vouches for.
    pub fn none() -> (auth: Authorization)
        ensures
            auth@ == Set::<Seq<char>>::empty(),
    {
        Authorization { signers: Vec::new() }
    }

    /// An invocation attributable to `signer` alone.
    pub fn single(signer: Identity) -> (auth: Authorization)
        ensures
            auth@ == set![signer@],
    {
        let mut signers: Vec<Identity> = Vec::new();
        signers.push(signer);
        assert(keys(signers@) =~= set![signer@]) by {
            assert(signers[0]@ == signer@);
        }
        Authorization { signers }
    }

    /// An invocation attributable to each of `signers`.
    pub fn new(signers: Vec<Identity>) -> (auth: Authorization)
        ensures
            auth@ == keys(signers@),
    {
        Authorization { signers }
    }

    /// Whether the invocation is attributable to `claimed`.
    pub fn covers(&self, claimed: &Identity) -> (found: bool)
        ensures
            found == self@.contains(claimed@),
    {
        listed(&self.signers, claimed)
    }

    /// Succeeds only if the invocation is attributable to `claimed`.
    pub fn authenticate(&self, claimed: &Identity) -> (outcome: Result<(), Error>)
        ensures
            outcome == authenticated(self@, claimed@),
    {
        if self.covers(claimed) {
            Ok(())
        } else {
            Err(Error::Unauthorized)
        }
    }
}

} // verus!
