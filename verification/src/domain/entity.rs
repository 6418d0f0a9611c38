use vstd::prelude::*;

verus! {

/// Something with an identity: a repository keeps one of each identity.
/// Each identity stands for a number, its key, and distinct identities have
/// distinct keys (`lemma_id_key_injective`).
pub trait Entity {
    type Id: Eq + Clone;

    /// The identity of the entity.
    spec fn spec_id(&self) -> Self::Id;

    /// The key that an identity stands for.
    spec fn id_key(id: Self::Id) -> usize;

    /// Distinct identities have distinct keys.
    proof fn lemma_id_key_injective(a: Self::Id, b: Self::Id)
        ensures
            Self::id_key(a) == Self::id_key(b) ==> a == b,
    ;

    fn id(&self) -> (res: &Self::Id)
        ensures
            *res == self.spec_id(),
    ;

    fn key_of(id: &Self::Id) -> (res: usize)
        ensures
            res == Self::id_key(*id),
    ;
}

} // verus!
