use vstd::prelude::*;
use crate::commitment::HashedCoordinates;
use frame_support::traits::ConstU32;
use frame_support::BoundedVec;

verus! {

#[verifier::external_type_specification]
#[verifier::external_body]
pub struct ExConstU32<const N: u32>(ConstU32<N>);

#[verifier::external_type_specification]
#[verifier::external_body]
#[verifier::reject_recursive_types(T)]
#[verifier::reject_recursive_types(S)]
pub struct ExBoundedVec<T, S>(BoundedVec<T, S>);

/// Maximum number of bombs that a player can have placed and not yet detonated.
pub const BOMB_AMOUNT_PER_PLAYER: usize = 3;

/// The commitments of the bombs that a player has placed and not yet detonated.
pub type PendingBombs = BoundedVec<HashedCoordinates, ConstU32<3>>;

/// The commitments that `bombs` holds, in order.
pub uninterp spec fn commitments_of(bombs: PendingBombs) -> Seq<HashedCoordinates>;

/// One of `bombs` has the bytes `digest`.
pub open spec fn holds_digest(bombs: PendingBombs, digest: Seq<u8>) -> bool {
    exists|i: int| 0 <= i < commitments_of(bombs).len() && (#[trigger] commitments_of(bombs)[i])@ == digest
}

/// Two commitments are equal when their bytes are.
pub proof fn lemma_holds_digest(bombs: PendingBombs, hash: HashedCoordinates)
    ensures
        commitments_of(bombs).contains(hash) <==> holds_digest(bombs, hash@),
{
    if holds_digest(bombs, hash@) {
        let i = choose|i: int| 0 <= i < commitments_of(bombs).len() && (#[trigger] commitments_of(bombs)[i])@ == hash@;
        assert(commitments_of(bombs)[i] =~= hash);
    }
}

/// Relies on `BoundedVec`'s `Default`: a vector with no items.
#[verifier::external_body]
pub(crate) fn no_bombs() -> (r: PendingBombs)
    ensures
        commitments_of(r).len() == 0,
{
    BoundedVec::default()
}

/// Relies on `Vec::len`, which `BoundedVec` reaches through `Deref`.
#[verifier::external_body]
pub(crate) fn bomb_count(bombs: &PendingBombs) -> (r: usize)
    ensures
        r == commitments_of(*bombs).len(),
{
    bombs.len()
}

/// Relies on `slice::contains`, which `BoundedVec` reaches through `Deref`: whether an item
/// equals `hash` byte for byte.
#[verifier::external_body]
pub(crate) fn holds_bomb(bombs: &PendingBombs, hash: &HashedCoordinates) -> (r: bool)
    ensures
        r == commitments_of(*bombs).contains(*hash),
{
    bombs.contains(hash)
}

/// Relies on `BoundedVec::try_push`: appends `hash` when fewer items than the bound (three)
/// are held, and otherwise hands it back and leaves the vector as it was.
#[verifier::external_body]
pub(crate) fn try_push_bomb(bombs: &mut PendingBombs, hash: HashedCoordinates) -> (r: Result<
    (),
    HashedCoordinates,
>)
    ensures
        r is Ok <==> commitments_of(*old(bombs)).len() < BOMB_AMOUNT_PER_PLAYER,
        r is Ok ==> commitments_of(*final(bombs)) == commitments_of(*old(bombs)).push(hash),
        r is Err ==> *final(bombs) == *old(bombs),
{
    bombs.try_push(hash)
}

/// Tells if two commitments differ in some byte.
pub fn differs(a: &HashedCoordinates, b: &HashedCoordinates) -> (r: bool)
    ensures
        r == (a@ != b@),
{
    let mut i: usize = 0;
    while i < 32
        invariant
            i <= 32,
            forall|j: int| 0 <= j < i ==> a@[j] == b@[j],
        decreases 32 - i,
    {
        if a[i] != b[i] {
            return true;
        }
        i = i + 1;
    }
    assert(a@ =~= b@);
    false
}

/// Relies on `BoundedVec::retain`, which keeps, in order, the items for which the closure
/// returns true; the closure calls `differs`.
#[verifier::external_body]
pub(crate) fn remove_bomb(bombs: &mut PendingBombs, hash: &HashedCoordinates)
    ensures
        commitments_of(*final(bombs)) == commitments_of(*old(bombs)).filter(
            |h: HashedCoordinates| h@ != hash@,
        ),
{
    bombs.retain(|h| differs(h, hash))
}

} // verus!
