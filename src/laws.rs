use vstd::prelude::*;

use crate::error::Error;
use crate::genome::Kitty;
use crate::pallet::{AccountId, KittyId, PalletView};

verus! {

/// From genesis, a run of successful creations hands out the identifiers
/// 0, 1, 2, … in call order, with no gap and no repeat, and the counter ends
/// at the number of creations.
pub proof fn law_create_ids_sequential(
    views: Seq<PalletView>,
    owners: Seq<AccountId>,
    genomes: Seq<Kitty>,
    ids: Seq<KittyId>,
)
    requires
        views.len() == ids.len() + 1,
        owners.len() == ids.len(),
        genomes.len() == ids.len(),
        views[0].next_kitty_id == 0,
        forall|k: int|
            0 <= k < ids.len() ==> #[trigger] views[k].create_outcome() == Ok::<KittyId, Error>(ids[k])
                && views[k + 1] == views[k].created(owners[k], genomes[k]),
    ensures
        forall|k: int| 0 <= k < ids.len() ==> ids[k] == k,
        forall|j: int, k: int| 0 <= j < k < ids.len() ==> ids[j] != ids[k],
        views[ids.len() as int].next_kitty_id == ids.len(),
    decreases ids.len(),
{
    if ids.len() > 0 {
        let n = ids.len() - 1;
        law_create_ids_sequential(views.drop_last(), owners.drop_last(), genomes.drop_last(), ids.drop_last());
        assert(views.drop_last()[n] == views[n]);
        assert(views[n].create_outcome() == Ok::<KittyId, Error>(ids[n]));
        assert forall|k: int| 0 <= k < ids.len() implies ids[k] == k by {
            if k < n {
                assert(ids.drop_last()[k] == ids[k]);
            }
        }
    }
}

/// Breeding an asset with itself always fails with `SameKittyId`, whether or
/// not the asset exists.
pub proof fn law_breed_same_parent_rejected(v: PalletView, a: KittyId)
    ensures
        v.breed_outcome(a, a) == Err::<KittyId, Error>(Error::SameKittyId),
{
}

/// Breeding with a parent that does not exist fails with `InvalidKittyId`
/// and leaves the identifier counter where it was.
pub proof fn law_breed_missing_parent_rejected(
    pre: PalletView,
    post: PalletView,
    a: KittyId,
    b: KittyId,
    r: Result<KittyId, Error>,
)
    requires
        a != b,
        !pre.kitties.contains_key(a) || !pre.kitties.contains_key(b),
        r == pre.breed_outcome(a, b),
        r is Err ==> post == pre,
    ensures
        r == Err::<KittyId, Error>(Error::InvalidKittyId),
        post.next_kitty_id == pre.next_kitty_id,
{
}

/// A child bred from `a` and `b` by `who` records exactly `(a, b)` as its
/// parents and `who` as its owner, under an identifier that was unused.
pub proof fn law_breed_records_lineage(
    pre: PalletView,
    post: PalletView,
    who: AccountId,
    a: KittyId,
    b: KittyId,
    child: Kitty,
    id: KittyId,
)
    requires
        pre.wf(),
        pre.breed_outcome(a, b) == Ok::<KittyId, Error>(id),
        post == pre.bred(who, a, b, child),
    ensures
        !pre.kitties.contains_key(id),
        post.kitty_parents.contains_key(id) && post.kitty_parents[id] == (a, b),
        post.kitty_owner.contains_key(id) && post.kitty_owner[id] == who,
        post.kitties.contains_key(id) && post.kitties[id] == child,
{
}

/// Only the recorded owner may transfer an asset; after a transfer to `to`,
/// `to` may transfer it again and any other caller is refused as `NotOwner`.
pub proof fn law_transfer_ownership(
    pre: PalletView,
    who: AccountId,
    to: AccountId,
    other: AccountId,
    id: KittyId,
)
    requires
        pre.kitty_owner.contains_key(id),
        other != to,
    ensures
        pre.transfer_outcome(who, id) is Ok <==> pre.kitty_owner[id] == who,
        pre.kitty_owner[id] != who ==> pre.transfer_outcome(who, id) == Err::<(), Error>(Error::NotOwner),
        pre.transfer_outcome(who, id) is Ok ==> {
            let mid = pre.transferred(who, to, id);
            &&& mid.kitty_owner[id] == to
            &&& mid.transfer_outcome(to, id) == Ok::<(), Error>(())
            &&& mid.transfer_outcome(other, id) == Err::<(), Error>(Error::NotOwner)
        },
{
}

/// Listing an asset a second time fails with `AlreadyOnSale`.
pub proof fn law_sale_twice_rejected(pre: PalletView, who: AccountId, id: KittyId)
    requires
        pre.sale_outcome(who, id) is Ok,
    ensures
        pre.listed(who, id).sale_outcome(who, id) == Err::<(), Error>(Error::AlreadyOnSale),
{
}

/// Buying an asset that is not listed fails with `NotOnSale`; buying a listed
/// asset that one already owns fails with `AlreadyOwned`.
pub proof fn law_buy_rejections(
    v: PalletView,
    who: AccountId,
    id: KittyId,
    funds: Map<AccountId, u128>,
)
    ensures
        !v.kitty_on_sale.contains_key(id) ==> v.buy_outcome(who, id, funds) == Err::<(), Error>(
            Error::NotOnSale,
        ),
        v.kitty_on_sale.contains_key(id) && v.kitty_owner.contains_key(id) && v.kitty_owner[id]
            == who ==> v.buy_outcome(who, id, funds) == Err::<(), Error>(Error::AlreadyOwned),
{
}

} // verus!
