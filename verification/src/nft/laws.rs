//! What holds of the registry in every state and across calls.
use vstd::prelude::*;
use crate::frame::{AccountId, DispatchError, Origin, default_account};
use crate::nft::pallet::{mint_call_result, owner_call_result, signed_by_owner};
use crate::nft::ledger::{Error, Ledger, wrapping_succ};
use crate::nft::metadata::{AssetId, MetadataView, asset_id_of};
use crate::nft::ledger::AssetView;

verus! {

/// The empty registry is well formed.
pub proof fn lemma_empty_wf(asset_limit: u128, user_asset_limit: u64)
    ensures
        Ledger::empty(asset_limit, user_asset_limit).wf(),
{
    let l = Ledger::empty(asset_limit, user_asset_limit);
    assert(l.account_by_asset.dom() =~= Set::<AssetId>::empty());
}

/// Minting keeps the registry well formed: counts match lists, every listed
/// asset is owned by the account that lists it, ids stay unique and equal to
/// the hash of the attributes, and `total` counts the existing assets.
pub proof fn lemma_mint_preserves_wf(l: Ledger, owner: AccountId, m: MetadataView)
    requires
        l.wf(),
        m.wf(),
        l.mint_outcome(owner, m) is Ok,
    ensures
        l.after_mint(owner, m).wf(),
{
    let n = l.after_mint(owner, m);
    let id = asset_id_of(m);
    let old_list = l.assets_of(owner);
    assert(n.assets_of(owner) == old_list.push((id, m)));
    assert(n.account_by_asset.dom() =~= l.account_by_asset.dom().insert(id));
    assert forall|who: AccountId| #[trigger] n.count_of(who) == n.assets_of(who).len() by {
        assert(l.count_of(who) == l.assets_of(who).len());
    }
    assert forall|who: AccountId| #[trigger] n.count_of(who) <= n.user_asset_limit by {
        assert(l.count_of(who) <= l.user_asset_limit);
    }
    assert forall|who: AccountId, i: int|
        0 <= i < n.assets_of(who).len() implies #[trigger] n.entry_ok(who, i) by {
        if who == owner && i == old_list.len() {
        } else {
            assert(l.entry_ok(who, i));
            assert(n.assets_of(who)[i] == l.assets_of(who)[i]);
        }
    }
    assert forall|who: AccountId, i: int, j: int|
        #![trigger n.assets_of(who)[i], n.assets_of(who)[j]]
        0 <= i < j < n.assets_of(who).len() implies n.assets_of(who)[i].0 != n.assets_of(
            who,
        )[j].0 by {
        assert(l.entry_ok(who, i));
        if who == owner && j == old_list.len() {
        } else {
            assert(n.assets_of(who)[j] == l.assets_of(who)[j]);
            assert(l.assets_of(who)[i].0 != l.assets_of(who)[j].0);
        }
    }
    assert forall|x: AssetId| #[trigger]
        n.account_by_asset.dom().contains(x) implies n.holds(n.account_by_asset[x], x) by {
        if x == id {
            assert(n.assets_of(owner)[old_list.len() as int].0 == id);
        } else {
            let w = l.account_by_asset[x];
            assert(l.holds(w, x));
            let k = choose|k: int| 0 <= k < l.assets_of(w).len() && #[trigger] l.assets_of(w)[k].0 == x;
            assert(n.assets_of(w)[k] == l.assets_of(w)[k]);
        }
    }
}

/// Where the registry is well formed, the asset `id` stands in its owner's
/// list, at `position`.
pub proof fn lemma_owner_holds(l: Ledger, id: AssetId)
    requires
        l.wf(),
        l.is_minted(id),
    ensures
        l.holds(l.owner_of(id), id),
        0 <= l.position(l.owner_of(id), id) < l.assets_of(l.owner_of(id)).len(),
        l.assets_of(l.owner_of(id))[l.position(l.owner_of(id), id)].0 == id,
        l.count_of(l.owner_of(id)) >= 1,
        l.total >= 1,
{
    let w = l.owner_of(id);
    assert(l.holds(w, id));
    assert(l.count_of(w) == l.assets_of(w).len());
    assert(l.account_by_asset.dom().contains(id));
    vstd::set_lib::lemma_set_empty_equivalency_len(l.account_by_asset.dom());
}

/// An asset that exists stands at exactly one place in its owner's list.
pub proof fn lemma_position_unique(l: Ledger, who: AccountId, id: AssetId, k: int)
    requires
        l.wf(),
        0 <= k < l.assets_of(who).len(),
        l.assets_of(who)[k].0 == id,
    ensures
        l.position(who, id) == k,
{
    assert(l.holds(who, id));
    let p = l.position(who, id);
    if p < k {
        assert(l.assets_of(who)[p].0 != l.assets_of(who)[k].0);
    } else if k < p {
        assert(l.assets_of(who)[k].0 != l.assets_of(who)[p].0);
    }
}

/// Burning keeps the registry well formed.
pub proof fn lemma_burn_preserves_wf(l: Ledger, id: AssetId)
    requires
        l.wf(),
        l.burn_outcome(id) is Ok,
    ensures
        l.after_burn(id).wf(),
{
    let n = l.after_burn(id);
    let w = l.owner_of(id);
    assert(l.is_minted(id));
    lemma_owner_holds(l, id);
    let list = l.assets_of(w);
    let p = l.position(w, id);
    assert(n.assets_of(w) == list.remove(p));
    assert(n.account_by_asset.dom() =~= l.account_by_asset.dom().remove(id));
    assert forall|who: AccountId| #[trigger] n.count_of(who) == n.assets_of(who).len() by {
        assert(l.count_of(who) == l.assets_of(who).len());
    }
    assert forall|who: AccountId| #[trigger] n.count_of(who) <= n.user_asset_limit by {
        assert(l.count_of(who) <= l.user_asset_limit);
    }
    assert forall|who: AccountId, i: int|
        0 <= i < n.assets_of(who).len() implies #[trigger] n.entry_ok(who, i) by {
        if who == w {
            let oi = if i < p { i } else { i + 1 };
            assert(n.assets_of(who)[i] == list[oi]);
            assert(l.entry_ok(who, oi));
            if oi < p {
                assert(list[oi].0 != list[p].0);
            } else {
                assert(list[p].0 != list[oi].0);
            }
        } else {
            assert(l.entry_ok(who, i));
            assert(n.assets_of(who)[i] == l.assets_of(who)[i]);
        }
    }
    assert forall|who: AccountId, i: int, j: int|
        #![trigger n.assets_of(who)[i], n.assets_of(who)[j]]
        0 <= i < j < n.assets_of(who).len() implies n.assets_of(who)[i].0 != n.assets_of(
            who,
        )[j].0 by {
        if who == w {
            let oi = if i < p { i } else { i + 1 };
            let oj = if j < p { j } else { j + 1 };
            assert(n.assets_of(who)[i] == list[oi]);
            assert(n.assets_of(who)[j] == list[oj]);
            assert(list[oi].0 != list[oj].0);
        } else {
            assert(l.assets_of(who)[i].0 != l.assets_of(who)[j].0);
        }
    }
    assert forall|x: AssetId| #[trigger]
        n.account_by_asset.dom().contains(x) implies n.holds(n.account_by_asset[x], x) by {
        let v = l.account_by_asset[x];
        assert(l.holds(v, x));
        let k = choose|k: int| 0 <= k < l.assets_of(v).len() && #[trigger] l.assets_of(v)[k].0 == x;
        if v == w {
            assert(k != p);
            if k < p {
                assert(n.assets_of(v)[k].0 == x);
            } else {
                assert(n.assets_of(v)[k - 1].0 == x);
            }
        } else {
            assert(n.assets_of(v)[k].0 == x);
        }
    }
}

/// Transferring keeps the registry well formed.
pub proof fn lemma_transfer_preserves_wf(l: Ledger, dest: AccountId, id: AssetId)
    requires
        l.wf(),
        l.transfer_outcome(dest, id) is Ok,
    ensures
        l.after_transfer(dest, id).wf(),
{
    let n = l.after_transfer(dest, id);
    let w = l.owner_of(id);
    assert(l.is_minted(id));
    lemma_owner_holds(l, id);
    let list = l.assets_of(w);
    let p = l.position(w, id);
    let a = list[p];
    let removed = list.remove(p);
    assert(l.entry_ok(w, p));
    assert(n.account_by_asset.dom() =~= l.account_by_asset.dom());
    // The lists after the transfer, account by account.
    assert(dest != w ==> n.assets_of(w) == removed);
    assert(dest != w ==> n.assets_of(dest) == l.assets_of(dest).push(a));
    assert(dest == w ==> n.assets_of(w) == removed.push(a));
    assert forall|who: AccountId| #[trigger] n.count_of(who) == n.assets_of(who).len() by {
        assert(l.count_of(who) == l.assets_of(who).len());
    }
    assert forall|who: AccountId| #[trigger] n.count_of(who) <= n.user_asset_limit by {
        assert(l.count_of(who) <= l.user_asset_limit);
    }
    // Entries of the new lists, traced back to the old ones.
    assert forall|who: AccountId, i: int|
        0 <= i < n.assets_of(who).len() implies #[trigger] n.entry_ok(who, i) by {
        if who == w && i < removed.len() {
            let oi = if i < p { i } else { i + 1 };
            assert(n.assets_of(who)[i] == list[oi]);
            assert(l.entry_ok(who, oi));
            if oi < p {
                assert(list[oi].0 != list[p].0);
            } else {
                assert(list[p].0 != list[oi].0);
            }
        } else if who == dest && i == n.assets_of(who).len() - 1 {
            assert(n.assets_of(who)[i] == a);
        } else {
            assert(l.entry_ok(who, i));
            assert(n.assets_of(who)[i] == l.assets_of(who)[i]);
            assert(l.assets_of(who)[i].0 != id) by {
                if l.assets_of(who)[i].0 == id {
                    assert(l.account_by_asset[id] == who);
                }
            }
        }
    }
    assert forall|who: AccountId, i: int, j: int|
        #![trigger n.assets_of(who)[i], n.assets_of(who)[j]]
        0 <= i < j < n.assets_of(who).len() implies n.assets_of(who)[i].0 != n.assets_of(
            who,
        )[j].0 by {
        assert(n.entry_ok(who, i));
        assert(n.entry_ok(who, j));
        if who == w && j < removed.len() {
            let oi = if i < p { i } else { i + 1 };
            let oj = if j < p { j } else { j + 1 };
            assert(n.assets_of(who)[i] == list[oi]);
            assert(n.assets_of(who)[j] == list[oj]);
            assert(list[oi].0 != list[oj].0);
        } else if who == dest && j == n.assets_of(who).len() - 1 {
            // The moved asset is the only one in the list with its id.
            if who == w {
                let oi = if i < p { i } else { i + 1 };
                assert(n.assets_of(who)[i] == list[oi]);
                assert(oi != p);
                if oi < p {
                    assert(list[oi].0 != list[p].0);
                } else {
                    assert(list[p].0 != list[oi].0);
                }
            } else {
                assert(n.assets_of(who)[i] == l.assets_of(who)[i]);
                assert(l.entry_ok(who, i));
            }
        } else {
            assert(n.assets_of(who)[i] == l.assets_of(who)[i]);
            assert(n.assets_of(who)[j] == l.assets_of(who)[j]);
            assert(l.assets_of(who)[i].0 != l.assets_of(who)[j].0);
        }
    }
    assert forall|x: AssetId| #[trigger]
        n.account_by_asset.dom().contains(x) implies n.holds(n.account_by_asset[x], x) by {
        if x == id {
            let last = n.assets_of(dest).len() - 1;
            assert(n.assets_of(dest)[last].0 == id);
        } else {
            let v = l.account_by_asset[x];
            assert(l.holds(v, x));
            let k = choose|k: int| 0 <= k < l.assets_of(v).len() && #[trigger] l.assets_of(v)[k].0 == x;
            if v == w {
                assert(k != p);
                if k < p {
                    assert(n.assets_of(v)[k].0 == x);
                } else {
                    assert(n.assets_of(v)[k - 1].0 == x);
                }
            } else {
                assert(n.assets_of(v)[k].0 == x);
            }
        }
    }
}

/// No more assets exist than the limit allows, and no account holds more
/// than an account may.
pub proof fn lemma_limits_hold(l: Ledger, who: AccountId)
    requires
        l.wf(),
    ensures
        l.total <= l.asset_limit,
        l.count_of(who) <= l.user_asset_limit,
        l.count_of(who) == l.assets_of(who).len(),
{
}

/// Assets with equal attributes are the same asset: they have equal ids,
/// hence the same owner and the same place in its list. Put the other way,
/// assets with different ids have different attributes. Every listed id is
/// the hash of the listed attributes.
pub proof fn lemma_equal_attributes_same_asset(l: Ledger, a: AccountId, i: int, b: AccountId, j: int)
    requires
        l.wf(),
        0 <= i < l.assets_of(a).len(),
        0 <= j < l.assets_of(b).len(),
        l.assets_of(a)[i].1 == l.assets_of(b)[j].1,
    ensures
        l.assets_of(a)[i].0 == asset_id_of(l.assets_of(a)[i].1),
        l.assets_of(a)[i].0 == l.assets_of(b)[j].0,
        a == b,
        i == j,
{
    assert(l.entry_ok(a, i));
    assert(l.entry_ok(b, j));
    if i < j {
        assert(l.assets_of(a)[i].0 != l.assets_of(a)[j].0);
    } else if j < i {
        assert(l.assets_of(a)[j].0 != l.assets_of(a)[i].0);
    }
}

/// What a successful mint does: the new asset exists, belongs to `owner`
/// and ends `owner`'s list; `owner` holds one more asset and one more asset
/// exists; nothing else changes.
pub proof fn lemma_mint_effect(l: Ledger, owner: AccountId, m: MetadataView)
    requires
        l.wf(),
        l.mint_outcome(owner, m) is Ok,
    ensures
        ({
            let n = l.after_mint(owner, m);
            let id = asset_id_of(m);
            &&& l.mint_outcome(owner, m) == Ok::<AssetId, Error>(id)
            &&& !l.is_minted(id)
            &&& n.is_minted(id)
            &&& n.owner_of(id) == owner
            &&& n.assets_of(owner) == l.assets_of(owner).push((id, m))
            &&& n.count_of(owner) == l.count_of(owner) + 1
            &&& n.total == l.total + 1
            &&& n.burned == l.burned
            &&& forall|x: AssetId| x != id ==> #[trigger] n.owner_of(x) == l.owner_of(x)
            &&& forall|who: AccountId|
                who != owner ==> #[trigger] n.assets_of(who) == l.assets_of(who) && n.count_of(who)
                    == l.count_of(who)
        }),
{
}

/// Attributes can be minted once: after a successful mint, minting the same
/// attributes again, for any account, is refused as a duplicate.
pub proof fn lemma_mint_same_attributes_twice(
    l: Ledger,
    owner: AccountId,
    other: AccountId,
    m: MetadataView,
)
    requires
        l.wf(),
        l.mint_outcome(owner, m) is Ok,
    ensures
        l.after_mint(owner, m).mint_outcome(other, m) == Err::<AssetId, Error>(
            Error::AssetAlreadyExists,
        ),
{
}

/// What a successful burn does: the asset no longer exists and has no owner,
/// it leaves its owner's list, one asset fewer exists, the burn counter
/// moves on; nothing else changes.
pub proof fn lemma_burn_effect(l: Ledger, id: AssetId)
    requires
        l.wf(),
        l.burn_outcome(id) is Ok,
    ensures
        ({
            let n = l.after_burn(id);
            let w = l.owner_of(id);
            &&& l.is_minted(id)
            &&& !n.is_minted(id)
            &&& n.owner_of(id) == default_account()
            &&& n.count_of(w) == l.count_of(w) - 1
            &&& n.total == l.total - 1
            &&& n.burned == wrapping_succ(l.burned)
            &&& forall|i: int| 0 <= i < n.assets_of(w).len() ==> #[trigger] n.assets_of(w)[i].0 != id
            &&& forall|x: AssetId| x != id ==> #[trigger] n.owner_of(x) == l.owner_of(x)
            &&& forall|who: AccountId|
                who != w ==> #[trigger] n.assets_of(who) == l.assets_of(who) && n.count_of(who)
                    == l.count_of(who)
        }),
{
    lemma_owner_holds(l, id);
    lemma_burn_preserves_wf(l, id);
    let n = l.after_burn(id);
    let w = l.owner_of(id);
    assert forall|i: int| 0 <= i < n.assets_of(w).len() implies #[trigger] n.assets_of(w)[i].0 != id by {
        assert(n.entry_ok(w, i));
    }
}

/// Burning undoes minting: right after a successful mint, burning the new
/// asset succeeds and leaves the registry holding
/// what it held before the mint, with one more burn counted. The default
/// account is left out: an asset minted for it counts as unowned, and cannot
/// be burned.
pub proof fn lemma_burn_undoes_mint(l: Ledger, owner: AccountId, m: MetadataView)
    requires
        l.wf(),
        owner != default_account(),
        m.wf(),
        l.mint_outcome(owner, m) is Ok,
    ensures
        ({
            let n = l.after_mint(owner, m);
            let id = asset_id_of(m);
            &&& n.burn_outcome(id) is Ok
            &&& n.after_burn(id).same_holdings(l)
            &&& n.after_burn(id).burned == wrapping_succ(l.burned)
        }),
{
    let n = l.after_mint(owner, m);
    let id = asset_id_of(m);
    let list = l.assets_of(owner);
    lemma_mint_preserves_wf(l, owner, m);
    assert(n.assets_of(owner)[list.len() as int].0 == id);
    lemma_position_unique(n, owner, id, list.len() as int);
    assert(n.assets_of(owner).remove(list.len() as int) =~= list);
    let b = n.after_burn(id);
    assert(b.account_by_asset =~= l.account_by_asset);
    assert forall|who: AccountId| #[trigger] b.count_of(who) == l.count_of(who) by {}
    assert forall|who: AccountId| #[trigger] b.assets_of(who) == l.assets_of(who) by {}
}

/// What a successful transfer does: the asset now belongs to `dest` and ends
/// `dest`'s list; it leaves its former owner's list; the set of existing
/// assets and their number stay the same, and so do the owners of all other
/// assets.
pub proof fn lemma_transfer_effect(l: Ledger, dest: AccountId, id: AssetId)
    requires
        l.wf(),
        l.transfer_outcome(dest, id) is Ok,
    ensures
        ({
            let n = l.after_transfer(dest, id);
            let w = l.owner_of(id);
            &&& n.owner_of(id) == dest
            &&& n.assets_of(dest).last().0 == id
            &&& n.total == l.total
            &&& n.burned == l.burned
            &&& n.account_by_asset.dom() == l.account_by_asset.dom()
            &&& (dest != w ==> n.count_of(w) == l.count_of(w) - 1 && n.count_of(dest) == l.count_of(
                dest,
            ) + 1)
            &&& (dest == w ==> n.count_of(w) == l.count_of(w))
            &&& (dest != w ==> forall|i: int|
                0 <= i < n.assets_of(w).len() ==> #[trigger] n.assets_of(w)[i].0 != id)
            &&& forall|x: AssetId| x != id ==> #[trigger] n.owner_of(x) == l.owner_of(x)
            &&& forall|who: AccountId|
                who != w && who != dest ==> #[trigger] n.assets_of(who) == l.assets_of(who)
                    && n.count_of(who) == l.count_of(who)
        }),
{
    lemma_owner_holds(l, id);
    lemma_transfer_preserves_wf(l, dest, id);
    let n = l.after_transfer(dest, id);
    let w = l.owner_of(id);
    assert(n.account_by_asset.dom() =~= l.account_by_asset.dom());
    if dest != w {
        assert forall|i: int| 0 <= i < n.assets_of(w).len() implies #[trigger] n.assets_of(w)[i].0
            != id by {
            assert(n.entry_ok(w, i));
        }
    }
}

/// Transferring an asset and transferring it back restores every owner,
/// every count and every list but the owner's, which holds the same assets
/// (the asset went to the end of it, so only the order may differ). The default account is left out: an
/// asset given to it counts as unowned, and no transfer moves it again.
pub proof fn lemma_transfer_back(l: Ledger, dest: AccountId, id: AssetId)
    requires
        l.wf(),
        l.transfer_outcome(dest, id) is Ok,
        dest != default_account(),
    ensures
        ({
            let w = l.owner_of(id);
            let n = l.after_transfer(dest, id);
            let b = n.after_transfer(w, id);
            &&& n.transfer_outcome(w, id) is Ok
            &&& b.account_by_asset == l.account_by_asset
            &&& b.total == l.total
            &&& forall|who: AccountId| #[trigger] b.count_of(who) == l.count_of(who)
            &&& forall|who: AccountId| who != w ==> #[trigger] b.assets_of(who) == l.assets_of(who)
            &&& b.assets_of(w).to_multiset() == l.assets_of(w).to_multiset()
        }),
{
    broadcast use vstd::seq_lib::group_to_multiset_ensures;
    let w = l.owner_of(id);
    lemma_owner_holds(l, id);
    lemma_transfer_preserves_wf(l, dest, id);
    let n = l.after_transfer(dest, id);
    assert(n.owner_of(id) == dest);
    assert(n.count_of(w) < n.user_asset_limit) by {
        assert(l.count_of(w) <= l.user_asset_limit);
        assert(l.count_of(w) >= 1);
    }
    let b = n.after_transfer(w, id);
    assert(b.account_by_asset =~= l.account_by_asset);
    assert forall|who: AccountId| #[trigger] b.count_of(who) == l.count_of(who) by {}
    let lw = l.assets_of(w);
    let p = l.position(w, id);
    let a = lw[p];
    if dest == w {
        // Both transfers move the asset to the end of the same list.
        let q = n.position(w, id);
        let nw = n.assets_of(w);
        assert(nw == lw.remove(p).push(a));
        assert(nw[nw.len() - 1].0 == id);
        lemma_position_unique(n, w, id, nw.len() - 1);
        assert(nw.remove(q) =~= lw.remove(p));
        assert(b.assets_of(w) == lw.remove(p).push(a));
    } else {
        let ld = l.assets_of(dest);
        let nd = n.assets_of(dest);
        assert(nd == ld.push(a));
        assert(nd[ld.len() as int].0 == id);
        lemma_position_unique(n, dest, id, ld.len() as int);
        assert(nd.remove(ld.len() as int) =~= ld);
        assert(b.assets_of(dest) == ld);
        assert(b.assets_of(w) == lw.remove(p).push(a));
    }
    assert(lw.remove(p).push(a).to_multiset() == lw.remove(p).to_multiset().insert(a));
    assert(lw.remove(p).to_multiset() == lw.to_multiset().remove(a));
    assert(lw.to_multiset().contains(a)) by {
        assert(lw.contains(a));
    }
    assert(lw.to_multiset().remove(a).insert(a) =~= lw.to_multiset());
    assert forall|who: AccountId| who != w implies #[trigger] b.assets_of(who) == l.assets_of(who) by {}
}

/// Only the owner of an asset may burn or transfer it: a call signed by any
/// other account, or not signed, is refused whatever the registry would
/// answer the owner.
pub proof fn lemma_only_owner_may_move(l: Ledger, origin: Origin, id: AssetId, inner: Result<(), Error>)
    requires
        !signed_by_owner(l, origin, id),
    ensures
        owner_call_result(l, origin, id, inner) is Err,
        origin is Signed ==> owner_call_result(l, origin, id, inner) == Err::<(), DispatchError<Error>>(
            DispatchError::Module(Error::AssetNotOwnedByAccount),
        ),
{
}

/// The sum of the counts of the accounts in `accts`.
pub open spec fn sum_counts(l: Ledger, accts: Seq<AccountId>) -> int
    decreases accts.len(),
{
    if accts.len() == 0 {
        0
    } else {
        sum_counts(l, accts.drop_last()) + l.count_of(accts.last())
    }
}

/// The existing assets whose owner is in `s`.
pub open spec fn owned_by(l: Ledger, s: Set<AccountId>) -> Set<AssetId> {
    Set::new(
        |id: AssetId| l.account_by_asset.dom().contains(id) && s.contains(l.account_by_asset[id]),
    )
}

/// The assets an account owns are as many as its count says.
proof fn lemma_owned_by_one(l: Ledger, a: AccountId)
    requires
        l.wf(),
    ensures
        owned_by(l, set![a]).finite(),
        owned_by(l, set![a]).len() == l.count_of(a),
{
    let list = l.assets_of(a);
    let ids = list.map_values(|x: AssetView| x.0);
    assert(ids.no_duplicates()) by {
        assert forall|i: int, j: int| 0 <= i < ids.len() && 0 <= j < ids.len() && i != j implies ids[i]
            != ids[j] by {
            if i < j {
                assert(list[i].0 != list[j].0);
            } else {
                assert(list[j].0 != list[i].0);
            }
        }
    }
    ids.unique_seq_to_set();
    assert(ids.to_set() =~= owned_by(l, set![a])) by {
        assert forall|id: AssetId| ids.to_set().contains(id) == owned_by(l, set![a]).contains(id) by {
            if ids.to_set().contains(id) {
                let i = choose|i: int| 0 <= i < ids.len() && ids[i] == id;
                assert(l.entry_ok(a, i));
            }
            if owned_by(l, set![a]).contains(id) {
                assert(l.holds(a, id));
                let i = choose|i: int| 0 <= i < list.len() && #[trigger] list[i].0 == id;
                assert(ids[i] == id);
            }
        }
    }
}

proof fn lemma_sum_counts_owned(l: Ledger, accts: Seq<AccountId>)
    requires
        l.wf(),
        accts.no_duplicates(),
    ensures
        owned_by(l, accts.to_set()).finite(),
        sum_counts(l, accts) == owned_by(l, accts.to_set()).len(),
    decreases accts.len(),
{
    if accts.len() == 0 {
        assert(owned_by(l, accts.to_set()) =~= Set::<AssetId>::empty());
    } else {
        let init = accts.drop_last();
        let a = accts.last();
        assert(init.no_duplicates()) by {
            assert forall|i: int, j: int|
                0 <= i < init.len() && 0 <= j < init.len() && i != j implies init[i] != init[j] by {
                assert(accts[i] != accts[j]);
            }
        }
        lemma_sum_counts_owned(l, init);
        lemma_owned_by_one(l, a);
        let s1 = owned_by(l, init.to_set());
        let s2 = owned_by(l, set![a]);
        assert(!init.contains(a)) by {
            if init.contains(a) {
                let k = choose|k: int| 0 <= k < init.len() && init[k] == a;
                assert(accts[k] == accts[accts.len() - 1]);
            }
        }
        assert(accts.to_set() =~= init.to_set().insert(a)) by {
            assert(accts =~= init.push(a));
        }
        assert(owned_by(l, accts.to_set()) =~= s1 + s2);
        assert(s1.disjoint(s2));
        vstd::set_lib::lemma_set_disjoint_lens(s1, s2);
    }
}

/// The number of existing assets is the sum of the accounts' counts: summed
/// over any list of distinct accounts that holds every owner.
pub proof fn lemma_total_is_sum_of_counts(l: Ledger, accts: Seq<AccountId>)
    requires
        l.wf(),
        accts.no_duplicates(),
        forall|id: AssetId|
            #[trigger] l.account_by_asset.dom().contains(id) ==> accts.contains(
                l.account_by_asset[id],
            ),
    ensures
        sum_counts(l, accts) == l.total,
{
    lemma_sum_counts_owned(l, accts);
    assert(owned_by(l, accts.to_set()) =~= l.account_by_asset.dom());
}

/// A call to the registry, as a value.
pub enum Call {
    Mint(AccountId, MetadataView),
    Burn(AssetId),
    Transfer(AccountId, AssetId),
}

/// The call succeeds on `l`.
pub open spec fn succeeds(l: Ledger, c: Call) -> bool {
    match c {
        Call::Mint(owner, m) => l.mint_outcome(owner, m) is Ok,
        Call::Burn(id) => l.burn_outcome(id) is Ok,
        Call::Transfer(dest, id) => l.transfer_outcome(dest, id) is Ok,
    }
}

/// The registry after the call: changed where it succeeds, as it was where
/// it is refused.
pub open spec fn apply(l: Ledger, c: Call) -> Ledger {
    if !succeeds(l, c) {
        l
    } else {
        match c {
            Call::Mint(owner, m) => l.after_mint(owner, m),
            Call::Burn(id) => l.after_burn(id),
            Call::Transfer(dest, id) => l.after_transfer(dest, id),
        }
    }
}

/// The registry after the calls, one after another.
pub open spec fn run(l: Ledger, calls: Seq<Call>) -> Ledger
    decreases calls.len(),
{
    if calls.len() == 0 {
        l
    } else {
        apply(run(l, calls.drop_last()), calls.last())
    }
}

/// How many of the calls mint successfully.
pub open spec fn successful_mints(l: Ledger, calls: Seq<Call>) -> int
    decreases calls.len(),
{
    if calls.len() == 0 {
        0
    } else {
        successful_mints(l, calls.drop_last()) + if calls.last() is Mint && succeeds(
            run(l, calls.drop_last()),
            calls.last(),
        ) {
            1int
        } else {
            0int
        }
    }
}

/// How many of the calls burn successfully.
pub open spec fn successful_burns(l: Ledger, calls: Seq<Call>) -> int
    decreases calls.len(),
{
    if calls.len() == 0 {
        0
    } else {
        successful_burns(l, calls.drop_last()) + if calls.last() is Burn && succeeds(
            run(l, calls.drop_last()),
            calls.last(),
        ) {
            1int
        } else {
            0int
        }
    }
}

/// Every call that mints asks for well-formed attributes.
pub open spec fn mints_well_formed(calls: Seq<Call>) -> bool {
    forall|i: int| 0 <= i < calls.len() ==> match #[trigger] calls[i] {
        Call::Mint(_, m) => m.wf(),
        _ => true,
    }
}

/// Over any sequence of calls, the registry stays well formed, and the
/// number of existing assets moves by the successful mints minus the
/// successful burns; from an empty registry, it is exactly mints minus burns.
pub proof fn lemma_total_is_mints_minus_burns(l: Ledger, calls: Seq<Call>)
    requires
        l.wf(),
        mints_well_formed(calls),
    ensures
        run(l, calls).wf(),
        run(l, calls).total == l.total + successful_mints(l, calls) - successful_burns(l, calls),
    decreases calls.len(),
{
    if calls.len() > 0 {
        let init = calls.drop_last();
        assert(mints_well_formed(init)) by {
            assert forall|i: int| 0 <= i < init.len() implies match #[trigger] init[i] {
                Call::Mint(_, m) => m.wf(),
                _ => true,
            } by {
                assert(init[i] == calls[i]);
            }
        }
        lemma_total_is_mints_minus_burns(l, init);
        let r = run(l, init);
        let c = calls.last();
        assert(c == calls[calls.len() - 1]);
        if succeeds(r, c) {
            match c {
                Call::Mint(owner, m) => {
                    lemma_mint_preserves_wf(r, owner, m);
                },
                Call::Burn(id) => {
                    lemma_burn_preserves_wf(r, id);
                    lemma_owner_holds(r, id);
                },
                Call::Transfer(dest, id) => {
                    lemma_transfer_preserves_wf(r, dest, id);
                },
            }
        }
    }
}

/// When a mint succeeds, and why it is refused: it succeeds exactly when no
/// asset with the attributes' id exists, the owner holds fewer assets than
/// an account may, and fewer assets exist than may exist (the burned ones do
/// not count); it then answers the attributes' id. A duplicate is refused
/// first, then a full account, then a full registry.
pub proof fn lemma_mint_succeeds_iff(l: Ledger, owner: AccountId, m: MetadataView)
    ensures
        (l.mint_outcome(owner, m) is Ok) <==> (!l.is_minted(asset_id_of(m))
            && l.count_of(owner) < l.user_asset_limit && l.total < l.asset_limit),
        l.mint_outcome(owner, m) is Ok ==> l.mint_outcome(owner, m) == Ok::<AssetId, Error>(
            asset_id_of(m),
        ),
        l.is_minted(asset_id_of(m)) ==> l.mint_outcome(owner, m) == Err::<AssetId, Error>(
            Error::AssetAlreadyExists,
        ),
        !l.is_minted(asset_id_of(m)) && l.count_of(owner) >= l.user_asset_limit ==> l.mint_outcome(
            owner,
            m,
        ) == Err::<AssetId, Error>(Error::AssetForAccountLimitExcited),
        !l.is_minted(asset_id_of(m)) && l.count_of(owner) < l.user_asset_limit && l.total
            >= l.asset_limit ==> l.mint_outcome(owner, m) == Err::<AssetId, Error>(
            Error::AssetLimitExcited,
        ),
{
}

/// Burning makes room: after a successful burn fewer assets exist than the
/// limit allows, whatever number were burned before, so a mint of new
/// attributes for an account with room succeeds.
pub proof fn lemma_burn_frees_room(l: Ledger, id: AssetId, owner: AccountId, m: MetadataView)
    requires
        l.wf(),
        l.burn_outcome(id) is Ok,
    ensures
        l.after_burn(id).total < l.asset_limit,
        !l.after_burn(id).is_minted(asset_id_of(m)) && l.after_burn(id).count_of(owner)
            < l.user_asset_limit ==> l.after_burn(id).mint_outcome(owner, m) == Ok::<AssetId, Error>(
            asset_id_of(m),
        ),
{
    lemma_owner_holds(l, id);
}

/// When a burn succeeds: exactly when the asset has an owner other than the
/// default account.
pub proof fn lemma_burn_succeeds_iff(l: Ledger, id: AssetId)
    ensures
        (l.burn_outcome(id) is Ok) <==> (l.is_minted(id) && l.account_by_asset[id]
            != default_account()),
        !(l.burn_outcome(id) is Ok) ==> l.burn_outcome(id) == Err::<(), Error>(
            Error::AssetNotOwnedByAccount,
        ),
{
}

/// When a transfer succeeds, and why it is refused: it succeeds exactly when
/// the asset has an owner other than the default account and the receiving
/// account holds fewer assets than an account may; how many assets exist
/// plays no part. An unowned asset is refused first, then a full account.
pub proof fn lemma_transfer_succeeds_iff(l: Ledger, dest: AccountId, id: AssetId)
    ensures
        (l.transfer_outcome(dest, id) is Ok) <==> (l.is_minted(id) && l.account_by_asset[id]
            != default_account() && l.count_of(dest) < l.user_asset_limit),
        !(l.is_minted(id) && l.account_by_asset[id] != default_account())
            ==> l.transfer_outcome(dest, id) == Err::<(), Error>(Error::AssetNotOwnedByAccount),
        l.is_minted(id) && l.account_by_asset[id] != default_account() && l.count_of(dest)
            >= l.user_asset_limit ==> l.transfer_outcome(dest, id) == Err::<(), Error>(
            Error::AssetForAccountLimitExcited,
        ),
{
}

/// Burning takes the asset out of its owner's list and keeps the other
/// entries in their order: the list becomes the part before the asset
/// followed by the part after it.
pub proof fn lemma_burn_keeps_order(l: Ledger, id: AssetId)
    requires
        l.wf(),
        l.burn_outcome(id) is Ok,
    ensures
        ({
            let w = l.owner_of(id);
            let list = l.assets_of(w);
            exists|p: int|
                0 <= p < list.len() && list[p].0 == id && l.after_burn(id).assets_of(w) == list.subrange(
                    0,
                    p,
                ) + list.subrange(p + 1, list.len() as int)
        }),
{
    lemma_owner_holds(l, id);
    let w = l.owner_of(id);
    let list = l.assets_of(w);
    let p = l.position(w, id);
    assert(list.remove(p) =~= list.subrange(0, p) + list.subrange(p + 1, list.len() as int));
    assert(l.after_burn(id).assets_of(w) == list.remove(p));
}

/// Transferring to another account takes the asset out of its owner's list,
/// keeping the other entries in their order, and adds the same entry at the
/// end of the receiving account's list.
pub proof fn lemma_transfer_keeps_order(l: Ledger, dest: AccountId, id: AssetId)
    requires
        l.wf(),
        l.transfer_outcome(dest, id) is Ok,
        dest != l.owner_of(id),
    ensures
        ({
            let w = l.owner_of(id);
            let list = l.assets_of(w);
            let n = l.after_transfer(dest, id);
            exists|p: int|
                0 <= p < list.len() && list[p].0 == id && n.assets_of(w) == list.subrange(0, p)
                    + list.subrange(p + 1, list.len() as int) && n.assets_of(dest) == l.assets_of(
                    dest,
                ).push(list[p])
        }),
{
    lemma_owner_holds(l, id);
    let w = l.owner_of(id);
    let list = l.assets_of(w);
    let p = l.position(w, id);
    let n = l.after_transfer(dest, id);
    assert(list.remove(p) =~= list.subrange(0, p) + list.subrange(p + 1, list.len() as int));
    assert(n.assets_of(w) == list.remove(p));
    assert(n.assets_of(dest) == l.assets_of(dest).push(list[p]));
}

/// Only the assets curator mints: a call from any other origin is refused
/// with `BadOrigin`, whatever the registry holds; the curator's call is
/// answered as the registry answers the mint, its refusal passed on as the
/// pallet's error.
pub proof fn lemma_only_curator_mints(
    l: Ledger,
    curator: Origin,
    origin: Origin,
    owner: AccountId,
    m: MetadataView,
)
    ensures
        origin != curator ==> mint_call_result(l, curator, origin, owner, m) == Err::<
            (),
            DispatchError<Error>,
        >(DispatchError::BadOrigin),
        origin == curator ==> (mint_call_result(l, curator, origin, owner, m) is Ok <==> l.mint_outcome(
            owner,
            m,
        ) is Ok),
        origin == curator ==> (forall|e: Error|
            l.mint_outcome(owner, m) == Err::<AssetId, Error>(e) ==> mint_call_result(
                l,
                curator,
                origin,
                owner,
                m,
            ) == Err::<(), DispatchError<Error>>(DispatchError::Module(e))),
{
}

/// The owner's own call to burn or transfer is answered as the registry
/// answers it: success where the registry succeeds, its refusal otherwise.
pub proof fn lemma_owner_call_answered_by_registry(
    l: Ledger,
    who: AccountId,
    id: AssetId,
    inner: Result<(), Error>,
)
    requires
        who == l.owner_of(id),
    ensures
        owner_call_result(l, Origin::Signed(who), id, inner) is Ok <==> inner is Ok,
        forall|e: Error|
            inner == Err::<(), Error>(e) ==> owner_call_result(l, Origin::Signed(who), id, inner)
                == Err::<(), DispatchError<Error>>(DispatchError::Module(e)),
{
}

} // verus!
