//! The registry as a mathematical value: its storage items as maps, the
//! invariant that ties them together, and what minting, burning and
//! transferring do to it.
use vstd::prelude::*;
use crate::frame::{AccountId, default_account};
use crate::nft::metadata::{AssetId, MetadataView, asset_id_of};

verus! {

/// An asset as a value: its id and its attributes.
pub type AssetView = (AssetId, MetadataView);

/// Why the registry refused a request.
#[derive(Clone, Copy, PartialEq, Eq, Debug)]
pub enum Error {
    /// An asset with the same attributes (hence the same id) exists.
    AssetAlreadyExists,
    /// The asset has no owner, or the caller is not its owner.
    AssetNotOwnedByAccount,
    /// The receiving account already holds as many assets as one account may.
    AssetForAccountLimitExcited,
    /// As many assets exist as may exist.
    AssetLimitExcited,
}

/// The registry's storage.
pub struct Ledger {
    /// The most assets that may exist at once.
    pub asset_limit: u128,
    /// The most assets that one account may hold.
    pub user_asset_limit: u64,
    /// How many assets exist (minted and not burned).
    pub total: u128,
    /// How many assets were burned (wrapping around).
    pub burned: u128,
    /// How many assets each account holds.
    pub total_by_account: Map<AccountId, u64>,
    /// The assets each account holds, in the order they came to it.
    pub assets_by_account: Map<AccountId, Seq<AssetView>>,
    /// The owner of each existing asset.
    pub account_by_asset: Map<AssetId, AccountId>,
}

/// The value of `who` in a map of counts, 0 where it has none.
pub open spec fn count_in(m: Map<AccountId, u64>, who: AccountId) -> u64 {
    if m.dom().contains(who) {
        m[who]
    } else {
        0
    }
}

/// The value of `who` in a map of asset lists, empty where it has none.
pub open spec fn list_in(m: Map<AccountId, Seq<AssetView>>, who: AccountId) -> Seq<AssetView> {
    if m.dom().contains(who) {
        m[who]
    } else {
        Seq::empty()
    }
}

/// One past the largest `u128`, wrapped: `x + 1` modulo 2^128.
pub open spec fn wrapping_succ(x: u128) -> u128 {
    if x == u128::MAX {
        0
    } else {
        (x + 1) as u128
    }
}

impl Ledger {
    /// An empty registry with the given limits.
    pub open spec fn empty(asset_limit: u128, user_asset_limit: u64) -> Ledger {
        Ledger {
            asset_limit,
            user_asset_limit,
            total: 0,
            burned: 0,
            total_by_account: Map::empty(),
            assets_by_account: Map::empty(),
            account_by_asset: Map::empty(),
        }
    }

    /// How many assets `who` holds (0 where storage has no entry).
    pub open spec fn count_of(self, who: AccountId) -> u64 {
        count_in(self.total_by_account, who)
    }

    /// The assets `who` holds (none where storage has no entry).
    pub open spec fn assets_of(self, who: AccountId) -> Seq<AssetView> {
        list_in(self.assets_by_account, who)
    }

    /// The owner of `id`: the default account where it has none.
    pub open spec fn owner_of(self, id: AssetId) -> AccountId {
        if self.account_by_asset.dom().contains(id) {
            self.account_by_asset[id]
        } else {
            default_account()
        }
    }

    /// The asset `id` exists.
    pub open spec fn is_minted(self, id: AssetId) -> bool {
        self.account_by_asset.dom().contains(id)
    }

    /// `who`'s list holds the asset `id`.
    pub open spec fn holds(self, who: AccountId, id: AssetId) -> bool {
        exists|i: int| 0 <= i < self.assets_of(who).len() && #[trigger] self.assets_of(who)[i].0 == id
    }

    /// Where in `who`'s list the asset `id` stands.
    pub open spec fn position(self, who: AccountId, id: AssetId) -> int {
        choose|i: int| 0 <= i < self.assets_of(who).len() && #[trigger] self.assets_of(who)[i].0 == id
    }

    /// The entry at `i` of `who`'s list is an existing asset owned by `who`,
    /// whose id is the hash of its attributes, and whose attributes are well
    /// formed.
    pub open spec fn entry_ok(self, who: AccountId, i: int) -> bool {
        let a = self.assets_of(who)[i];
        &&& self.account_by_asset.dom().contains(a.0)
        &&& self.account_by_asset[a.0] == who
        &&& a.0 == asset_id_of(a.1)
        &&& a.1.wf()
    }

    /// The storage items agree with one another.
    pub open spec fn wf(self) -> bool {
        &&& self.account_by_asset.dom().finite()
        &&& self.total == self.account_by_asset.dom().len()
        &&& self.total <= self.asset_limit
        &&& forall|who: AccountId| #[trigger] self.count_of(who) == self.assets_of(who).len()
        &&& forall|who: AccountId| #[trigger] self.count_of(who) <= self.user_asset_limit
        &&& forall|who: AccountId, i: int|
            0 <= i < self.assets_of(who).len() ==> #[trigger] self.entry_ok(who, i)
        &&& forall|who: AccountId, i: int, j: int|
            #![trigger self.assets_of(who)[i], self.assets_of(who)[j]]
            0 <= i < j < self.assets_of(who).len() ==> self.assets_of(who)[i].0 != self.assets_of(
                who,
            )[j].0
        &&& forall|id: AssetId| #[trigger]
            self.account_by_asset.dom().contains(id) ==> self.holds(self.account_by_asset[id], id)
    }

    /// The two registries hold the same assets in the same places: the same
    /// total, owners, counts and lists (the count of burned assets aside).
    pub open spec fn same_holdings(self, other: Ledger) -> bool {
        &&& self.total == other.total
        &&& self.account_by_asset == other.account_by_asset
        &&& forall|who: AccountId| #[trigger] self.count_of(who) == other.count_of(who)
        &&& forall|who: AccountId| #[trigger] self.assets_of(who) == other.assets_of(who)
    }

    /// What minting an asset with attributes `m` for `owner` answers.
    pub open spec fn mint_outcome(self, owner: AccountId, m: MetadataView) -> Result<AssetId, Error> {
        let id = asset_id_of(m);
        if self.is_minted(id) {
            Err(Error::AssetAlreadyExists)
        } else if !(self.user_asset_limit > self.count_of(owner)) {
            Err(Error::AssetForAccountLimitExcited)
        } else if !(self.asset_limit > self.total) {
            Err(Error::AssetLimitExcited)
        } else {
            Ok(id)
        }
    }

    /// The registry after a successful mint.
    pub open spec fn after_mint(self, owner: AccountId, m: MetadataView) -> Ledger {
        let id = asset_id_of(m);
        Ledger {
            total: (self.total + 1) as u128,
            total_by_account: self.total_by_account.insert(owner, (self.count_of(owner) + 1) as u64),
            assets_by_account: self.assets_by_account.insert(owner, self.assets_of(owner).push((id, m))),
            account_by_asset: self.account_by_asset.insert(id, owner),
            ..self
        }
    }

    /// What burning `id` answers.
    pub open spec fn burn_outcome(self, id: AssetId) -> Result<(), Error> {
        if self.owner_of(id) == default_account() {
            Err(Error::AssetNotOwnedByAccount)
        } else {
            Ok(())
        }
    }

    /// The registry after a successful burn.
    pub open spec fn after_burn(self, id: AssetId) -> Ledger {
        let owner = self.owner_of(id);
        let list = self.assets_of(owner);
        Ledger {
            total: (self.total - 1) as u128,
            burned: wrapping_succ(self.burned),
            total_by_account: self.total_by_account.insert(owner, (self.count_of(owner) - 1) as u64),
            assets_by_account: self.assets_by_account.insert(owner, list.remove(self.position(owner, id))),
            account_by_asset: self.account_by_asset.remove(id),
            ..self
        }
    }

    /// What transferring `id` to `dest` answers.
    pub open spec fn transfer_outcome(self, dest: AccountId, id: AssetId) -> Result<(), Error> {
        if self.owner_of(id) == default_account() {
            Err(Error::AssetNotOwnedByAccount)
        } else if !(self.user_asset_limit > self.count_of(dest)) {
            Err(Error::AssetForAccountLimitExcited)
        } else {
            Ok(())
        }
    }

    /// The registry after a successful transfer: the asset leaves its
    /// owner's list and goes to the end of `dest`'s.
    pub open spec fn after_transfer(self, dest: AccountId, id: AssetId) -> Ledger {
        let owner = self.owner_of(id);
        let list = self.assets_of(owner);
        let p = self.position(owner, id);
        let counts = self.total_by_account.insert(owner, (self.count_of(owner) - 1) as u64);
        let lists = self.assets_by_account.insert(owner, list.remove(p));
        Ledger {
            total_by_account: counts.insert(dest, (count_in(counts, dest) + 1) as u64),
            assets_by_account: lists.insert(dest, list_in(lists, dest).push(list[p])),
            account_by_asset: self.account_by_asset.insert(id, dest),
            ..self
        }
    }
}

} // verus!
