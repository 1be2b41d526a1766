//! The registry pallet: its storage, the `UniqueAssets` interface over it,
//! and the three calls that signed transactions make.
use vstd::prelude::*;
use crate::bytes::id_equal;
use crate::frame::{AccountId, DispatchError, Origin, ensure_signed, same_origin,
    is_default_account, zero_account};
use crate::nft::ledger::{AssetView, Error, Ledger, count_in, list_in};
use crate::nft::laws::{lemma_burn_preserves_wf, lemma_empty_wf, lemma_mint_preserves_wf,
    lemma_owner_holds, lemma_position_unique, lemma_transfer_preserves_wf};
use crate::nft::metadata::{AssetId, AssetMetadata, MetadataView, asset_id_of};
use crate::table::Table;

verus! {

/// An asset: its id and its attributes.
pub type Asset = (AssetId, AssetMetadata);

/// A list of assets, as values.
pub open spec fn assets_view(list: Seq<Asset>) -> Seq<AssetView> {
    list.map_values(|a: Asset| (a.0, a.1@))
}

/// The registry's configuration: who may mint, and the limits.
#[derive(Clone, Copy, PartialEq, Eq, Debug)]
pub struct Config {
    /// The dispatch origin that is able to mint new assets. A runtime picks
    /// one origin (the root, or one signing account, as `EnsureRoot` and
    /// `EnsureSignedBy` with one member do); only that origin may mint.
    pub assets_curator: Origin,
    /// The most assets that may exist at once (minted minus burned).
    pub asset_limit: u128,
    /// The most assets that any one account may hold.
    pub user_asset_limit: u64,
}

/// What the registry reports of a successful call.
#[derive(Clone, Copy, PartialEq, Eq, Debug)]
pub enum Event {
    /// The asset was burned.
    Burned(AssetId),
    /// The asset was minted and given to the account.
    Minted(AssetId, AccountId),
    /// The asset now belongs to the account.
    Transferred(AssetId, AccountId),
}

/// `r` with a refusal of the registry turned into a failed dispatch.
pub open spec fn as_dispatch<T>(r: Result<T, Error>) -> Result<T, DispatchError<Error>> {
    match r {
        Ok(v) => Ok(v),
        Err(e) => Err(DispatchError::Module(e)),
    }
}

/// An interface over a set of unique assets: assets with equal attributes
/// have equal ids, and assets with different ids have different attributes.
pub trait UniqueAssets {
    /// The storage, as values.
    spec fn ledger(&self) -> Ledger;

    /// The representation agrees with `ledger`, and `ledger` is well formed.
    spec fn well_formed(&self) -> bool;

    /// A well-formed registry holds a well-formed ledger, so that the laws
    /// over `Ledger::wf` apply to it.
    proof fn lemma_well_formed(&self)
        requires
            self.well_formed(),
        ensures
            self.ledger().wf(),
    ;

    /// The number of assets that exist (minted minus burned).
    fn total(&self) -> (r: u128)
        ensures
            r == self.ledger().total,
    ;

    /// The number of assets burned (may wrap around).
    fn burned(&self) -> (r: u128)
        ensures
            r == self.ledger().burned,
    ;

    /// The number of assets that `account` holds.
    fn total_for_account(&self, account: &AccountId) -> (r: u64)
        requires
            self.well_formed(),
        ensures
            r == self.ledger().count_of(*account),
    ;

    /// The assets that `account` holds, in the order they came to it.
    fn assets_for_account(&self, account: &AccountId) -> (r: Vec<Asset>)
        requires
            self.well_formed(),
        ensures
            assets_view(r@) == self.ledger().assets_of(*account),
    ;

    /// The owner of `asset_id`: the default account where it has none.
    fn owner_of(&self, asset_id: &AssetId) -> (r: AccountId)
        requires
            self.well_formed(),
        ensures
            r == self.ledger().owner_of(*asset_id),
    ;

    /// Creates the asset with attributes `asset_info` for `owner_account`;
    /// its id is the hash of the attributes.
    fn mint(&mut self, owner_account: &AccountId, asset_info: AssetMetadata) -> (r: Result<
        AssetId,
        DispatchError<Error>,
    >)
        requires
            old(self).well_formed(),
            asset_info@.wf(),
        ensures
            final(self).well_formed(),
            r == as_dispatch(old(self).ledger().mint_outcome(*owner_account, asset_info@)),
            r is Ok ==> final(self).ledger() == old(self).ledger().after_mint(
                *owner_account,
                asset_info@,
            ),
            r is Err ==> final(self).ledger() == old(self).ledger(),
    ;

    /// Destroys the asset `asset_id`.
    fn burn(&mut self, asset_id: &AssetId) -> (r: Result<(), DispatchError<Error>>)
        requires
            old(self).well_formed(),
        ensures
            final(self).well_formed(),
            r == as_dispatch(old(self).ledger().burn_outcome(*asset_id)),
            r is Ok ==> final(self).ledger() == old(self).ledger().after_burn(*asset_id),
            r is Err ==> final(self).ledger() == old(self).ledger(),
    ;

    /// Gives the asset `asset_id` to `dest_account`.
    fn transfer(&mut self, dest_account: &AccountId, asset_id: &AssetId) -> (r: Result<
        (),
        DispatchError<Error>,
    >)
        requires
            old(self).well_formed(),
        ensures
            final(self).well_formed(),
            r == as_dispatch(old(self).ledger().transfer_outcome(*dest_account, *asset_id)),
            r is Ok ==> final(self).ledger() == old(self).ledger().after_transfer(
                *dest_account,
                *asset_id,
            ),
            r is Err ==> final(self).ledger() == old(self).ledger(),
    ;
}

/// The registry's storage.
pub struct Registry {
    config: Config,
    total: u128,
    burned: u128,
    total_by_account: Table<u64>,
    assets_by_account: Table<Vec<Asset>>,
    account_by_asset: Table<AccountId>,
}

impl Registry {
    /// The configuration the registry was made with.
    pub closed spec fn configured(&self) -> Config {
        self.config
    }
}

/// The registry pallet: its storage, and the events its calls deposited.
pub struct Pallet {
    registry: Registry,
    events: Vec<Event>,
}

/// The count of `who` in a table of counts, 0 where it has none.
fn count_for(t: &Table<u64>, who: &AccountId) -> (r: u64)
    requires
        t.wf(),
    ensures
        r == count_in(t@, *who),
{
    match t.get(who) {
        Some(c) => *c,
        None => 0,
    }
}

/// Removes and returns the list of `who` (empty where it has none).
fn take_assets(t: &mut Table<Vec<Asset>>, who: &AccountId) -> (r: Vec<Asset>)
    requires
        old(t).wf(),
    ensures
        final(t).wf(),
        final(t)@ == old(t)@.remove(*who),
        old(t)@.dom().contains(*who) ==> r == old(t)@[*who],
        !old(t)@.dom().contains(*who) ==> r@ == Seq::<Asset>::empty(),
{
    match t.remove(who) {
        Some(v) => v,
        None => Vec::new(),
    }
}

/// The position of `id` in a list of assets, found by a search from the front.
fn find_asset(list: &Vec<Asset>, id: &AssetId) -> (r: Option<usize>)
    ensures
        match r {
            Some(i) => i < list@.len() && list@[i as int].0 == *id,
            None => forall|i: int| 0 <= i < list@.len() ==> list@[i].0 != *id,
        },
{
    let mut i: usize = 0;
    while i < list.len()
        invariant
            0 <= i <= list@.len(),
            forall|j: int| 0 <= j < i ==> list@[j].0 != *id,
        decreases list@.len() - i,
    {
        if id_equal(&list[i].0, id) {
            return Some(i);
        }
        i = i + 1;
    }
    None
}

/// Takes the asset `id` out of the list of its owner `owner`, the list of
/// the ledger `l` that the table holds, and gives it back.
fn unlist_asset(
    t: &mut Table<Vec<Asset>>,
    owner: &AccountId,
    id: &AssetId,
    Ghost(l): Ghost<Ledger>,
) -> (a: Asset)
    requires
        old(t).wf(),
        l.wf(),
        l.is_minted(*id),
        l.owner_of(*id) == *owner,
        old(t)@.map_values(|v: Vec<Asset>| assets_view(v@)) == l.assets_by_account,
    ensures
        final(t).wf(),
        final(t)@.map_values(|v: Vec<Asset>| assets_view(v@)) == l.assets_by_account.insert(
            *owner,
            l.assets_of(*owner).remove(l.position(*owner, *id)),
        ),
        (a.0, a.1@) == l.assets_of(*owner)[l.position(*owner, *id)],
{
    proof {
        lemma_owner_holds(l, *id);
    }
    let mut assets = take_assets(t, owner);
    assert(assets_view(assets@) == l.assets_of(*owner));
    let found = find_asset(&assets, id);
    proof {
        if found is None {
            let k = l.position(*owner, *id);
            assert(assets_view(assets@)[k].0 == assets@[k].0);
        }
    }
    let index = found.unwrap();
    proof {
        assert(assets_view(assets@)[index as int].0 == assets@[index as int].0);
        lemma_position_unique(l, *owner, *id, index as int);
    }
    let a = assets.remove(index);
    assert(assets_view(assets@) =~= l.assets_of(*owner).remove(index as int));
    t.insert(*owner, assets);
    proof {
        assert(t@.map_values(|v: Vec<Asset>| assets_view(v@)) =~= l.assets_by_account.insert(
            *owner,
            l.assets_of(*owner).remove(index as int),
        ));
    }
    a
}

/// A copy of a list of assets.
fn copy_assets(list: &Vec<Asset>) -> (r: Vec<Asset>)
    ensures
        assets_view(r@) == assets_view(list@),
{
    let mut out: Vec<Asset> = Vec::new();
    let mut i: usize = 0;
    while i < list.len()
        invariant
            0 <= i <= list@.len(),
            out@.len() == i,
            forall|j: int| 0 <= j < i ==> (#[trigger] out@[j]).0 == list@[j].0 && out@[j].1@ == list@[j].1@,
        decreases list@.len() - i,
    {
        let m = list[i].1.duplicate();
        out.push((list[i].0, m));
        i = i + 1;
    }
    assert(assets_view(out@) =~= assets_view(list@));
    out
}

/// What a call to `mint` answers: `BadOrigin` to any origin but the
/// curator's, and the registry's answer to the curator.
pub open spec fn mint_call_result(
    l: Ledger,
    curator: Origin,
    origin: Origin,
    owner: AccountId,
    m: MetadataView,
) -> Result<(), DispatchError<Error>> {
    if origin != curator {
        Err(DispatchError::BadOrigin)
    } else {
        match l.mint_outcome(owner, m) {
            Ok(_) => Ok(()),
            Err(e) => Err(DispatchError::Module(e)),
        }
    }
}

/// The call is signed by the owner of `id`.
pub open spec fn signed_by_owner(l: Ledger, origin: Origin, id: AssetId) -> bool {
    match origin {
        Origin::Signed(who) => who == l.owner_of(id),
        _ => false,
    }
}

/// What a call that only the owner of `id` may make answers, where the
/// registry answers `inner` to the owner.
pub open spec fn owner_call_result(
    l: Ledger,
    origin: Origin,
    id: AssetId,
    inner: Result<(), Error>,
) -> Result<(), DispatchError<Error>> {
    match origin {
        Origin::Signed(who) => if who != l.owner_of(id) {
            Err(DispatchError::Module(Error::AssetNotOwnedByAccount))
        } else {
            as_dispatch(inner)
        },
        _ => Err(DispatchError::BadOrigin),
    }
}

impl Pallet {
    /// The events deposited so far, oldest first.
    pub closed spec fn deposited(&self) -> Seq<Event> {
        self.events@
    }

    /// The registry's storage, as values.
    pub closed spec fn ledger(&self) -> Ledger {
        self.registry.ledger()
    }

    /// A well-formed pallet holds a well-formed ledger, so that the laws over
    /// `Ledger::wf` apply to it.
    pub proof fn lemma_well_formed(&self)
        requires
            self.well_formed(),
        ensures
            self.ledger().wf(),
    {
        self.registry.lemma_well_formed();
    }

    /// The origin that may mint.
    pub closed spec fn curator(&self) -> Origin {
        self.registry.configured().assets_curator
    }

    /// The storage is well formed.
    pub closed spec fn well_formed(&self) -> bool {
        self.registry.well_formed()
    }

    /// The registry's storage.
    pub fn registry(&self) -> (r: &Registry)
        ensures
            r.ledger() == self.ledger(),
            r.well_formed() == self.well_formed(),
    {
        &self.registry
    }

    /// An empty registry with the given limits.
    pub fn new(config: Config) -> (r: Pallet)
        ensures
            r.well_formed(),
            r.ledger() == Ledger::empty(config.asset_limit, config.user_asset_limit),
            r.deposited() == Seq::<Event>::empty(),
            r.curator() == config.assets_curator,
    {
        let registry = Registry {
            config,
            total: 0,
            burned: 0,
            total_by_account: Table::new(),
            assets_by_account: Table::new(),
            account_by_asset: Table::new(),
        };
        proof {
            lemma_empty_wf(config.asset_limit, config.user_asset_limit);
            assert(registry.ledger().assets_by_account =~= Map::<AccountId, Seq<AssetView>>::empty());
        }
        Pallet { registry, events: Vec::new() }
    }

    /// The events deposited so far, oldest first.
    pub fn events(&self) -> (r: &Vec<Event>)
        ensures
            r@ == self.deposited(),
    {
        &self.events
    }

    /// The configured limits.
    pub fn config(&self) -> (r: Config)
        ensures
            r.asset_limit == self.ledger().asset_limit,
            r.user_asset_limit == self.ledger().user_asset_limit,
            r.assets_curator == self.curator(),
    {
        self.registry.config
    }

    /// Mints an asset with attributes `metadata` for `owner_account`; only
    /// the configured curator origin may call it.
    pub fn mint(&mut self, origin: Origin, owner_account: AccountId, metadata: AssetMetadata) -> (r:
        Result<(), DispatchError<Error>>)
        requires
            old(self).well_formed(),
            metadata@.wf(),
        ensures
            final(self).well_formed(),
            final(self).curator() == old(self).curator(),
            r == mint_call_result(
                old(self).ledger(),
                old(self).curator(),
                origin,
                owner_account,
                metadata@,
            ),
            r is Ok ==> final(self).ledger() == old(self).ledger().after_mint(
                owner_account,
                metadata@,
            ) && final(self).deposited() == old(self).deposited().push(
                Event::Minted(asset_id_of(metadata@), owner_account),
            ),
            r is Err ==> final(self).ledger() == old(self).ledger() && final(self).deposited()
                == old(self).deposited(),
    {
        let curator = self.registry.config.assets_curator;
        if !same_origin(&origin, &curator) {
            return Err(DispatchError::BadOrigin);
        }
        let id = match self.registry.mint(&owner_account, metadata) {
            Ok(id) => id,
            Err(e) => return Err(e),
        };
        self.events.push(Event::Minted(id, owner_account));
        Ok(())
    }

    /// Burns the asset `asset_id`; only its owner may call it.
    pub fn burn(&mut self, origin: Origin, asset_id: AssetId) -> (r: Result<
        (),
        DispatchError<Error>,
    >)
        requires
            old(self).well_formed(),
        ensures
            final(self).well_formed(),
            final(self).curator() == old(self).curator(),
            r == owner_call_result(
                old(self).ledger(),
                origin,
                asset_id,
                old(self).ledger().burn_outcome(asset_id),
            ),
            r is Ok ==> final(self).ledger() == old(self).ledger().after_burn(asset_id)
                && final(self).deposited() == old(self).deposited().push(Event::Burned(asset_id)),
            r is Err ==> final(self).ledger() == old(self).ledger() && final(self).deposited()
                == old(self).deposited(),
    {
        let sender = match ensure_signed::<Error>(origin) {
            Ok(who) => who,
            Err(e) => return Err(e),
        };
        let owner = self.registry.owner_of(&asset_id);
        if !id_equal(&sender, &owner) {
            return Err(DispatchError::Module(Error::AssetNotOwnedByAccount));
        }
        match self.registry.burn(&asset_id) {
            Ok(()) => {},
            Err(e) => return Err(e),
        }
        self.events.push(Event::Burned(asset_id));
        Ok(())
    }

    /// Gives the asset `asset_id` to `dest_account`; only its owner may call
    /// it.
    pub fn transfer(&mut self, origin: Origin, dest_account: AccountId, asset_id: AssetId) -> (r:
        Result<(), DispatchError<Error>>)
        requires
            old(self).well_formed(),
        ensures
            final(self).well_formed(),
            final(self).curator() == old(self).curator(),
            r == owner_call_result(
                old(self).ledger(),
                origin,
                asset_id,
                old(self).ledger().transfer_outcome(dest_account, asset_id),
            ),
            r is Ok ==> final(self).ledger() == old(self).ledger().after_transfer(
                dest_account,
                asset_id,
            ) && final(self).deposited() == old(self).deposited().push(
                Event::Transferred(asset_id, dest_account),
            ),
            r is Err ==> final(self).ledger() == old(self).ledger() && final(self).deposited()
                == old(self).deposited(),
    {
        let sender = match ensure_signed::<Error>(origin) {
            Ok(who) => who,
            Err(e) => return Err(e),
        };
        let owner = self.registry.owner_of(&asset_id);
        if !id_equal(&sender, &owner) {
            return Err(DispatchError::Module(Error::AssetNotOwnedByAccount));
        }
        match self.registry.transfer(&dest_account, &asset_id) {
            Ok(()) => {},
            Err(e) => return Err(e),
        }
        self.events.push(Event::Transferred(asset_id, dest_account));
        Ok(())
    }
}

impl UniqueAssets for Registry {
    closed spec fn ledger(&self) -> Ledger {
        Ledger {
            asset_limit: self.config.asset_limit,
            user_asset_limit: self.config.user_asset_limit,
            total: self.total,
            burned: self.burned,
            total_by_account: self.total_by_account@,
            assets_by_account: self.assets_by_account@.map_values(|v: Vec<Asset>| assets_view(v@)),
            account_by_asset: self.account_by_asset@,
        }
    }

    closed spec fn well_formed(&self) -> bool {
        &&& self.total_by_account.wf()
        &&& self.assets_by_account.wf()
        &&& self.account_by_asset.wf()
        &&& self.ledger().wf()
    }

    proof fn lemma_well_formed(&self) {
    }

    fn total(&self) -> (r: u128) {
        self.total
    }

    fn burned(&self) -> (r: u128) {
        self.burned
    }

    fn total_for_account(&self, account: &AccountId) -> (r: u64) {
        count_for(&self.total_by_account, account)
    }

    fn assets_for_account(&self, account: &AccountId) -> (r: Vec<Asset>) {
        match self.assets_by_account.get(account) {
            Some(list) => copy_assets(list),
            None => Vec::new(),
        }
    }

    fn owner_of(&self, asset_id: &AssetId) -> (r: AccountId) {
        match self.account_by_asset.get(asset_id) {
            Some(who) => *who,
            None => zero_account(),
        }
    }

    fn mint(&mut self, owner_account: &AccountId, asset_info: AssetMetadata) -> (r: Result<
        AssetId,
        DispatchError<Error>,
    >)
        ensures
            final(self).configured() == old(self).configured(),
    {
        let ghost pre = self.ledger();
        let asset_id = asset_info.asset_id();
        if self.account_by_asset.contains_key(&asset_id) {
            return Err(DispatchError::Module(Error::AssetAlreadyExists));
        }
        let owned = count_for(&self.total_by_account, owner_account);
        if !(self.config.user_asset_limit > owned) {
            return Err(DispatchError::Module(Error::AssetForAccountLimitExcited));
        }
        if !(self.config.asset_limit > self.total) {
            return Err(DispatchError::Module(Error::AssetLimitExcited));
        }
        proof {
            lemma_mint_preserves_wf(pre, *owner_account, asset_info@);
        }
        let ghost m = asset_info@;
        self.total = self.total + 1;
        self.total_by_account.insert(*owner_account, owned + 1);
        let mut assets = take_assets(&mut self.assets_by_account, owner_account);
        assets.push((asset_id, asset_info));
        self.assets_by_account.insert(*owner_account, assets);
        self.account_by_asset.insert(asset_id, *owner_account);
        proof {
            let post = pre.after_mint(*owner_account, m);
            assert(assets_view(assets@) =~= pre.assets_of(*owner_account).push((asset_id, m)));
            assert(self.ledger().assets_by_account =~= post.assets_by_account);
            assert(self.ledger().total_by_account =~= post.total_by_account);
            assert(self.ledger().account_by_asset =~= post.account_by_asset);
        }
        Ok(asset_id)
    }

    fn burn(&mut self, asset_id: &AssetId) -> (r: Result<(), DispatchError<Error>>)
        ensures
            final(self).configured() == old(self).configured(),
    {
        let ghost pre = self.ledger();
        let owner = self.owner_of(asset_id);
        if is_default_account(&owner) {
            return Err(DispatchError::Module(Error::AssetNotOwnedByAccount));
        }
        proof {
            lemma_owner_holds(pre, *asset_id);
            lemma_burn_preserves_wf(pre, *asset_id);
        }
        self.total = self.total - 1;
        self.burned = self.burned.wrapping_add(1);
        let owned = count_for(&self.total_by_account, &owner);
        self.total_by_account.insert(owner, owned - 1);
        unlist_asset(&mut self.assets_by_account, &owner, asset_id, Ghost(pre));
        self.account_by_asset.remove(asset_id);
        proof {
            let post = pre.after_burn(*asset_id);
            assert(self.ledger().assets_by_account =~= post.assets_by_account);
            assert(self.ledger().total_by_account =~= post.total_by_account);
            assert(self.ledger().account_by_asset =~= post.account_by_asset);
        }
        Ok(())
    }

    fn transfer(&mut self, dest_account: &AccountId, asset_id: &AssetId) -> (r: Result<
        (),
        DispatchError<Error>,
    >)
        ensures
            final(self).configured() == old(self).configured(),
    {
        let ghost pre = self.ledger();
        let owner = self.owner_of(asset_id);
        if is_default_account(&owner) {
            return Err(DispatchError::Module(Error::AssetNotOwnedByAccount));
        }
        let dest_owned = count_for(&self.total_by_account, dest_account);
        if !(self.config.user_asset_limit > dest_owned) {
            return Err(DispatchError::Module(Error::AssetForAccountLimitExcited));
        }
        proof {
            lemma_owner_holds(pre, *asset_id);
            lemma_transfer_preserves_wf(pre, *dest_account, *asset_id);
        }
        let owned = count_for(&self.total_by_account, &owner);
        self.total_by_account.insert(owner, owned - 1);
        let dest_now = count_for(&self.total_by_account, dest_account);
        self.total_by_account.insert(*dest_account, dest_now + 1);
        let asset = unlist_asset(&mut self.assets_by_account, &owner, asset_id, Ghost(pre));
        let ghost p = pre.position(owner, *asset_id);
        let ghost lists = pre.assets_by_account.insert(owner, pre.assets_of(owner).remove(p));
        let mut dest_assets = take_assets(&mut self.assets_by_account, dest_account);
        proof {
            assert(assets_view(dest_assets@) == list_in(lists, *dest_account));
        }
        dest_assets.push(asset);
        proof {
            assert(assets_view(dest_assets@) =~= list_in(lists, *dest_account).push(
                pre.assets_of(owner)[p],
            ));
        }
        self.assets_by_account.insert(*dest_account, dest_assets);
        self.account_by_asset.insert(*asset_id, *dest_account);
        proof {
            let post = pre.after_transfer(*dest_account, *asset_id);
            assert(self.ledger().assets_by_account =~= post.assets_by_account);
            assert(self.ledger().total_by_account =~= post.total_by_account);
            assert(self.ledger().account_by_asset =~= post.account_by_asset);
        }
        Ok(())
    }
}

} // verus!
