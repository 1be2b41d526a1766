//! The runtime notions both pallets share: accounts, the origin of a call and
//! the error a dispatched call ends with.
use vstd::prelude::*;

verus! {

/// An account, by its 32 public-key bytes.
pub type AccountId = [u8; 32];

/// A 256-bit hash, by its bytes (the runtime's `Hash`).
pub type Digest = [u8; 32];

/// The default account (all bytes zero), which storage reads of absent
/// entries yield.
pub open spec fn default_account() -> AccountId {
    vstd::array::spec_array_fill_for_copy_type::<u8, 32>(0u8)
}

/// Returns the default account.
pub fn zero_account() -> (r: AccountId)
    ensures
        r == default_account(),
{
    [0u8; 32]
}

/// Whether `who` is the default account.
pub fn is_default_account(who: &AccountId) -> (r: bool)
    ensures
        r == (*who == default_account()),
{
    let zero = zero_account();
    crate::bytes::id_equal(who, &zero)
}

/// Who dispatched a call.
#[derive(Clone, Copy, PartialEq, Eq, Debug)]
pub enum Origin {
    /// The runtime itself.
    Root,
    /// A transaction signed by the given account.
    Signed(AccountId),
    /// An unsigned transaction (the runtime's `RawOrigin::None`).
    Unsigned,
}

/// Why a dispatched call failed.
#[derive(Clone, Copy, PartialEq, Eq, Debug)]
pub enum DispatchError<E> {
    /// The call needed a signed origin and did not get one.
    BadOrigin,
    /// The pallet refused the call.
    Module(E),
}

/// Whether the two origins are the same.
pub fn same_origin(a: &Origin, b: &Origin) -> (r: bool)
    ensures
        r == (*a == *b),
{
    match (a, b) {
        (Origin::Root, Origin::Root) => true,
        (Origin::Signed(x), Origin::Signed(y)) => crate::bytes::id_equal(x, y),
        (Origin::Unsigned, Origin::Unsigned) => true,
        _ => false,
    }
}

/// The signer of a signed origin, or `BadOrigin` for any other.
pub fn ensure_signed<E>(origin: Origin) -> (r: Result<AccountId, DispatchError<E>>)
    ensures
        match origin {
            Origin::Signed(who) => r == Ok::<AccountId, DispatchError<E>>(who),
            _ => r == Err::<AccountId, DispatchError<E>>(DispatchError::BadOrigin),
        },
{
    match origin {
        Origin::Signed(who) => Ok(who),
        _ => Err(DispatchError::BadOrigin),
    }
}

} // verus!
