//! The decisions behind every entry point, on plain values.
//!
//! Each function here takes what an entry point has looked up and says
//! whether the call goes through and what is then to be written. Nothing here
//! holds state, so the same decisions serve a registry that lives in memory
//! and a host that keeps the maps elsewhere.

use vstd::prelude::*;
use crate::account::AccountId;
use crate::epr::Permission;
use crate::error::Error;
use crate::event::Balance;

verus! {

/// What giving a token to `to` leads to, where `owner` is the token's
/// owner so far and `balance` the number of tokens that `to` holds: the new
/// balance of `to`, or the reason why the token cannot be given.
pub open spec fn mint_outcome(
    owner: Option<AccountId>,
    to: AccountId,
    balance: u32,
) -> Result<u32, Error> {
    if owner is Some {
        Err(Error::TokenExists)
    } else if to.is_zero() {
        Err(Error::NotAllowed)
    } else if balance == u32::MAX {
        Err(Error::CannotFetchValue)
    } else {
        Ok((balance + 1) as u32)
    }
}

/// Decides whether a token without an owner can be given to `to`.
pub fn check_mint(owner: Option<AccountId>, to: &AccountId, balance: u32) -> (r:
    Result<u32, Error>)
    ensures
        r == mint_outcome(owner, *to, balance),
{
    if owner.is_some() {
        return Err(Error::TokenExists);
    }
    if to.is_zero() {
        return Err(Error::NotAllowed);
    }
    match balance.checked_add(1) {
        Some(count) => Ok(count),
        None => Err(Error::CannotFetchValue),
    }
}

/// Whether `caller` may move a token out of the account `from`: the caller
/// is `from` itself or the spender approved for the token, `from` is the
/// token's owner, and `to` is an account.
pub open spec fn may_transfer(
    caller: AccountId,
    owner: AccountId,
    approved: Option<AccountId>,
    from: AccountId,
    to: AccountId,
) -> bool {
    &&& caller == from || approved == Some(caller)
    &&& owner == from
    &&& !to.is_zero()
}

/// What moving a token from `from` to `to` on behalf of `caller` leads to,
/// where `owner` and `approved` are the token's owner and approved spender so
/// far, and the balances are the numbers of tokens that `from` and `to` hold:
/// the new balances of `from` and of `to`, or the reason why the token
/// cannot be moved.
pub open spec fn transfer_outcome(
    caller: AccountId,
    owner: Option<AccountId>,
    approved: Option<AccountId>,
    from: AccountId,
    to: AccountId,
    from_balance: u32,
    to_balance: u32,
) -> Result<(u32, u32), Error> {
    if owner is None {
        Err(Error::TokenNotFound)
    } else if !may_transfer(caller, owner->0, approved, from, to) {
        Err(Error::NotAllowed)
    } else if from_balance == 0 {
        Err(Error::CannotFetchValue)
    } else if from == to {
        Ok((from_balance, from_balance))
    } else if to_balance == u32::MAX {
        Err(Error::CannotFetchValue)
    } else {
        Ok(((from_balance - 1) as u32, (to_balance + 1) as u32))
    }
}

/// Decides whether `caller` can move a token from `from` to `to`.
pub fn check_transfer(
    caller: &AccountId,
    owner: Option<AccountId>,
    approved: Option<AccountId>,
    from: &AccountId,
    to: &AccountId,
    from_balance: u32,
    to_balance: u32,
) -> (r: Result<(u32, u32), Error>)
    ensures
        r == transfer_outcome(*caller, owner, approved, *from, *to, from_balance, to_balance),
{
    let owner = match owner {
        Some(owner) => owner,
        None => {
            return Err(Error::TokenNotFound);
        },
    };
    let by_approval = match approved {
        Some(spender) => spender == *caller,
        None => false,
    };
    if !(*caller == *from || by_approval) || !(owner == *from) || to.is_zero() {
        return Err(Error::NotAllowed);
    }
    let lowered = match from_balance.checked_sub(1) {
        Some(count) => count,
        None => {
            return Err(Error::CannotFetchValue);
        },
    };
    if *from == *to {
        return Ok((from_balance, from_balance));
    }
    match to_balance.checked_add(1) {
        Some(raised) => Ok((lowered, raised)),
        None => Err(Error::CannotFetchValue),
    }
}

/// Whether `caller` can approve `spender` for a token whose owner and
/// approved spender so far are `owner` and `approved`: the caller owns the
/// token, the spender is an account, and no approval is pending.
pub open spec fn approve_outcome(
    caller: AccountId,
    owner: Option<AccountId>,
    approved: Option<AccountId>,
    spender: AccountId,
) -> Result<(), Error> {
    if owner == Some(caller) && !spender.is_zero() && approved is None {
        Ok(())
    } else {
        Err(Error::NotAllowed)
    }
}

/// Decides whether `caller` can approve `spender` for a token.
pub fn check_approve(
    caller: &AccountId,
    owner: Option<AccountId>,
    approved: Option<AccountId>,
    spender: &AccountId,
) -> (r: Result<(), Error>)
    ensures
        r == approve_outcome(*caller, owner, approved, *spender),
{
    let owns = match owner {
        Some(owner) => owner == *caller,
        None => false,
    };
    if !owns {
        return Err(Error::NotAllowed);
    }
    if spender.is_zero() {
        return Err(Error::NotAllowed);
    }
    if approved.is_some() {
        return Err(Error::NotAllowed);
    }
    Ok(())
}

/// Whether `caller` can attach a locator to a token owned by `owner`: anyone
/// can unless the owner alone may, and then only the owner can.
pub open spec fn set_uri_outcome(
    require_owner: bool,
    caller: AccountId,
    owner: Option<AccountId>,
) -> Result<(), Error> {
    if !require_owner || owner == Some(caller) {
        Ok(())
    } else {
        Err(Error::NotAllowed)
    }
}

/// Decides whether `caller` can attach a locator to a token.
pub fn check_set_uri(require_owner: bool, caller: &AccountId, owner: Option<AccountId>) -> (r:
    Result<(), Error>)
    ensures
        r == set_uri_outcome(require_owner, *caller, owner),
{
    if !require_owner {
        return Ok(());
    }
    match owner {
        Some(owner) => {
            if owner == *caller {
                Ok(())
            } else {
                Err(Error::NotAllowed)
            }
        },
        None => Err(Error::NotAllowed),
    }
}

/// The identifier that follows `current`, or the reason why there is none.
pub open spec fn next_id_outcome(current: u32) -> Result<u32, Error> {
    if current == u32::MAX {
        Err(Error::CannotFetchValue)
    } else {
        Ok((current + 1) as u32)
    }
}

/// Steps an identifier counter by one.
pub fn next_id(current: u32) -> (r: Result<u32, Error>)
    ensures
        r == next_id_outcome(current),
{
    match current.checked_add(1) {
        Some(next) => Ok(next),
        None => Err(Error::CannotFetchValue),
    }
}

/// Whether `caller` may grant or withdraw permissions: anyone may unless an
/// administrator is named, and then only the administrator may.
pub open spec fn grant_outcome(admin: Option<AccountId>, caller: AccountId) -> Result<(), Error> {
    if admin is None || admin == Some(caller) {
        Ok(())
    } else {
        Err(Error::PermissionDenied)
    }
}

/// Decides whether `caller` may grant or withdraw permissions.
pub fn check_grant(admin: Option<AccountId>, caller: &AccountId) -> (r: Result<(), Error>)
    ensures
        r == grant_outcome(admin, *caller),
{
    match admin {
        None => Ok(()),
        Some(admin) => {
            if admin == *caller {
                Ok(())
            } else {
                Err(Error::PermissionDenied)
            }
        },
    }
}

/// Whether the holder of `permission` may read and write records: only one
/// whose permission is kept and grants access may.
pub open spec fn access_outcome(permission: Option<Permission>) -> Result<(), Error> {
    match permission {
        Some(permission) => if permission.can_access {
            Ok(())
        } else {
            Err(Error::PermissionDenied)
        },
        None => Err(Error::PermissionDenied),
    }
}

/// Decides whether the holder of `permission` may read and write records.
pub fn check_access(permission: Option<Permission>) -> (r: Result<(), Error>)
    ensures
        r == access_outcome(permission),
{
    match permission {
        Some(permission) => {
            if permission.can_access {
                Ok(())
            } else {
                Err(Error::PermissionDenied)
            }
        },
        None => Err(Error::PermissionDenied),
    }
}

/// Whether `caller` may set the price of a token owned by `owner`: the
/// owner may, and anyone may while the token has no owner.
pub open spec fn may_set_price(owner: Option<AccountId>, caller: AccountId) -> bool {
    owner is None || owner == Some(caller)
}

/// Decides whether `caller` may set the price of a token.
pub fn check_set_price(owner: Option<AccountId>, caller: &AccountId) -> (allowed: bool)
    ensures
        allowed == may_set_price(owner, *caller),
{
    match owner {
        Some(owner) => owner == *caller,
        None => true,
    }
}

/// What a buyer of a token owes: the price, to the owner. A token without
/// a price or without an owner cannot be bought.
pub open spec fn purchase_outcome(
    price: Option<Balance>,
    owner: Option<AccountId>,
) -> Result<(AccountId, Balance), ()> {
    if price is Some && owner is Some {
        Ok((owner->0, price->0))
    } else {
        Err(())
    }
}

/// Decides whether a token can be bought, and names the account to pay and
/// the amount.
pub fn check_purchase(price: Option<Balance>, owner: Option<AccountId>) -> (r:
    Result<(AccountId, Balance), ()>)
    ensures
        r == purchase_outcome(price, owner),
{
    let price = match price {
        Some(price) => price,
        None => {
            return Err(());
        },
    };
    let owner = match owner {
        Some(owner) => owner,
        None => {
            return Err(());
        },
    };
    Ok((owner, price))
}

} // verus!
