//! Relationship validation for the fan-out payment: the token program handle,
//! the sender token account, the sender's derived-address authority, and the
//! per-recipient plan.

use vstd::prelude::*;

use crate::accounts::AccountRef;
use crate::accounts::Route;
use crate::config::RouterConfig;
use crate::error::ValidationError;
use crate::identity::DerivedAddress;
use crate::identity::derivation_accepts;
use crate::identity::derive_and_verify;
use crate::identity::identity_eq;
use crate::plan::plan_violation;
use crate::plan::validate_plan;

verus! {

/// Every account of the route call that must be owned by a known program is:
/// the token program handle is the configured one, and the sender is a token
/// account of that program.
pub open spec fn route_owners_ok(cfg: RouterConfig, accounts: Route) -> bool {
    accounts.spl_token.identity == cfg.token_program && accounts.sender.is_token_account(
        cfg.token_program,
    )
}

/// The claimed sender authority re-derives from the router's namespace tag
/// and the supplied bump under the router's own program identity.
pub open spec fn route_authority_derived(cfg: RouterConfig, accounts: Route, bump: u8) -> bool {
    derivation_accepts(
        cfg.namespace_tag@,
        bump,
        cfg.program_id.bytes@,
        accounts.sender_owner.identity.bytes@,
    )
}

/// The sender token account's recorded authority is the verified derived
/// address.
pub open spec fn route_authority_ok(accounts: Route) -> bool {
    accounts.sender.token.unwrap().authority == accounts.sender_owner.identity
}

/// The first violated relationship of a route call, or nothing when the
/// context validates.
pub open spec fn route_violation(cfg: RouterConfig, accounts: Route, bump: u8) -> Option<
    ValidationError,
> {
    if !route_owners_ok(cfg, accounts) {
        Some(ValidationError::WrongOwner)
    } else if !route_authority_derived(cfg, accounts, bump) {
        Some(ValidationError::AddressMismatch)
    } else if !route_authority_ok(accounts) {
        Some(ValidationError::UnauthorizedAuthority)
    } else {
        None
    }
}

/// Validates the sender side of a fan-out payment: owning programs first,
/// then the re-derived authority address, then the recorded authority;
/// the first violation wins.
pub fn check_sender(cfg: &RouterConfig, accounts: &Route, payment_router_pda_bump: u8) -> (r:
    Result<DerivedAddress, ValidationError>)
    ensures
        r is Ok <==> route_violation(*cfg, *accounts, payment_router_pda_bump) is None,
        r matches Err(e) ==> route_violation(*cfg, *accounts, payment_router_pda_bump) == Some(e),
        r matches Ok(da) ==> da.identity == accounts.sender_owner.identity && da.bump
            == payment_router_pda_bump,
{
    if !identity_eq(&accounts.spl_token.identity, &cfg.token_program) {
        return Err(ValidationError::WrongOwner);
    }
    if !identity_eq(&accounts.sender.owner, &cfg.token_program) {
        return Err(ValidationError::WrongOwner);
    }
    let token = match accounts.sender.token {
        Some(token) => token,
        None => {
            return Err(ValidationError::WrongOwner);
        },
    };
    let derived = match derive_and_verify(
        &cfg.namespace_tag,
        payment_router_pda_bump,
        &accounts.sender_owner.identity,
        &cfg.program_id,
    ) {
        Ok(derived) => derived,
        Err(e) => {
            return Err(e);
        },
    };
    if !identity_eq(&token.authority, &accounts.sender_owner.identity) {
        return Err(ValidationError::UnauthorizedAuthority);
    }
    Ok(derived)
}

/// Validates the transfer plan against the recipient accounts attached to the
/// call: as many amounts as recipients, no empty plan, and an overflow-checked
/// sum equal to the claimed total.
pub fn check_recipient_amounts(
    remaining_accounts: &Vec<AccountRef>,
    amounts: &Vec<u64>,
    total_amount: u64,
) -> (r: Result<(), ValidationError>)
    ensures
        r is Ok <==> plan_violation(amounts@, total_amount, remaining_accounts@.len() as int)
            is None,
        r matches Err(e) ==> plan_violation(
            amounts@,
            total_amount,
            remaining_accounts@.len() as int,
        ) == Some(e),
{
    validate_plan(amounts, total_amount, remaining_accounts.len())
}

} // verus!
