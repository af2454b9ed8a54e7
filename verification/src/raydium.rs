//! Relationship validation and call construction for the token swap: the
//! market-maker and order-book programs, the pool token accounts' mints, the
//! derived pool and bridge authorities, and the single swap-engine call.

use vstd::prelude::*;

use crate::accounts::Amounts;
use crate::accounts::RaydiumSwap;
use crate::config::StakingBridgeConfig;
use crate::error::ValidationError;
use crate::identity::DerivedAddress;
use crate::identity::derivation_accepts;
use crate::identity::derive_and_verify;
use crate::identity::identity_eq;
use crate::orchestrate::CollaboratorCall;

verus! {

/// The collaborator program handles of a swap call are the configured ones.
pub open spec fn swap_programs_ok(cfg: StakingBridgeConfig, accounts: RaydiumSwap) -> bool {
    accounts.program_id.identity == cfg.swap_program && accounts.serum_program.identity
        == cfg.order_book_program && accounts.spl_token_program.identity == cfg.token_program
}

/// The source and destination are token accounts of the configured token
/// program.
pub open spec fn swap_token_accounts_ok(cfg: StakingBridgeConfig, accounts: RaydiumSwap) -> bool {
    accounts.user_source_token_account.is_token_account(cfg.token_program)
        && accounts.user_destination_token_account.is_token_account(cfg.token_program)
}

/// The source and destination hold the pool's two configured mints.
pub open spec fn swap_mints_ok(cfg: StakingBridgeConfig, accounts: RaydiumSwap) -> bool {
    accounts.user_source_token_account.token.unwrap().mint == cfg.swap_source_mint
        && accounts.user_destination_token_account.token.unwrap().mint
        == cfg.swap_destination_mint
}

/// Both derived addresses check out: the bridge's own balance authority under
/// its namespace tag and bump, and the pool authority under the swap program
/// and the vault nonce — which, being a bump byte, can never match outside the
/// byte range.
pub open spec fn swap_pdas_ok(
    cfg: StakingBridgeConfig,
    accounts: RaydiumSwap,
    vault_nonce: u64,
    staking_bridge_pda_bump: u8,
) -> bool {
    derivation_accepts(
        cfg.namespace_tag@,
        staking_bridge_pda_bump,
        cfg.program_id.bytes@,
        accounts.user_source_owner.identity.bytes@,
    ) && vault_nonce <= 255 && derivation_accepts(
        cfg.pool_authority_tag@,
        vault_nonce as u8,
        cfg.swap_program.bytes@,
        accounts.amm_authority.identity.bytes@,
    )
}

/// Both pool token accounts record the verified derived address as their
/// authority.
pub open spec fn swap_authorities_ok(accounts: RaydiumSwap) -> bool {
    accounts.user_source_token_account.token.unwrap().authority
        == accounts.user_source_owner.identity
        && accounts.user_destination_token_account.token.unwrap().authority
        == accounts.user_source_owner.identity
}

/// The first violated relationship of a swap call, in the fixed check order —
/// owners, mints, derived addresses, recorded authorities — or nothing when
/// the context validates.
pub open spec fn swap_violation(
    cfg: StakingBridgeConfig,
    accounts: RaydiumSwap,
    vault_nonce: u64,
    staking_bridge_pda_bump: u8,
) -> Option<ValidationError> {
    if !(swap_programs_ok(cfg, accounts) && swap_token_accounts_ok(cfg, accounts)) {
        Some(ValidationError::WrongOwner)
    } else if !swap_mints_ok(cfg, accounts) {
        Some(ValidationError::MintMismatch)
    } else if !swap_pdas_ok(cfg, accounts, vault_nonce, staking_bridge_pda_bump) {
        Some(ValidationError::AddressMismatch)
    } else if !swap_authorities_ok(accounts) {
        Some(ValidationError::UnauthorizedAuthority)
    } else {
        None
    }
}

/// Authority enforcement: with every owner, mint and derived-address check
/// passing, a token account whose recorded authority is not the verified
/// derived address fails as unauthorized — whatever the call's signer
/// attestations say.
pub proof fn lemma_swap_authority_enforced(
    cfg: StakingBridgeConfig,
    accounts: RaydiumSwap,
    vault_nonce: u64,
    staking_bridge_pda_bump: u8,
)
    requires
        swap_programs_ok(cfg, accounts),
        swap_token_accounts_ok(cfg, accounts),
        swap_mints_ok(cfg, accounts),
        swap_pdas_ok(cfg, accounts, vault_nonce, staking_bridge_pda_bump),
        !swap_authorities_ok(accounts),
    ensures
        swap_violation(cfg, accounts, vault_nonce, staking_bridge_pda_bump) == Some(
            ValidationError::UnauthorizedAuthority,
        ),
{
}

/// Checks that the swap call names the configured market-maker, order-book
/// and token programs.
pub fn check_raydium_programs(cfg: &StakingBridgeConfig, accounts: &RaydiumSwap) -> (r: Result<
    (),
    ValidationError,
>)
    ensures
        r is Ok <==> swap_programs_ok(*cfg, *accounts),
        r is Err ==> r == Err::<(), ValidationError>(ValidationError::WrongOwner),
{
    if !identity_eq(&accounts.program_id.identity, &cfg.swap_program) {
        return Err(ValidationError::WrongOwner);
    }
    if !identity_eq(&accounts.serum_program.identity, &cfg.order_book_program) {
        return Err(ValidationError::WrongOwner);
    }
    if !identity_eq(&accounts.spl_token_program.identity, &cfg.token_program) {
        return Err(ValidationError::WrongOwner);
    }
    Ok(())
}

/// Checks that the source and destination are token accounts of the token
/// program and hold the pool's two mints, owners before mints.
pub fn check_raydium_token_accounts(cfg: &StakingBridgeConfig, accounts: &RaydiumSwap) -> (r:
    Result<(), ValidationError>)
    ensures
        r is Ok <==> swap_token_accounts_ok(*cfg, *accounts) && swap_mints_ok(*cfg, *accounts),
        r == Err::<(), ValidationError>(ValidationError::WrongOwner) <==> !swap_token_accounts_ok(
            *cfg,
            *accounts,
        ),
        r == Err::<(), ValidationError>(ValidationError::MintMismatch) <==> swap_token_accounts_ok(
            *cfg,
            *accounts,
        ) && !swap_mints_ok(*cfg, *accounts),
{
    if !identity_eq(&accounts.user_source_token_account.owner, &cfg.token_program) {
        return Err(ValidationError::WrongOwner);
    }
    let source = match accounts.user_source_token_account.token {
        Some(token) => token,
        None => {
            return Err(ValidationError::WrongOwner);
        },
    };
    if !identity_eq(&accounts.user_destination_token_account.owner, &cfg.token_program) {
        return Err(ValidationError::WrongOwner);
    }
    let destination = match accounts.user_destination_token_account.token {
        Some(token) => token,
        None => {
            return Err(ValidationError::WrongOwner);
        },
    };
    if !identity_eq(&source.mint, &cfg.swap_source_mint) {
        return Err(ValidationError::MintMismatch);
    }
    if !identity_eq(&destination.mint, &cfg.swap_destination_mint) {
        return Err(ValidationError::MintMismatch);
    }
    Ok(())
}

/// Checks the two derived addresses of a swap call — the bridge balance
/// authority and the pool authority — then that both pool token accounts
/// record the verified authority.
pub fn check_raydium_pdas(
    cfg: &StakingBridgeConfig,
    accounts: &RaydiumSwap,
    vault_nonce: u64,
    staking_bridge_pda_bump: u8,
) -> (r: Result<DerivedAddress, ValidationError>)
    requires
        accounts.user_source_token_account.token is Some,
        accounts.user_destination_token_account.token is Some,
    ensures
        r is Ok <==> swap_pdas_ok(*cfg, *accounts, vault_nonce, staking_bridge_pda_bump)
            && swap_authorities_ok(*accounts),
        r == Err::<DerivedAddress, ValidationError>(ValidationError::AddressMismatch)
            <==> !swap_pdas_ok(*cfg, *accounts, vault_nonce, staking_bridge_pda_bump),
        r == Err::<DerivedAddress, ValidationError>(ValidationError::UnauthorizedAuthority)
            <==> swap_pdas_ok(*cfg, *accounts, vault_nonce, staking_bridge_pda_bump)
            && !swap_authorities_ok(*accounts),
        r matches Ok(da) ==> da.identity == accounts.user_source_owner.identity && da.bump
            == staking_bridge_pda_bump,
{
    let derived = match derive_and_verify(
        &cfg.namespace_tag,
        staking_bridge_pda_bump,
        &accounts.user_source_owner.identity,
        &cfg.program_id,
    ) {
        Ok(derived) => derived,
        Err(e) => {
            return Err(e);
        },
    };
    if vault_nonce > 255 {
        return Err(ValidationError::AddressMismatch);
    }
    match derive_and_verify(
        &cfg.pool_authority_tag,
        vault_nonce as u8,
        &accounts.amm_authority.identity,
        &cfg.swap_program,
    ) {
        Ok(_) => {},
        Err(e) => {
            return Err(e);
        },
    }
    let source = match accounts.user_source_token_account.token {
        Some(token) => token,
        None => {
            return Err(ValidationError::UnauthorizedAuthority);
        },
    };
    let destination = match accounts.user_destination_token_account.token {
        Some(token) => token,
        None => {
            return Err(ValidationError::UnauthorizedAuthority);
        },
    };
    if !identity_eq(&source.authority, &accounts.user_source_owner.identity) {
        return Err(ValidationError::UnauthorizedAuthority);
    }
    if !identity_eq(&destination.authority, &accounts.user_source_owner.identity) {
        return Err(ValidationError::UnauthorizedAuthority);
    }
    Ok(derived)
}

/// Builds the single swap-engine call with the validated pool accounts, the
/// input amount and the least acceptable output, authorized by the verified
/// derived address.
pub fn swap(
    cfg: &StakingBridgeConfig,
    accounts: &RaydiumSwap,
    amount_in: u64,
    minimum_amount_out: u64,
) -> (c: CollaboratorCall)
    ensures
        c == (CollaboratorCall::Swap {
            swap_program: cfg.swap_program,
            pool: accounts.amm.identity,
            source: accounts.user_source_token_account.identity,
            destination: accounts.user_destination_token_account.identity,
            authority: accounts.user_source_owner.identity,
            amounts: Amounts { amount_in, minimum_amount_out },
        }),
{
    CollaboratorCall::Swap {
        swap_program: cfg.swap_program,
        pool: accounts.amm.identity,
        source: accounts.user_source_token_account.identity,
        destination: accounts.user_destination_token_account.identity,
        authority: accounts.user_source_owner.identity,
        amounts: Amounts { amount_in, minimum_amount_out },
    }
}

} // verus!
