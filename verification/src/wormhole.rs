//! Relationship validation and call construction for the bridge deposit: the
//! two bridge programs, the wrapped-mint token account, nine derived
//! addresses, the recorded authority, the signers, and the ordered pair of
//! collaborator calls — an allowance of exactly the deposit amount, then the
//! post-message call.

use vstd::prelude::*;

use crate::accounts::PostWormholeMessage;
use crate::accounts::PostWormholeMessageData;
use crate::config::StakingBridgeConfig;
use crate::error::ValidationError;
use crate::identity::DerivedAddress;
use crate::identity::derivation_accepts;
use crate::identity::derive_and_verify;
use crate::identity::identity_eq;
use crate::orchestrate::CollaboratorCall;

verus! {

/// The collaborator program handles of a bridge deposit are the configured
/// ones.
pub open spec fn wormhole_programs_ok(
    cfg: StakingBridgeConfig,
    accounts: PostWormholeMessage,
) -> bool {
    accounts.program_id.identity == cfg.token_bridge_program && accounts.bridge_id.identity
        == cfg.core_bridge_program && accounts.spl_token.identity == cfg.token_program
        && accounts.system_program.identity == cfg.system_program
}

/// The deposit source is a token account of the configured token program.
pub open spec fn wormhole_token_account_ok(
    cfg: StakingBridgeConfig,
    accounts: PostWormholeMessage,
) -> bool {
    accounts.from.is_token_account(cfg.token_program)
}

/// The deposit source holds the bridge-wrapped mint.
pub open spec fn wormhole_mint_ok(accounts: PostWormholeMessage) -> bool {
    accounts.from.token.unwrap().mint == accounts.wrapped_mint.identity
}

/// Every derived address of a bridge deposit checks out: the token bridge's
/// configuration, wrapped mint, wrapped metadata, transfer authority and
/// emitter; the core bridge's configuration, sequence counter and fee
/// collector; and the bridge's own balance authority under its namespace tag.
pub open spec fn wormhole_pdas_ok(
    cfg: StakingBridgeConfig,
    accounts: PostWormholeMessage,
    config_bump: u8,
    wrapped_mint_bump: u8,
    wrapped_meta_bump: u8,
    authority_signer_bump: u8,
    bridge_config_bump: u8,
    emitter_bump: u8,
    sequence_bump: u8,
    fee_collector_bump: u8,
    staking_bridge_pda_bump: u8,
) -> bool {
    let token_bridge = cfg.token_bridge_program.bytes@;
    let core_bridge = cfg.core_bridge_program.bytes@;
    &&& derivation_accepts(
        cfg.config_tag@,
        config_bump,
        token_bridge,
        accounts.config.identity.bytes@,
    )
    &&& derivation_accepts(
        cfg.wrapped_mint_tag@,
        wrapped_mint_bump,
        token_bridge,
        accounts.wrapped_mint.identity.bytes@,
    )
    &&& derivation_accepts(
        cfg.wrapped_meta_tag@,
        wrapped_meta_bump,
        token_bridge,
        accounts.wrapped_meta.identity.bytes@,
    )
    &&& derivation_accepts(
        cfg.authority_signer_tag@,
        authority_signer_bump,
        token_bridge,
        accounts.authority_signer.identity.bytes@,
    )
    &&& derivation_accepts(
        cfg.bridge_config_tag@,
        bridge_config_bump,
        core_bridge,
        accounts.bridge_config.identity.bytes@,
    )
    &&& derivation_accepts(
        cfg.emitter_tag@,
        emitter_bump,
        token_bridge,
        accounts.emitter.identity.bytes@,
    )
    &&& derivation_accepts(
        cfg.sequence_tag@,
        sequence_bump,
        core_bridge,
        accounts.sequence.identity.bytes@,
    )
    &&& derivation_accepts(
        cfg.fee_collector_tag@,
        fee_collector_bump,
        core_bridge,
        accounts.fee_collector.identity.bytes@,
    )
    &&& derivation_accepts(
        cfg.namespace_tag@,
        staking_bridge_pda_bump,
        cfg.program_id.bytes@,
        accounts.from_owner.identity.bytes@,
    )
}

/// The deposit source records the verified derived address as its authority.
pub open spec fn wormhole_authority_ok(accounts: PostWormholeMessage) -> bool {
    accounts.from.token.unwrap().authority == accounts.from_owner.identity
}

/// The payer and the fresh message account both signed the call.
pub open spec fn wormhole_signers_ok(accounts: PostWormholeMessage) -> bool {
    accounts.payer.is_signer && accounts.message.is_signer
}

/// The first violated relationship of a bridge deposit, in the fixed check
/// order — owners, mint, derived addresses, recorded authority, signers — or
/// nothing when the context validates.
pub open spec fn wormhole_violation(
    cfg: StakingBridgeConfig,
    accounts: PostWormholeMessage,
    config_bump: u8,
    wrapped_mint_bump: u8,
    wrapped_meta_bump: u8,
    authority_signer_bump: u8,
    bridge_config_bump: u8,
    emitter_bump: u8,
    sequence_bump: u8,
    fee_collector_bump: u8,
    staking_bridge_pda_bump: u8,
) -> Option<ValidationError> {
    if !(wormhole_programs_ok(cfg, accounts) && wormhole_token_account_ok(cfg, accounts)) {
        Some(ValidationError::WrongOwner)
    } else if !wormhole_mint_ok(accounts) {
        Some(ValidationError::MintMismatch)
    } else if !wormhole_pdas_ok(
        cfg,
        accounts,
        config_bump,
        wrapped_mint_bump,
        wrapped_meta_bump,
        authority_signer_bump,
        bridge_config_bump,
        emitter_bump,
        sequence_bump,
        fee_collector_bump,
        staking_bridge_pda_bump,
    ) {
        Some(ValidationError::AddressMismatch)
    } else if !wormhole_authority_ok(accounts) {
        Some(ValidationError::UnauthorizedAuthority)
    } else if !wormhole_signers_ok(accounts) {
        Some(ValidationError::MissingSignature)
    } else {
        None
    }
}

/// Authority enforcement: with every owner, mint and derived-address check
/// passing, a deposit source whose recorded authority is not the verified
/// derived address fails as unauthorized — whatever the call's signer
/// attestations say, since the authority check comes first.
pub proof fn lemma_wormhole_authority_enforced(
    cfg: StakingBridgeConfig,
    accounts: PostWormholeMessage,
    config_bump: u8,
    wrapped_mint_bump: u8,
    wrapped_meta_bump: u8,
    authority_signer_bump: u8,
    bridge_config_bump: u8,
    emitter_bump: u8,
    sequence_bump: u8,
    fee_collector_bump: u8,
    staking_bridge_pda_bump: u8,
)
    requires
        wormhole_programs_ok(cfg, accounts),
        wormhole_token_account_ok(cfg, accounts),
        wormhole_mint_ok(accounts),
        wormhole_pdas_ok(
            cfg,
            accounts,
            config_bump,
            wrapped_mint_bump,
            wrapped_meta_bump,
            authority_signer_bump,
            bridge_config_bump,
            emitter_bump,
            sequence_bump,
            fee_collector_bump,
            staking_bridge_pda_bump,
        ),
        !wormhole_authority_ok(accounts),
    ensures
        wormhole_violation(
            cfg,
            accounts,
            config_bump,
            wrapped_mint_bump,
            wrapped_meta_bump,
            authority_signer_bump,
            bridge_config_bump,
            emitter_bump,
            sequence_bump,
            fee_collector_bump,
            staking_bridge_pda_bump,
        ) == Some(ValidationError::UnauthorizedAuthority),
{
}

/// Checks that the bridge deposit names the configured token-bridge,
/// core-bridge, token and allocator programs.
pub fn check_wormhole_programs(cfg: &StakingBridgeConfig, accounts: &PostWormholeMessage) -> (r:
    Result<(), ValidationError>)
    ensures
        r is Ok <==> wormhole_programs_ok(*cfg, *accounts),
        r is Err ==> r == Err::<(), ValidationError>(ValidationError::WrongOwner),
{
    if !identity_eq(&accounts.program_id.identity, &cfg.token_bridge_program) {
        return Err(ValidationError::WrongOwner);
    }
    if !identity_eq(&accounts.bridge_id.identity, &cfg.core_bridge_program) {
        return Err(ValidationError::WrongOwner);
    }
    if !identity_eq(&accounts.spl_token.identity, &cfg.token_program) {
        return Err(ValidationError::WrongOwner);
    }
    if !identity_eq(&accounts.system_program.identity, &cfg.system_program) {
        return Err(ValidationError::WrongOwner);
    }
    Ok(())
}

/// Checks that the deposit source is a token account of the token program and
/// holds the bridge-wrapped mint, owner before mint.
pub fn check_wormhole_token_accounts(cfg: &StakingBridgeConfig, accounts: &PostWormholeMessage) -> (
    r: Result<(), ValidationError>)
    ensures
        r is Ok <==> wormhole_token_account_ok(*cfg, *accounts) && wormhole_mint_ok(*accounts),
        r == Err::<(), ValidationError>(ValidationError::WrongOwner)
            <==> !wormhole_token_account_ok(*cfg, *accounts),
        r == Err::<(), ValidationError>(ValidationError::MintMismatch)
            <==> wormhole_token_account_ok(*cfg, *accounts) && !wormhole_mint_ok(*accounts),
{
    if !identity_eq(&accounts.from.owner, &cfg.token_program) {
        return Err(ValidationError::WrongOwner);
    }
    let from_token = match accounts.from.token {
        Some(token) => token,
        None => {
            return Err(ValidationError::WrongOwner);
        },
    };
    if !identity_eq(&from_token.mint, &accounts.wrapped_mint.identity) {
        return Err(ValidationError::MintMismatch);
    }
    Ok(())
}

/// Checks the nine derived addresses of a bridge deposit, then that the
/// deposit source records the verified bridge authority.
pub fn check_wormhole_pdas(
    cfg: &StakingBridgeConfig,
    accounts: &PostWormholeMessage,
    config_bump: u8,
    wrapped_mint_bump: u8,
    wrapped_meta_bump: u8,
    authority_signer_bump: u8,
    bridge_config_bump: u8,
    emitter_bump: u8,
    sequence_bump: u8,
    fee_collector_bump: u8,
    staking_bridge_pda_bump: u8,
) -> (r: Result<DerivedAddress, ValidationError>)
    requires
        accounts.from.token is Some,
    ensures
        r is Ok <==> wormhole_pdas_ok(
            *cfg,
            *accounts,
            config_bump,
            wrapped_mint_bump,
            wrapped_meta_bump,
            authority_signer_bump,
            bridge_config_bump,
            emitter_bump,
            sequence_bump,
            fee_collector_bump,
            staking_bridge_pda_bump,
        ) && wormhole_authority_ok(*accounts),
        r == Err::<DerivedAddress, ValidationError>(ValidationError::AddressMismatch)
            <==> !wormhole_pdas_ok(
            *cfg,
            *accounts,
            config_bump,
            wrapped_mint_bump,
            wrapped_meta_bump,
            authority_signer_bump,
            bridge_config_bump,
            emitter_bump,
            sequence_bump,
            fee_collector_bump,
            staking_bridge_pda_bump,
        ),
        r == Err::<DerivedAddress, ValidationError>(ValidationError::UnauthorizedAuthority)
            <==> wormhole_pdas_ok(
            *cfg,
            *accounts,
            config_bump,
            wrapped_mint_bump,
            wrapped_meta_bump,
            authority_signer_bump,
            bridge_config_bump,
            emitter_bump,
            sequence_bump,
            fee_collector_bump,
            staking_bridge_pda_bump,
        ) && !wormhole_authority_ok(*accounts),
        r matches Ok(da) ==> da.identity == accounts.from_owner.identity && da.bump
            == staking_bridge_pda_bump,
{
    match derive_and_verify(
        &cfg.config_tag,
        config_bump,
        &accounts.config.identity,
        &cfg.token_bridge_program,
    ) {
        Ok(_) => {},
        Err(e) => {
            return Err(e);
        },
    }
    match derive_and_verify(
        &cfg.wrapped_mint_tag,
        wrapped_mint_bump,
        &accounts.wrapped_mint.identity,
        &cfg.token_bridge_program,
    ) {
        Ok(_) => {},
        Err(e) => {
            return Err(e);
        },
    }
    match derive_and_verify(
        &cfg.wrapped_meta_tag,
        wrapped_meta_bump,
        &accounts.wrapped_meta.identity,
        &cfg.token_bridge_program,
    ) {
        Ok(_) => {},
        Err(e) => {
            return Err(e);
        },
    }
    match derive_and_verify(
        &cfg.authority_signer_tag,
        authority_signer_bump,
        &accounts.authority_signer.identity,
        &cfg.token_bridge_program,
    ) {
        Ok(_) => {},
        Err(e) => {
            return Err(e);
        },
    }
    match derive_and_verify(
        &cfg.bridge_config_tag,
        bridge_config_bump,
        &accounts.bridge_config.identity,
        &cfg.core_bridge_program,
    ) {
        Ok(_) => {},
        Err(e) => {
            return Err(e);
        },
    }
    match derive_and_verify(
        &cfg.emitter_tag,
        emitter_bump,
        &accounts.emitter.identity,
        &cfg.token_bridge_program,
    ) {
        Ok(_) => {},
        Err(e) => {
            return Err(e);
        },
    }
    match derive_and_verify(
        &cfg.sequence_tag,
        sequence_bump,
        &accounts.sequence.identity,
        &cfg.core_bridge_program,
    ) {
        Ok(_) => {},
        Err(e) => {
            return Err(e);
        },
    }
    match derive_and_verify(
        &cfg.fee_collector_tag,
        fee_collector_bump,
        &accounts.fee_collector.identity,
        &cfg.core_bridge_program,
    ) {
        Ok(_) => {},
        Err(e) => {
            return Err(e);
        },
    }
    let derived = match derive_and_verify(
        &cfg.namespace_tag,
        staking_bridge_pda_bump,
        &accounts.from_owner.identity,
        &cfg.program_id,
    ) {
        Ok(derived) => derived,
        Err(e) => {
            return Err(e);
        },
    };
    let from_token = match accounts.from.token {
        Some(token) => token,
        None => {
            return Err(ValidationError::UnauthorizedAuthority);
        },
    };
    if !identity_eq(&from_token.authority, &accounts.from_owner.identity) {
        return Err(ValidationError::UnauthorizedAuthority);
    }
    Ok(derived)
}

/// Builds the allowance call: the bridge's transfer authority may spend
/// exactly `amount` — never more — from the deposit source, authorized by the
/// verified derived address.
pub fn approve_wormhole_transfer(accounts: &PostWormholeMessage, amount: u64) -> (c:
    CollaboratorCall)
    ensures
        c == (CollaboratorCall::Approve {
            source: accounts.from.identity,
            delegate: accounts.authority_signer.identity,
            authority: accounts.from_owner.identity,
            amount,
        }),
{
    CollaboratorCall::Approve {
        source: accounts.from.identity,
        delegate: accounts.authority_signer.identity,
        authority: accounts.from_owner.identity,
        amount,
    }
}

/// Builds the post-message call carrying the deposit's nonce, amount, fee and
/// cross-chain destination.
pub fn execute_wormhole_transfer(
    accounts: &PostWormholeMessage,
    nonce: u32,
    amount: u64,
    fee: u64,
    target_address: [u8; 32],
    target_chain: u16,
) -> (c: CollaboratorCall)
    ensures
        c == (CollaboratorCall::PostMessage {
            bridge_program: accounts.program_id.identity,
            emitter: accounts.emitter.identity,
            payload: PostWormholeMessageData { nonce, amount, fee, target_address, target_chain },
        }),
{
    CollaboratorCall::PostMessage {
        bridge_program: accounts.program_id.identity,
        emitter: accounts.emitter.identity,
        payload: PostWormholeMessageData { nonce, amount, fee, target_address, target_chain },
    }
}

} // verus!
