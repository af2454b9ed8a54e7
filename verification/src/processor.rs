//! The operation processors: each call validates its whole context first and
//! only then executes, aborting as one unit at the first failing step, with
//! the ledger left exactly as it was on any failure.

use vstd::prelude::*;

use crate::accounts::AccountRef;
use crate::accounts::CreatePaymentRouterBalancePDA;
use crate::accounts::CreateStakingBridgeBalancePda;
use crate::accounts::Route;
use crate::config::RouterConfig;
use crate::config::StakingBridgeConfig;
use crate::error::CollaboratorKind;
use crate::error::ExecutionError;
use crate::error::OperationError;
use crate::error::ValidationError;
use crate::identity::Identity;
use crate::identity::derived_identity;
use crate::identity::find_bump;
use crate::identity::has_canonical;
use crate::identity::identity_eq;
use crate::identity::is_canonical_bump;
use crate::ledger::Ledger;
use crate::ledger::apply_create;
use crate::ledger::copy_accounts;
use crate::orchestrate::execute_transfers;
use crate::orchestrate::route_transfers;
use crate::orchestrate::spec_apply_transfers;
use crate::plan::plan_violation;
use crate::accounts::Amounts;
use crate::accounts::PostWormholeMessage;
use crate::accounts::PostWormholeMessageData;
use crate::accounts::RaydiumSwap;
use crate::orchestrate::CollaboratorCall;
use crate::raydium::check_raydium_pdas;
use crate::raydium::check_raydium_programs;
use crate::raydium::check_raydium_token_accounts;
use crate::raydium::swap;
use crate::raydium::swap_violation;
use crate::router::check_recipient_amounts;
use crate::router::check_sender;
use crate::router::route_violation;
use crate::wormhole::approve_wormhole_transfer;
use crate::wormhole::check_wormhole_pdas;
use crate::wormhole::check_wormhole_programs;
use crate::wormhole::check_wormhole_token_accounts;
use crate::wormhole::execute_wormhole_transfer;
use crate::wormhole::wormhole_violation;

verus! {

/// The first violated check of a whole route call: context relationships
/// first, then the transfer plan.
pub open spec fn route_validation(
    cfg: RouterConfig,
    accounts: Route,
    bump: u8,
    recipient_count: int,
    amounts: Seq<u64>,
    total: u64,
) -> Option<ValidationError> {
    match route_violation(cfg, accounts, bump) {
        Some(e) => Some(e),
        None => plan_violation(amounts, total, recipient_count),
    }
}

/// Routes one fan-out payment: validates the sender context and the plan,
/// then issues one transfer per recipient in plan order against the ledger.
/// All-or-nothing: on any failure — validation or a collaborator call — the
/// ledger is left exactly as it was.
pub fn route(
    ledger: &mut Ledger,
    cfg: &RouterConfig,
    accounts: &Route,
    remaining_accounts: &Vec<AccountRef>,
    payment_router_pda_bump: u8,
    amounts: &Vec<u64>,
    total_amount: u64,
) -> (r: Result<(), OperationError>)
    ensures
        r matches Err(OperationError::Validation(e)) ==> route_validation(
            *cfg,
            *accounts,
            payment_router_pda_bump,
            remaining_accounts@.len() as int,
            amounts@,
            total_amount,
        ) == Some(e),
        route_validation(
            *cfg,
            *accounts,
            payment_router_pda_bump,
            remaining_accounts@.len() as int,
            amounts@,
            total_amount,
        ) matches Some(e) ==> r == Err::<(), OperationError>(OperationError::Validation(e)),
        route_validation(
            *cfg,
            *accounts,
            payment_router_pda_bump,
            remaining_accounts@.len() as int,
            amounts@,
            total_amount,
        ) is None ==> {
            let applied = spec_apply_transfers(
                old(ledger).token_accounts@,
                route_transfers(
                    accounts.sender.identity,
                    accounts.sender_owner.identity,
                    remaining_accounts@,
                    amounts@,
                ),
            );
            &&& (r is Ok <==> applied is Some)
            &&& (applied is None ==> r == Err::<(), OperationError>(
                OperationError::Execution(
                    ExecutionError::CollaboratorFailed(CollaboratorKind::TokenTransfer),
                ),
            ))
        },
        r is Ok ==> Some(final(ledger).token_accounts@) == spec_apply_transfers(
            old(ledger).token_accounts@,
            route_transfers(
                accounts.sender.identity,
                accounts.sender_owner.identity,
                remaining_accounts@,
                amounts@,
            ),
        ) && final(ledger).created@ == old(ledger).created@,
        r is Err ==> final(ledger).token_accounts@ == old(ledger).token_accounts@ && final(ledger).created@ == old(ledger).created@,
{
    match check_sender(cfg, accounts, payment_router_pda_bump) {
        Ok(_) => {},
        Err(e) => {
            return Err(OperationError::Validation(e));
        },
    }
    match check_recipient_amounts(remaining_accounts, amounts, total_amount) {
        Ok(()) => {},
        Err(e) => {
            return Err(OperationError::Validation(e));
        },
    }
    let mut working = copy_accounts(&ledger.token_accounts);
    match execute_transfers(
        &mut working,
        &accounts.sender,
        &accounts.sender_owner,
        remaining_accounts,
        amounts,
    ) {
        Ok(()) => {
            ledger.token_accounts = working;
            Ok(())
        },
        Err(failure) => Err(OperationError::Execution(failure)),
    }
}

/// Shared logic of the two initialization operations: checks the allocator
/// handle and the payer's signature, re-derives the canonical program-owned
/// balance identity and compares it to the supplied account, then asks the
/// allocation collaborator to create it — which fails on a repeat, leaving
/// the ledger unchanged.
fn init_balance_pda(
    ledger: &mut Ledger,
    namespace_tag: &Vec<u8>,
    program_id: &Identity,
    expected_system: &Identity,
    pda: &AccountRef,
    payer: &AccountRef,
    system_program: &AccountRef,
) -> (r: Result<(), OperationError>)
    ensures
        r == Err::<(), OperationError>(OperationError::Validation(ValidationError::WrongOwner))
            <==> system_program.identity != *expected_system,
        system_program.identity == *expected_system ==> (r == Err::<(), OperationError>(
            OperationError::Validation(ValidationError::MissingSignature),
        ) <==> !payer.is_signer),
        system_program.identity == *expected_system && payer.is_signer ==> (r is Ok
            <==> has_canonical(namespace_tag@, program_id.bytes@, pda.identity.bytes@) && !old(ledger).created@.contains(pda.identity)),
        system_program.identity == *expected_system && payer.is_signer && !has_canonical(
            namespace_tag@,
            program_id.bytes@,
            pda.identity.bytes@,
        ) ==> r == Err::<(), OperationError>(
            OperationError::Validation(ValidationError::AddressMismatch),
        ),
        system_program.identity == *expected_system && payer.is_signer && has_canonical(
            namespace_tag@,
            program_id.bytes@,
            pda.identity.bytes@,
        ) && old(ledger).created@.contains(pda.identity) ==> r == Err::<(), OperationError>(
            OperationError::Execution(ExecutionError::AlreadyExists),
        ),
        r is Ok ==> final(ledger).created@ == old(ledger).created@.push(pda.identity) && final(ledger).token_accounts@ == old(ledger).token_accounts@,
        r is Err ==> final(ledger).token_accounts@ == old(ledger).token_accounts@ && final(ledger).created@ == old(ledger).created@,
{
    if !identity_eq(&system_program.identity, expected_system) {
        return Err(OperationError::Validation(ValidationError::WrongOwner));
    }
    if !payer.is_signer {
        return Err(OperationError::Validation(ValidationError::MissingSignature));
    }
    let found = match find_bump(namespace_tag, program_id) {
        Some(found) => found,
        None => {
            proof {
                assert forall|b: u8|
                    !is_canonical_bump(
                        namespace_tag@,
                        program_id.bytes@,
                        pda.identity.bytes@,
                        b,
                    ) by {
                    assert(derived_identity(namespace_tag@, b, program_id.bytes@) is None);
                }
            }
            return Err(OperationError::Validation(ValidationError::AddressMismatch));
        },
    };
    if !identity_eq(&found.identity, &pda.identity) {
        proof {
            assert forall|b: u8|
                !is_canonical_bump(namespace_tag@, program_id.bytes@, pda.identity.bytes@, b) by {
                if is_canonical_bump(namespace_tag@, program_id.bytes@, pda.identity.bytes@, b) {
                    if b > found.bump {
                        assert(derived_identity(namespace_tag@, b, program_id.bytes@) is None);
                    } else if b < found.bump {
                        assert(derived_identity(namespace_tag@, found.bump, program_id.bytes@)
                            is None);
                    } else {
                        assert(derived_identity(namespace_tag@, b, program_id.bytes@) == Some(
                            pda.identity.bytes@,
                        ));
                        assert(derived_identity(namespace_tag@, found.bump, program_id.bytes@)
                            == Some(found.identity.bytes@));
                    }
                    assert(false);
                }
            }
        }
        return Err(OperationError::Validation(ValidationError::AddressMismatch));
    }
    proof {
        assert(is_canonical_bump(
            namespace_tag@,
            program_id.bytes@,
            pda.identity.bytes@,
            found.bump,
        ));
    }
    match apply_create(&mut ledger.created, &pda.identity) {
        Ok(()) => Ok(()),
        Err(failure) => Err(OperationError::Execution(failure)),
    }
}

/// Creates the payment router's program-owned balance account at its canonical
/// derived identity. Idempotent by construction: a repeated call fails with
/// the allocator's already-exists condition and changes nothing.
pub fn create_payment_router_balance_pda(
    ledger: &mut Ledger,
    cfg: &RouterConfig,
    accounts: &CreatePaymentRouterBalancePDA,
) -> (r: Result<(), OperationError>)
    ensures
        r == Err::<(), OperationError>(OperationError::Validation(ValidationError::WrongOwner))
            <==> accounts.system_program.identity != cfg.system_program,
        accounts.system_program.identity == cfg.system_program ==> (r == Err::<(), OperationError>(
            OperationError::Validation(ValidationError::MissingSignature),
        ) <==> !accounts.payer.is_signer),
        accounts.system_program.identity == cfg.system_program && accounts.payer.is_signer ==> (r
            is Ok <==> has_canonical(
            cfg.namespace_tag@,
            cfg.program_id.bytes@,
            accounts.payment_router_pda.identity.bytes@,
        ) && !old(ledger).created@.contains(accounts.payment_router_pda.identity)),
        accounts.system_program.identity == cfg.system_program && accounts.payer.is_signer
            && !has_canonical(
            cfg.namespace_tag@,
            cfg.program_id.bytes@,
            accounts.payment_router_pda.identity.bytes@,
        ) ==> r == Err::<(), OperationError>(
            OperationError::Validation(ValidationError::AddressMismatch),
        ),
        accounts.system_program.identity == cfg.system_program && accounts.payer.is_signer
            && has_canonical(
            cfg.namespace_tag@,
            cfg.program_id.bytes@,
            accounts.payment_router_pda.identity.bytes@,
        ) && old(ledger).created@.contains(accounts.payment_router_pda.identity) ==> r == Err::<
            (),
            OperationError,
        >(OperationError::Execution(ExecutionError::AlreadyExists)),
        r is Ok ==> final(ledger).created@ == old(ledger).created@.push(
            accounts.payment_router_pda.identity,
        ) && final(ledger).token_accounts@ == old(ledger).token_accounts@,
        r is Err ==> final(ledger).token_accounts@ == old(ledger).token_accounts@ && final(ledger).created@ == old(ledger).created@,
{
    init_balance_pda(
        ledger,
        &cfg.namespace_tag,
        &cfg.program_id,
        &cfg.system_program,
        &accounts.payment_router_pda,
        &accounts.payer,
        &accounts.system_program,
    )
}

/// Creates the staking bridge's program-owned balance account at its canonical
/// derived identity. Idempotent by construction: a repeated call fails with
/// the allocator's already-exists condition and changes nothing.
pub fn create_staking_bridge_balance_pda(
    ledger: &mut Ledger,
    cfg: &StakingBridgeConfig,
    accounts: &CreateStakingBridgeBalancePda,
) -> (r: Result<(), OperationError>)
    ensures
        r == Err::<(), OperationError>(OperationError::Validation(ValidationError::WrongOwner))
            <==> accounts.system_program.identity != cfg.system_program,
        accounts.system_program.identity == cfg.system_program ==> (r == Err::<(), OperationError>(
            OperationError::Validation(ValidationError::MissingSignature),
        ) <==> !accounts.payer.is_signer),
        accounts.system_program.identity == cfg.system_program && accounts.payer.is_signer ==> (r
            is Ok <==> has_canonical(
            cfg.namespace_tag@,
            cfg.program_id.bytes@,
            accounts.staking_bridge_pda.identity.bytes@,
        ) && !old(ledger).created@.contains(accounts.staking_bridge_pda.identity)),
        accounts.system_program.identity == cfg.system_program && accounts.payer.is_signer
            && !has_canonical(
            cfg.namespace_tag@,
            cfg.program_id.bytes@,
            accounts.staking_bridge_pda.identity.bytes@,
        ) ==> r == Err::<(), OperationError>(
            OperationError::Validation(ValidationError::AddressMismatch),
        ),
        accounts.system_program.identity == cfg.system_program && accounts.payer.is_signer
            && has_canonical(
            cfg.namespace_tag@,
            cfg.program_id.bytes@,
            accounts.staking_bridge_pda.identity.bytes@,
        ) && old(ledger).created@.contains(accounts.staking_bridge_pda.identity) ==> r == Err::<
            (),
            OperationError,
        >(OperationError::Execution(ExecutionError::AlreadyExists)),
        r is Ok ==> final(ledger).created@ == old(ledger).created@.push(
            accounts.staking_bridge_pda.identity,
        ) && final(ledger).token_accounts@ == old(ledger).token_accounts@,
        r is Err ==> final(ledger).token_accounts@ == old(ledger).token_accounts@ && final(ledger).created@ == old(ledger).created@,
{
    init_balance_pda(
        ledger,
        &cfg.namespace_tag,
        &cfg.program_id,
        &cfg.system_program,
        &accounts.staking_bridge_pda,
        &accounts.payer,
        &accounts.system_program,
    )
}

/// Swaps through the external market-maker engine: verifies that the correct
/// programs, token accounts and derived addresses are being used, then builds
/// the single swap call with the validated parameters. The engine itself is
/// trusted to enforce the minimum output and to fail the whole call when
/// unmet.
pub fn raydium_swap(
    cfg: &StakingBridgeConfig,
    accounts: &RaydiumSwap,
    amount_in: u64,
    minimum_amount_out: u64,
    vault_nonce: u64,
    staking_bridge_pda_bump: u8,
) -> (r: Result<CollaboratorCall, ValidationError>)
    ensures
        r is Ok <==> swap_violation(*cfg, *accounts, vault_nonce, staking_bridge_pda_bump)
            is None,
        r matches Err(e) ==> swap_violation(*cfg, *accounts, vault_nonce, staking_bridge_pda_bump)
            == Some(e),
        r matches Ok(call) ==> call == (CollaboratorCall::Swap {
            swap_program: cfg.swap_program,
            pool: accounts.amm.identity,
            source: accounts.user_source_token_account.identity,
            destination: accounts.user_destination_token_account.identity,
            authority: accounts.user_source_owner.identity,
            amounts: Amounts { amount_in, minimum_amount_out },
        }),
{
    match check_raydium_programs(cfg, accounts) {
        Ok(()) => {},
        Err(e) => {
            return Err(e);
        },
    }
    match check_raydium_token_accounts(cfg, accounts) {
        Ok(()) => {},
        Err(e) => {
            return Err(e);
        },
    }
    match check_raydium_pdas(cfg, accounts, vault_nonce, staking_bridge_pda_bump) {
        Ok(_) => {},
        Err(e) => {
            return Err(e);
        },
    }
    Ok(swap(cfg, accounts, amount_in, minimum_amount_out))
}

/// Deposits into the cross-chain bridge: verifies programs, the wrapped-mint
/// token account, nine derived addresses, the recorded authority and the
/// signers, then builds the two ordered collaborator calls — an allowance of
/// exactly `amount`, then the post-message call. Both are required; neither is
/// built unless every check passed.
pub fn post_wormhole_message(
    cfg: &StakingBridgeConfig,
    accounts: &PostWormholeMessage,
    nonce: u32,
    amount: u64,
    fee: u64,
    target_address: [u8; 32],
    target_chain: u16,
    config_bump: u8,
    wrapped_mint_bump: u8,
    wrapped_meta_bump: u8,
    authority_signer_bump: u8,
    bridge_config_bump: u8,
    emitter_bump: u8,
    sequence_bump: u8,
    fee_collector_bump: u8,
    staking_bridge_pda_bump: u8,
) -> (r: Result<Vec<CollaboratorCall>, ValidationError>)
    ensures
        r is Ok <==> wormhole_violation(
            *cfg,
            *accounts,
            config_bump,
            wrapped_mint_bump,
            wrapped_meta_bump,
            authority_signer_bump,
            bridge_config_bump,
            emitter_bump,
            sequence_bump,
            fee_collector_bump,
            staking_bridge_pda_bump,
        ) is None,
        r matches Err(e) ==> wormhole_violation(
            *cfg,
            *accounts,
            config_bump,
            wrapped_mint_bump,
            wrapped_meta_bump,
            authority_signer_bump,
            bridge_config_bump,
            emitter_bump,
            sequence_bump,
            fee_collector_bump,
            staking_bridge_pda_bump,
        ) == Some(e),
        r matches Ok(calls) ==> calls@.len() == 2 && calls@[0] == (CollaboratorCall::Approve {
            source: accounts.from.identity,
            delegate: accounts.authority_signer.identity,
            authority: accounts.from_owner.identity,
            amount,
        }) && calls@[1] == (CollaboratorCall::PostMessage {
            bridge_program: accounts.program_id.identity,
            emitter: accounts.emitter.identity,
            payload: PostWormholeMessageData { nonce, amount, fee, target_address, target_chain },
        }),
{
    match check_wormhole_programs(cfg, accounts) {
        Ok(()) => {},
        Err(e) => {
            return Err(e);
        },
    }
    match check_wormhole_token_accounts(cfg, accounts) {
        Ok(()) => {},
        Err(e) => {
            return Err(e);
        },
    }
    match check_wormhole_pdas(
        cfg,
        accounts,
        config_bump,
        wrapped_mint_bump,
        wrapped_meta_bump,
        authority_signer_bump,
        bridge_config_bump,
        emitter_bump,
        sequence_bump,
        fee_collector_bump,
        staking_bridge_pda_bump,
    ) {
        Ok(_) => {},
        Err(e) => {
            return Err(e);
        },
    }
    if !accounts.payer.is_signer {
        return Err(ValidationError::MissingSignature);
    }
    if !accounts.message.is_signer {
        return Err(ValidationError::MissingSignature);
    }
    let approve = approve_wormhole_transfer(accounts, amount);
    let post = execute_wormhole_transfer(
        accounts,
        nonce,
        amount,
        fee,
        target_address,
        target_chain,
    );
    let mut calls: Vec<CollaboratorCall> = Vec::new();
    calls.push(approve);
    calls.push(post);
    Ok(calls)
}

} // verus!
