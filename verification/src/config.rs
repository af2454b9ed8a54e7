//! Process-wide immutable configuration: the namespace tags and the
//! collaborator program identities an instantiation is compiled with, injected
//! at construction so the validation logic runs against any identities.

use vstd::prelude::*;

use crate::identity::Identity;

verus! {

/// Configuration of the payment-splitting router.
pub struct RouterConfig {
    /// This program's own identity, under which its balance is derived.
    pub program_id: Identity,
    /// Namespace tag of the router's program-owned balance.
    pub namespace_tag: Vec<u8>,
    /// The token-transfer collaborator's identity.
    pub token_program: Identity,
    /// The ledger's account-allocation program.
    pub system_program: Identity,
}

/// Configuration of the token-swap and cross-chain bridge instantiations.
pub struct StakingBridgeConfig {
    /// This program's own identity, under which its balance is derived.
    pub program_id: Identity,
    /// Namespace tag of the bridge's program-owned balance.
    pub namespace_tag: Vec<u8>,
    /// The token-transfer collaborator's identity.
    pub token_program: Identity,
    /// The ledger's account-allocation program.
    pub system_program: Identity,
    /// The market-maker (swap-engine) collaborator's identity.
    pub swap_program: Identity,
    /// The order-book collaborator's identity.
    pub order_book_program: Identity,
    /// Namespace tag of the pool authority derived under the swap program.
    pub pool_authority_tag: Vec<u8>,
    /// Mint the swap's input must be drawn from.
    pub swap_source_mint: Identity,
    /// Mint the swap's output must land in.
    pub swap_destination_mint: Identity,
    /// The token-bridge collaborator's identity.
    pub token_bridge_program: Identity,
    /// The core-bridge collaborator's identity.
    pub core_bridge_program: Identity,
    /// Namespace tag of the token bridge's configuration account.
    pub config_tag: Vec<u8>,
    /// Namespace tag of the bridge-wrapped mint.
    pub wrapped_mint_tag: Vec<u8>,
    /// Namespace tag of the wrapped mint's metadata account.
    pub wrapped_meta_tag: Vec<u8>,
    /// Namespace tag of the token bridge's transfer authority.
    pub authority_signer_tag: Vec<u8>,
    /// Namespace tag of the core bridge's configuration account.
    pub bridge_config_tag: Vec<u8>,
    /// Namespace tag of the token bridge's message emitter.
    pub emitter_tag: Vec<u8>,
    /// Namespace tag of the emitter's sequence counter.
    pub sequence_tag: Vec<u8>,
    /// Namespace tag of the core bridge's fee collector.
    pub fee_collector_tag: Vec<u8>,
}

} // verus!
