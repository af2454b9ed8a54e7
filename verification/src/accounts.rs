//! Caller-supplied account handles and the fixed account lists each operation
//! requires. An account reference carries an identity, an owning-program
//! identity, a signer attestation, and — for token accounts — a mint, a
//! recorded authority and a balance. The core validates these; it never
//! creates, destroys or mutates them directly.

use vstd::prelude::*;

use crate::identity::Identity;

verus! {

/// The token-specific fields of an account reference.
#[derive(Clone, Copy, Debug, PartialEq, Eq)]
pub struct TokenInfo {
    /// The mint whose units the account holds.
    pub mint: Identity,
    /// The identity recorded as allowed to move the balance.
    pub authority: Identity,
    /// The balance at the time the call was delivered.
    pub balance: u64,
}

/// An opaque handle to one ledger account, as delivered with the call.
#[derive(Clone, Copy, Debug, PartialEq, Eq)]
pub struct AccountRef {
    /// The account's own identity.
    pub identity: Identity,
    /// The identity of the program that owns the account.
    pub owner: Identity,
    /// Whether the ledger attests this account signed the call.
    pub is_signer: bool,
    /// Token fields, present exactly when this is a token account.
    pub token: Option<TokenInfo>,
}

impl AccountRef {
    /// A token account owned by the given token program.
    pub open spec fn is_token_account(self, token_program: Identity) -> bool {
        self.owner == token_program && self.token is Some
    }
}

/// Accounts required to create the payment router's program-owned balance.
pub struct CreatePaymentRouterBalancePDA {
    /// The program-owned balance account to be created.
    pub payment_router_pda: AccountRef,
    /// The account funding the creation; must sign.
    pub payer: AccountRef,
    /// The ledger's account-allocation program.
    pub system_program: AccountRef,
}

/// Accounts required to route a fan-out payment.
pub struct Route {
    /// The token account the payment leaves from.
    pub sender: AccountRef,
    /// The claimed derived-address authority over the sender account.
    pub sender_owner: AccountRef,
    /// The token-transfer program.
    pub spl_token: AccountRef,
}

/// Accounts required to create the staking bridge's program-owned balance.
pub struct CreateStakingBridgeBalancePda {
    /// The program-owned balance account to be created.
    pub staking_bridge_pda: AccountRef,
    /// The account funding the creation; must sign.
    pub payer: AccountRef,
    /// The ledger's account-allocation program.
    pub system_program: AccountRef,
}

/// Numeric parameters of a swap: what goes in and the least acceptable output.
#[derive(Clone, Copy, Debug, PartialEq, Eq, Structural)]
pub struct Amounts {
    pub amount_in: u64,
    pub minimum_amount_out: u64,
}

/// Accounts required to swap through the external market-maker engine.
pub struct RaydiumSwap {
    /// The market-maker program's identity.
    pub program_id: AccountRef,
    /// The pool state account.
    pub amm: AccountRef,
    /// The pool's derived authority.
    pub amm_authority: AccountRef,
    /// The pool's open-orders account.
    pub amm_open_orders: AccountRef,
    /// The pool's target-orders account.
    pub amm_target_orders: AccountRef,
    /// The pool's holding account for the first token.
    pub pool_coin_token_account: AccountRef,
    /// The pool's holding account for the second token.
    pub pool_pc_token_account: AccountRef,
    /// The order-book program's identity.
    pub serum_program: AccountRef,
    /// The order-book market account.
    pub serum_market: AccountRef,
    /// The market's bids account.
    pub serum_bids: AccountRef,
    /// The market's asks account.
    pub serum_asks: AccountRef,
    /// The market's event queue.
    pub serum_event_queue: AccountRef,
    /// The market's vault for the first token.
    pub serum_coin_vault_account: AccountRef,
    /// The market's vault for the second token.
    pub serum_pc_vault_account: AccountRef,
    /// The market's vault authority.
    pub serum_vault_signer: AccountRef,
    /// The program-owned token account the input is drawn from.
    pub user_source_token_account: AccountRef,
    /// The program-owned token account the output lands in.
    pub user_destination_token_account: AccountRef,
    /// The claimed derived-address authority over the source account.
    pub user_source_owner: AccountRef,
    /// The token-transfer program.
    pub spl_token_program: AccountRef,
}

/// Payload of the bridge's post-message call.
#[derive(Clone, Copy, Debug, PartialEq, Eq)]
pub struct PostWormholeMessageData {
    pub nonce: u32,
    pub amount: u64,
    pub fee: u64,
    pub target_address: [u8; 32],
    pub target_chain: u16,
}

/// Accounts required to deposit into the cross-chain bridge.
pub struct PostWormholeMessage {
    /// The token-bridge program's identity.
    pub program_id: AccountRef,
    /// The core-bridge program's identity.
    pub bridge_id: AccountRef,
    /// The account funding the call; must sign.
    pub payer: AccountRef,
    /// The token bridge's configuration account.
    pub config: AccountRef,
    /// The bridge-wrapped mint.
    pub wrapped_mint: AccountRef,
    /// The wrapped mint's metadata account.
    pub wrapped_meta: AccountRef,
    /// The token bridge's transfer authority.
    pub authority_signer: AccountRef,
    /// The core bridge's configuration account.
    pub bridge_config: AccountRef,
    /// The token bridge's message emitter.
    pub emitter: AccountRef,
    /// The emitter's message-sequence counter.
    pub sequence: AccountRef,
    /// The core bridge's fee collector.
    pub fee_collector: AccountRef,
    /// The fresh message account; must sign.
    pub message: AccountRef,
    /// The claimed derived-address authority over the source account.
    pub from_owner: AccountRef,
    /// The program-owned token account the deposit is drawn from.
    pub from: AccountRef,
    /// The token-transfer program.
    pub spl_token: AccountRef,
    /// The ledger's account-allocation program.
    pub system_program: AccountRef,
}

} // verus!
