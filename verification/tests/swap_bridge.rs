use payment_router::accounts::AccountRef;
use payment_router::accounts::Amounts;
use payment_router::accounts::PostWormholeMessage;
use payment_router::accounts::PostWormholeMessageData;
use payment_router::accounts::RaydiumSwap;
use payment_router::accounts::TokenInfo;
use payment_router::config::StakingBridgeConfig;
use payment_router::error::ValidationError;
use payment_router::identity::Identity;
use payment_router::identity::find_bump;
use payment_router::orchestrate::CollaboratorCall;
use payment_router::processor::post_wormhole_message;
use payment_router::processor::raydium_swap;

fn id(b: u8) -> Identity {
    Identity { bytes: [b; 32] }
}

fn token_ref(
    identity: Identity,
    owner: Identity,
    mint: Identity,
    authority: Identity,
    balance: u64,
) -> AccountRef {
    AccountRef { identity, owner, is_signer: false, token: Some(TokenInfo { mint, authority, balance }) }
}

fn plain_ref(identity: Identity, owner: Identity) -> AccountRef {
    AccountRef { identity, owner, is_signer: false, token: None }
}

fn bridge_config() -> StakingBridgeConfig {
    StakingBridgeConfig {
        program_id: id(1),
        namespace_tag: b"staking-bridge".to_vec(),
        token_program: id(2),
        system_program: id(3),
        swap_program: id(6),
        order_book_program: id(7),
        pool_authority_tag: b"amm authority".to_vec(),
        swap_source_mint: id(4),
        swap_destination_mint: id(5),
        token_bridge_program: id(8),
        core_bridge_program: id(9),
        config_tag: b"config".to_vec(),
        wrapped_mint_tag: b"wrapped".to_vec(),
        wrapped_meta_tag: b"meta".to_vec(),
        authority_signer_tag: b"authority_signer".to_vec(),
        bridge_config_tag: b"Bridge".to_vec(),
        emitter_tag: b"emitter".to_vec(),
        sequence_tag: b"Sequence".to_vec(),
        fee_collector_tag: b"fee_collector".to_vec(),
    }
}

fn swap_accounts(cfg: &StakingBridgeConfig) -> (RaydiumSwap, u64, u8) {
    let pda = find_bump(&cfg.namespace_tag, &cfg.program_id).expect("bridge balance derives");
    let pool_authority = find_bump(&cfg.pool_authority_tag, &cfg.swap_program)
        .expect("pool authority derives");
    let accounts = RaydiumSwap {
        program_id: plain_ref(cfg.swap_program, cfg.swap_program),
        amm: plain_ref(id(30), cfg.swap_program),
        amm_authority: plain_ref(pool_authority.identity, cfg.swap_program),
        amm_open_orders: plain_ref(id(31), cfg.swap_program),
        amm_target_orders: plain_ref(id(32), cfg.swap_program),
        pool_coin_token_account: plain_ref(id(33), cfg.swap_program),
        pool_pc_token_account: plain_ref(id(34), cfg.swap_program),
        serum_program: plain_ref(cfg.order_book_program, cfg.order_book_program),
        serum_market: plain_ref(id(35), cfg.order_book_program),
        serum_bids: plain_ref(id(36), cfg.order_book_program),
        serum_asks: plain_ref(id(37), cfg.order_book_program),
        serum_event_queue: plain_ref(id(38), cfg.order_book_program),
        serum_coin_vault_account: plain_ref(id(39), cfg.order_book_program),
        serum_pc_vault_account: plain_ref(id(40), cfg.order_book_program),
        serum_vault_signer: plain_ref(id(41), cfg.order_book_program),
        user_source_token_account: token_ref(
            id(50),
            cfg.token_program,
            cfg.swap_source_mint,
            pda.identity,
            1_000,
        ),
        user_destination_token_account: token_ref(
            id(51),
            cfg.token_program,
            cfg.swap_destination_mint,
            pda.identity,
            0,
        ),
        user_source_owner: plain_ref(pda.identity, cfg.program_id),
        spl_token_program: plain_ref(cfg.token_program, cfg.token_program),
    };
    (accounts, pool_authority.bump as u64, pda.bump)
}

#[test]
fn swap_builds_the_single_validated_call() {
    let cfg = bridge_config();
    let (accounts, vault_nonce, bump) = swap_accounts(&cfg);
    let r = raydium_swap(&cfg, &accounts, 1_000, 900, vault_nonce, bump);
    assert_eq!(
        r,
        Ok(CollaboratorCall::Swap {
            swap_program: cfg.swap_program,
            pool: accounts.amm.identity,
            source: accounts.user_source_token_account.identity,
            destination: accounts.user_destination_token_account.identity,
            authority: accounts.user_source_owner.identity,
            amounts: Amounts { amount_in: 1_000, minimum_amount_out: 900 },
        }),
    );
}

#[test]
fn swap_rejects_unauthorized_source_even_for_a_signer() {
    let cfg = bridge_config();
    let (mut accounts, vault_nonce, bump) = swap_accounts(&cfg);
    accounts.user_source_token_account.token =
        Some(TokenInfo { mint: cfg.swap_source_mint, authority: id(99), balance: 1_000 });
    accounts.user_source_token_account.is_signer = true;
    let r = raydium_swap(&cfg, &accounts, 1_000, 900, vault_nonce, bump);
    assert_eq!(r, Err(ValidationError::UnauthorizedAuthority));
}

#[test]
fn swap_rejects_foreign_market_maker_program() {
    let cfg = bridge_config();
    let (mut accounts, vault_nonce, bump) = swap_accounts(&cfg);
    accounts.program_id = plain_ref(id(99), id(99));
    accounts.program_id.is_signer = true;
    let r = raydium_swap(&cfg, &accounts, 1_000, 900, vault_nonce, bump);
    assert_eq!(r, Err(ValidationError::WrongOwner));
}

#[test]
fn swap_rejects_source_with_wrong_mint() {
    let cfg = bridge_config();
    let (mut accounts, vault_nonce, bump) = swap_accounts(&cfg);
    let pda_authority = accounts.user_source_token_account.token.unwrap().authority;
    accounts.user_source_token_account.token =
        Some(TokenInfo { mint: id(66), authority: pda_authority, balance: 1_000 });
    let r = raydium_swap(&cfg, &accounts, 1_000, 900, vault_nonce, bump);
    assert_eq!(r, Err(ValidationError::MintMismatch));
}

#[test]
fn swap_rejects_vault_nonce_outside_byte_range() {
    let cfg = bridge_config();
    let (accounts, _, bump) = swap_accounts(&cfg);
    let r = raydium_swap(&cfg, &accounts, 1_000, 900, 300, bump);
    assert_eq!(r, Err(ValidationError::AddressMismatch));
}

struct BridgeSetup {
    accounts: PostWormholeMessage,
    bumps: [u8; 9],
}

fn bridge_accounts(cfg: &StakingBridgeConfig) -> BridgeSetup {
    let pda = find_bump(&cfg.namespace_tag, &cfg.program_id).expect("bridge balance derives");
    let config = find_bump(&cfg.config_tag, &cfg.token_bridge_program).unwrap();
    let wrapped_mint = find_bump(&cfg.wrapped_mint_tag, &cfg.token_bridge_program).unwrap();
    let wrapped_meta = find_bump(&cfg.wrapped_meta_tag, &cfg.token_bridge_program).unwrap();
    let authority_signer = find_bump(&cfg.authority_signer_tag, &cfg.token_bridge_program).unwrap();
    let bridge_cfg = find_bump(&cfg.bridge_config_tag, &cfg.core_bridge_program).unwrap();
    let emitter = find_bump(&cfg.emitter_tag, &cfg.token_bridge_program).unwrap();
    let sequence = find_bump(&cfg.sequence_tag, &cfg.core_bridge_program).unwrap();
    let fee_collector = find_bump(&cfg.fee_collector_tag, &cfg.core_bridge_program).unwrap();
    let mut payer = plain_ref(id(60), cfg.system_program);
    payer.is_signer = true;
    let mut message = plain_ref(id(61), cfg.core_bridge_program);
    message.is_signer = true;
    let accounts = PostWormholeMessage {
        program_id: plain_ref(cfg.token_bridge_program, cfg.token_bridge_program),
        bridge_id: plain_ref(cfg.core_bridge_program, cfg.core_bridge_program),
        payer,
        config: plain_ref(config.identity, cfg.token_bridge_program),
        wrapped_mint: plain_ref(wrapped_mint.identity, cfg.token_bridge_program),
        wrapped_meta: plain_ref(wrapped_meta.identity, cfg.token_bridge_program),
        authority_signer: plain_ref(authority_signer.identity, cfg.token_bridge_program),
        bridge_config: plain_ref(bridge_cfg.identity, cfg.core_bridge_program),
        emitter: plain_ref(emitter.identity, cfg.token_bridge_program),
        sequence: plain_ref(sequence.identity, cfg.core_bridge_program),
        fee_collector: plain_ref(fee_collector.identity, cfg.core_bridge_program),
        message,
        from_owner: plain_ref(pda.identity, cfg.program_id),
        from: token_ref(id(62), cfg.token_program, wrapped_mint.identity, pda.identity, 5_000),
        spl_token: plain_ref(cfg.token_program, cfg.token_program),
        system_program: plain_ref(cfg.system_program, cfg.system_program),
    };
    BridgeSetup {
        accounts,
        bumps: [
            config.bump,
            wrapped_mint.bump,
            wrapped_meta.bump,
            authority_signer.bump,
            bridge_cfg.bump,
            emitter.bump,
            sequence.bump,
            fee_collector.bump,
            pda.bump,
        ],
    }
}

fn call_bridge(
    cfg: &StakingBridgeConfig,
    s: &BridgeSetup,
    amount: u64,
) -> Result<Vec<CollaboratorCall>, ValidationError> {
    post_wormhole_message(
        cfg,
        &s.accounts,
        42,
        amount,
        3,
        [17u8; 32],
        2,
        s.bumps[0],
        s.bumps[1],
        s.bumps[2],
        s.bumps[3],
        s.bumps[4],
        s.bumps[5],
        s.bumps[6],
        s.bumps[7],
        s.bumps[8],
    )
}

#[test]
fn bridge_deposit_builds_approve_then_post_message() {
    let cfg = bridge_config();
    let s = bridge_accounts(&cfg);
    let calls = call_bridge(&cfg, &s, 4_000).expect("a valid deposit builds its calls");
    assert_eq!(calls.len(), 2);
    assert_eq!(
        calls[0],
        CollaboratorCall::Approve {
            source: s.accounts.from.identity,
            delegate: s.accounts.authority_signer.identity,
            authority: s.accounts.from_owner.identity,
            amount: 4_000,
        },
    );
    assert_eq!(
        calls[1],
        CollaboratorCall::PostMessage {
            bridge_program: s.accounts.program_id.identity,
            emitter: s.accounts.emitter.identity,
            payload: PostWormholeMessageData {
                nonce: 42,
                amount: 4_000,
                fee: 3,
                target_address: [17u8; 32],
                target_chain: 2,
            },
        },
    );
}

#[test]
fn bridge_deposit_rejects_unauthorized_source_even_for_a_signer() {
    let cfg = bridge_config();
    let mut s = bridge_accounts(&cfg);
    let mint = s.accounts.from.token.unwrap().mint;
    s.accounts.from.token = Some(TokenInfo { mint, authority: id(99), balance: 5_000 });
    s.accounts.from.is_signer = true;
    let r = call_bridge(&cfg, &s, 4_000);
    assert_eq!(r, Err(ValidationError::UnauthorizedAuthority));
}

#[test]
fn bridge_deposit_rejects_missing_message_signature() {
    let cfg = bridge_config();
    let mut s = bridge_accounts(&cfg);
    s.accounts.message.is_signer = false;
    let r = call_bridge(&cfg, &s, 4_000);
    assert_eq!(r, Err(ValidationError::MissingSignature));
}

#[test]
fn bridge_deposit_rejects_mismatched_sequence_account() {
    let cfg = bridge_config();
    let mut s = bridge_accounts(&cfg);
    s.accounts.sequence = plain_ref(id(99), cfg.core_bridge_program);
    let r = call_bridge(&cfg, &s, 4_000);
    assert_eq!(r, Err(ValidationError::AddressMismatch));
}

#[test]
fn bridge_deposit_rejects_source_with_foreign_mint() {
    let cfg = bridge_config();
    let mut s = bridge_accounts(&cfg);
    let authority = s.accounts.from.token.unwrap().authority;
    s.accounts.from.token = Some(TokenInfo { mint: id(66), authority, balance: 5_000 });
    let r = call_bridge(&cfg, &s, 4_000);
    assert_eq!(r, Err(ValidationError::MintMismatch));
}
