use payment_router::accounts::AccountRef;
use payment_router::accounts::CreatePaymentRouterBalancePDA;
use payment_router::accounts::Route;
use payment_router::accounts::TokenInfo;
use payment_router::config::RouterConfig;
use payment_router::error::CollaboratorKind;
use payment_router::error::ExecutionError;
use payment_router::error::OperationError;
use payment_router::error::ValidationError;
use payment_router::identity::Identity;
use payment_router::identity::find_bump;
use payment_router::ledger::Ledger;
use payment_router::ledger::TokenAccountState;
use payment_router::processor::create_payment_router_balance_pda;
use payment_router::processor::route;

fn id(b: u8) -> Identity {
    Identity { bytes: [b; 32] }
}

fn token_ref(
    identity: Identity,
    owner: Identity,
    mint: Identity,
    authority: Identity,
    balance: u64,
) -> AccountRef {
    AccountRef { identity, owner, is_signer: false, token: Some(TokenInfo { mint, authority, balance }) }
}

fn plain_ref(identity: Identity, owner: Identity) -> AccountRef {
    AccountRef { identity, owner, is_signer: false, token: None }
}

struct Setup {
    cfg: RouterConfig,
    ledger: Ledger,
    accounts: Route,
    remaining: Vec<AccountRef>,
    bump: u8,
}

fn setup() -> Setup {
    let program = id(1);
    let token_program = id(2);
    let system_program = id(3);
    let mint = id(4);
    let tag: Vec<u8> = b"payment-router".to_vec();
    let pda = find_bump(&tag, &program).expect("a canonical bump exists");
    let sender = id(10);
    let ledger = Ledger {
        token_accounts: vec![
            TokenAccountState { identity: sender, mint, authority: pda.identity, balance: 100 },
            TokenAccountState { identity: id(11), mint, authority: id(21), balance: 0 },
            TokenAccountState { identity: id(12), mint, authority: id(22), balance: 0 },
            TokenAccountState { identity: id(13), mint, authority: id(23), balance: 0 },
        ],
        created: vec![],
    };
    let accounts = Route {
        sender: token_ref(sender, token_program, mint, pda.identity, 100),
        sender_owner: plain_ref(pda.identity, program),
        spl_token: plain_ref(token_program, token_program),
    };
    let remaining = vec![
        token_ref(id(11), token_program, mint, id(21), 0),
        token_ref(id(12), token_program, mint, id(22), 0),
        token_ref(id(13), token_program, mint, id(23), 0),
    ];
    let cfg = RouterConfig { program_id: program, namespace_tag: tag, token_program, system_program };
    Setup { cfg, ledger, accounts, remaining, bump: pda.bump }
}

#[test]
fn routes_three_ordered_transfers() {
    let mut s = setup();
    let r = route(
        &mut s.ledger,
        &s.cfg,
        &s.accounts,
        &s.remaining,
        s.bump,
        &vec![10, 20, 70],
        100,
    );
    assert_eq!(r, Ok(()));
    assert_eq!(s.ledger.token_accounts[0].balance, 0);
    assert_eq!(s.ledger.token_accounts[1].balance, 10);
    assert_eq!(s.ledger.token_accounts[2].balance, 20);
    assert_eq!(s.ledger.token_accounts[3].balance, 70);
}

#[test]
fn aborts_whole_call_when_second_transfer_fails() {
    let mut s = setup();
    // The second recipient's account holds a different mint, so its transfer
    // — issued after the first already succeeded — fails; the whole call must
    // leave the sender balance untouched.
    s.ledger.token_accounts[2].mint = id(5);
    let r = route(
        &mut s.ledger,
        &s.cfg,
        &s.accounts,
        &s.remaining,
        s.bump,
        &vec![10, 20, 70],
        100,
    );
    assert_eq!(
        r,
        Err(OperationError::Execution(ExecutionError::CollaboratorFailed(
            CollaboratorKind::TokenTransfer,
        ))),
    );
    assert_eq!(s.ledger.token_accounts[0].balance, 100);
    assert_eq!(s.ledger.token_accounts[1].balance, 0);
    assert_eq!(s.ledger.token_accounts[2].balance, 0);
    assert_eq!(s.ledger.token_accounts[3].balance, 0);
}

#[test]
fn rejects_insufficient_sender_balance_atomically() {
    let mut s = setup();
    let r = route(
        &mut s.ledger,
        &s.cfg,
        &s.accounts,
        &s.remaining,
        s.bump,
        &vec![60, 60, 60],
        180,
    );
    assert_eq!(
        r,
        Err(OperationError::Execution(ExecutionError::CollaboratorFailed(
            CollaboratorKind::TokenTransfer,
        ))),
    );
    assert_eq!(s.ledger.token_accounts[0].balance, 100);
    assert_eq!(s.ledger.token_accounts[1].balance, 0);
}

#[test]
fn rejects_unauthorized_sender_authority() {
    let mut s = setup();
    s.accounts.sender.token = Some(TokenInfo { mint: id(4), authority: id(99), balance: 100 });
    let r = route(
        &mut s.ledger,
        &s.cfg,
        &s.accounts,
        &s.remaining,
        s.bump,
        &vec![10, 20, 70],
        100,
    );
    assert_eq!(r, Err(OperationError::Validation(ValidationError::UnauthorizedAuthority)));
    assert_eq!(s.ledger.token_accounts[0].balance, 100);
}

#[test]
fn rejects_wrong_bump_as_address_mismatch() {
    let mut s = setup();
    let r = route(
        &mut s.ledger,
        &s.cfg,
        &s.accounts,
        &s.remaining,
        s.bump.wrapping_add(1),
        &vec![10, 20, 70],
        100,
    );
    assert_eq!(r, Err(OperationError::Validation(ValidationError::AddressMismatch)));
}

#[test]
fn rejects_wrong_token_program_handle() {
    let mut s = setup();
    s.accounts.spl_token = plain_ref(id(77), id(77));
    let r = route(
        &mut s.ledger,
        &s.cfg,
        &s.accounts,
        &s.remaining,
        s.bump,
        &vec![10, 20, 70],
        100,
    );
    assert_eq!(r, Err(OperationError::Validation(ValidationError::WrongOwner)));
}

#[test]
fn rejects_plan_whose_sum_misses_total() {
    let mut s = setup();
    let r = route(
        &mut s.ledger,
        &s.cfg,
        &s.accounts,
        &s.remaining,
        s.bump,
        &vec![10, 20, 60],
        100,
    );
    assert_eq!(r, Err(OperationError::Validation(ValidationError::SumMismatch)));
}

fn init_accounts(pda_identity: Identity, program: Identity, system_program: Identity) -> CreatePaymentRouterBalancePDA {
    CreatePaymentRouterBalancePDA {
        payment_router_pda: plain_ref(pda_identity, program),
        payer: AccountRef { identity: id(40), owner: id(3), is_signer: true, token: None },
        system_program: plain_ref(system_program, system_program),
    }
}

#[test]
fn init_balance_succeeds_exactly_once() {
    let mut s = setup();
    let pda = find_bump(&s.cfg.namespace_tag, &s.cfg.program_id).unwrap();
    let accounts = init_accounts(pda.identity, s.cfg.program_id, s.cfg.system_program);
    let first = create_payment_router_balance_pda(&mut s.ledger, &s.cfg, &accounts);
    assert_eq!(first, Ok(()));
    assert_eq!(s.ledger.created, vec![pda.identity]);
    let second = create_payment_router_balance_pda(&mut s.ledger, &s.cfg, &accounts);
    assert_eq!(second, Err(OperationError::Execution(ExecutionError::AlreadyExists)));
    assert_eq!(s.ledger.created, vec![pda.identity]);
}

#[test]
fn init_balance_requires_payer_signature() {
    let mut s = setup();
    let pda = find_bump(&s.cfg.namespace_tag, &s.cfg.program_id).unwrap();
    let mut accounts = init_accounts(pda.identity, s.cfg.program_id, s.cfg.system_program);
    accounts.payer.is_signer = false;
    let r = create_payment_router_balance_pda(&mut s.ledger, &s.cfg, &accounts);
    assert_eq!(r, Err(OperationError::Validation(ValidationError::MissingSignature)));
    assert_eq!(s.ledger.created.len(), 0);
}

#[test]
fn init_balance_rejects_foreign_pda_identity() {
    let mut s = setup();
    let accounts = init_accounts(id(88), s.cfg.program_id, s.cfg.system_program);
    let r = create_payment_router_balance_pda(&mut s.ledger, &s.cfg, &accounts);
    assert_eq!(r, Err(OperationError::Validation(ValidationError::AddressMismatch)));
    assert_eq!(s.ledger.created.len(), 0);
}
