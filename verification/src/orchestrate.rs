//! The external-call orchestrator: builds, strictly after validation, the
//! ordered collaborator calls an operation requires, and — for the token
//! transfers of a fan-out payment — issues them against the ledger model in
//! plan order.

use vstd::prelude::*;

use crate::accounts::AccountRef;
use crate::accounts::Amounts;
use crate::accounts::PostWormholeMessageData;
use crate::error::CollaboratorKind;
use crate::error::ExecutionError;
use crate::identity::Identity;
use crate::ledger::TokenAccountState;
use crate::ledger::apply_transfer;
use crate::ledger::spec_transfer;

verus! {

/// One requested token transfer: `amount` from `from` to `to`, authorized by
/// the verified derived address `authority`.
#[derive(Clone, Copy, Debug, PartialEq, Eq)]
pub struct TransferRequest {
    pub from: Identity,
    pub to: Identity,
    pub authority: Identity,
    pub amount: u64,
}

/// One call into a collaborator, with every parameter already validated.
#[derive(Clone, Copy, Debug, PartialEq, Eq)]
pub enum CollaboratorCall {
    /// One token-transfer call.
    TokenTransfer { request: TransferRequest },
    /// The single swap-engine call; the engine itself enforces the minimum
    /// output and fails the whole call when unmet.
    Swap {
        swap_program: Identity,
        pool: Identity,
        source: Identity,
        destination: Identity,
        authority: Identity,
        amounts: Amounts,
    },
    /// An allowance of exactly `amount` for the bridge's transfer authority.
    Approve { source: Identity, delegate: Identity, authority: Identity, amount: u64 },
    /// The bridge's post-message call.
    PostMessage { bridge_program: Identity, emitter: Identity, payload: PostWormholeMessageData },
}

/// The outcome of issuing a list of transfers in order: the state after all
/// of them, or nothing as soon as one fails.
pub open spec fn spec_apply_transfers(
    s: Seq<TokenAccountState>,
    requests: Seq<TransferRequest>,
) -> Option<Seq<TokenAccountState>>
    decreases requests.len(),
{
    if requests.len() == 0 {
        Some(s)
    } else {
        match spec_transfer(
            s,
            requests[0].from,
            requests[0].to,
            requests[0].authority,
            requests[0].amount,
        ) {
            None => None,
            Some(next) => spec_apply_transfers(next, requests.drop_first()),
        }
    }
}

/// Issuing `a` then `b` is issuing `a + b`.
pub proof fn lemma_apply_transfers_concat(
    s: Seq<TokenAccountState>,
    a: Seq<TransferRequest>,
    b: Seq<TransferRequest>,
)
    ensures
        spec_apply_transfers(s, a + b) == (match spec_apply_transfers(s, a) {
            None => None::<Seq<TokenAccountState>>,
            Some(mid) => spec_apply_transfers(mid, b),
        }),
    decreases a.len(),
{
    if a.len() == 0 {
        assert(a + b =~= b);
    } else {
        assert((a + b)[0] == a[0]);
        assert((a + b).drop_first() =~= a.drop_first() + b);
        match spec_transfer(s, a[0].from, a[0].to, a[0].authority, a[0].amount) {
            None => {},
            Some(next) => {
                lemma_apply_transfers_concat(next, a.drop_first(), b);
            },
        }
    }
}

/// The transfer list a fan-out payment owes: position by position, the amount
/// at each position from the sender to the recipient at that position.
pub open spec fn route_transfers(
    sender: Identity,
    authority: Identity,
    recipients: Seq<AccountRef>,
    amounts: Seq<u64>,
) -> Seq<TransferRequest> {
    Seq::new(
        amounts.len(),
        |i: int|
            TransferRequest {
                from: sender,
                to: recipients[i].identity,
                authority,
                amount: amounts[i],
            },
    )
}

/// Issues one token-transfer call per `(recipient, amount)` pair, in plan
/// order, stopping at the first collaborator failure. On failure the caller
/// must discard `accounts`: the enclosing operation aborts as a whole.
pub fn execute_transfers(
    accounts: &mut Vec<TokenAccountState>,
    sender: &AccountRef,
    sender_owner: &AccountRef,
    recipients: &Vec<AccountRef>,
    amounts: &Vec<u64>,
) -> (r: Result<(), ExecutionError>)
    requires
        amounts@.len() == recipients@.len(),
    ensures
        r is Ok <==> spec_apply_transfers(
            old(accounts)@,
            route_transfers(sender.identity, sender_owner.identity, recipients@, amounts@),
        ) is Some,
        r is Ok ==> Some(final(accounts)@) == spec_apply_transfers(
            old(accounts)@,
            route_transfers(sender.identity, sender_owner.identity, recipients@, amounts@),
        ),
        r is Err ==> r == Err::<(), ExecutionError>(
            ExecutionError::CollaboratorFailed(CollaboratorKind::TokenTransfer),
        ),
{
    let ghost requests = route_transfers(
        sender.identity,
        sender_owner.identity,
        recipients@,
        amounts@,
    );
    let mut i: usize = 0;
    while i < amounts.len()
        invariant
            i <= amounts@.len(),
            amounts@.len() == recipients@.len(),
            requests == route_transfers(
                sender.identity,
                sender_owner.identity,
                recipients@,
                amounts@,
            ),
            spec_apply_transfers(old(accounts)@, requests.take(i as int)) == Some(accounts@),
        decreases amounts@.len() - i,
    {
        let ghost before = accounts@;
        let ghost request = requests[i as int];
        let outcome = apply_transfer(
            accounts,
            &sender.identity,
            &recipients[i].identity,
            &sender_owner.identity,
            amounts[i],
        );
        proof {
            assert(seq![request].drop_first() =~= Seq::<TransferRequest>::empty());
            assert(requests.take(i + 1) =~= requests.take(i as int) + seq![request]);
            lemma_apply_transfers_concat(old(accounts)@, requests.take(i as int), seq![request]);
        }
        match outcome {
            Ok(()) => {
                proof {
                    assert(spec_transfer(
                        before,
                        request.from,
                        request.to,
                        request.authority,
                        request.amount,
                    ) == Some(accounts@));
                    assert(spec_apply_transfers(accounts@, seq![request].drop_first()) == Some(
                        accounts@,
                    ));
                    assert(spec_apply_transfers(before, seq![request]) == Some(accounts@));
                }
                i += 1;
            },
            Err(failure) => {
                proof {
                    assert(spec_apply_transfers(before, seq![request]) is None);
                    assert(spec_apply_transfers(old(accounts)@, requests.take(i + 1)) is None);
                    assert(requests =~= requests.take(i + 1) + requests.skip(i + 1));
                    lemma_apply_transfers_concat(
                        old(accounts)@,
                        requests.take(i + 1),
                        requests.skip(i + 1),
                    );
                }
                return Err(failure);
            },
        }
    }
    proof {
        assert(requests.take(amounts@.len() as int) =~= requests);
    }
    Ok(())
}

} // verus!
