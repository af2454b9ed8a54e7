//! A model of the collaborator-owned ledger state that the operations touch:
//! token-account balances moved by the token-transfer primitive, and the set
//! of program-owned balance accounts that the allocation primitive has
//! created. The model pins what each collaborator call does, so orchestration
//! against it is verified and testable without a real ledger.

use vstd::prelude::*;

use vstd::pervasive::VecAdditionalExecFns;

use crate::error::CollaboratorKind;
use crate::error::ExecutionError;
use crate::identity::Identity;
use crate::identity::identity_eq;

verus! {

/// One token account's durable state.
#[derive(Clone, Copy, Debug, PartialEq, Eq)]
pub struct TokenAccountState {
    /// The account's identity.
    pub identity: Identity,
    /// The mint whose units it holds.
    pub mint: Identity,
    /// The identity allowed to move the balance.
    pub authority: Identity,
    /// The balance held.
    pub balance: u64,
}

/// All durable state the operations can reach: token accounts, and the
/// identities of program-owned balance accounts created so far.
pub struct Ledger {
    pub token_accounts: Vec<TokenAccountState>,
    pub created: Vec<Identity>,
}

/// Index of the first account with the given identity, or -1 when none has it.
pub open spec fn first_index(s: Seq<TokenAccountState>, id: Identity) -> int
    decreases s.len(),
{
    if s.len() == 0 {
        -1
    } else if s[0].identity == id {
        0
    } else {
        let rest = first_index(s.drop_first(), id);
        if rest < 0 {
            -1
        } else {
            rest + 1
        }
    }
}

/// `first_index` finds the first occurrence, and -1 means there is none.
pub proof fn lemma_first_index(s: Seq<TokenAccountState>, id: Identity)
    ensures
        first_index(s, id) == -1 ==> forall|k: int| 0 <= k < s.len() ==> s[k].identity != id,
        first_index(s, id) != -1 ==> 0 <= first_index(s, id) < s.len() && s[first_index(
            s,
            id,
        )].identity == id && forall|k: int| 0 <= k < first_index(s, id) ==> s[k].identity != id,
    decreases s.len(),
{
    if s.len() > 0 && s[0].identity != id {
        lemma_first_index(s.drop_first(), id);
        let rest = first_index(s.drop_first(), id);
        if rest == -1 {
            assert forall|k: int| 0 <= k < s.len() implies s[k].identity != id by {
                if k > 0 {
                    assert(s.drop_first()[k - 1] == s[k]);
                }
            }
        } else {
            assert(s[rest + 1] == s.drop_first()[rest]);
            assert forall|k: int| 0 <= k < rest + 1 implies s[k].identity != id by {
                if k > 0 {
                    assert(s.drop_first()[k - 1] == s[k]);
                }
            }
        }
    }
}

/// Finds the first account carrying the given identity.
pub fn find_account(accounts: &Vec<TokenAccountState>, id: &Identity) -> (r: Option<usize>)
    ensures
        r matches Some(i) ==> i == first_index(accounts@, *id),
        r is None ==> first_index(accounts@, *id) == -1,
{
    let mut i: usize = 0;
    while i < accounts.len()
        invariant
            i <= accounts@.len(),
            forall|k: int| 0 <= k < i ==> accounts@[k].identity != *id,
        decreases accounts@.len() - i,
    {
        if identity_eq(&accounts[i].identity, id) {
            proof {
                lemma_first_index(accounts@, *id);
                let fi = first_index(accounts@, *id);
                if fi == -1 {
                    assert(accounts@[i as int].identity != *id);
                } else if fi < i as int {
                    assert(accounts@[fi].identity != *id);
                } else if fi > i as int {
                    assert(accounts@[i as int].identity != *id);
                }
            }
            return Some(i);
        }
        i += 1;
    }
    proof {
        lemma_first_index(accounts@, *id);
        let fi = first_index(accounts@, *id);
        if fi != -1 {
            assert(accounts@[fi].identity == *id);
        }
    }
    None
}

/// What the token-transfer collaborator does for one call: debit the first
/// account with the source identity and credit the first with the destination
/// identity, or fail — source or destination missing, authority not the
/// recorded one, mints differing, balance short, or the credit overflowing —
/// leaving every account as it was.
pub open spec fn spec_transfer(
    s: Seq<TokenAccountState>,
    from: Identity,
    to: Identity,
    authority: Identity,
    amount: u64,
) -> Option<Seq<TokenAccountState>> {
    let i = first_index(s, from);
    let j = first_index(s, to);
    if i < 0 || j < 0 {
        None
    } else {
        let src = s[i];
        let dst = s[j];
        if src.authority != authority {
            None
        } else if src.mint != dst.mint {
            None
        } else if src.balance < amount {
            None
        } else if i == j {
            Some(s)
        } else if dst.balance + amount > u64::MAX {
            None
        } else {
            Some(
                s.update(
                    i,
                    TokenAccountState { balance: (src.balance - amount) as u64, ..src },
                ).update(j, TokenAccountState { balance: (dst.balance + amount) as u64, ..dst }),
            )
        }
    }
}

/// Issues one token transfer against the model: exactly `spec_transfer`, with
/// any failure reported as the collaborator's and the accounts untouched.
pub fn apply_transfer(
    accounts: &mut Vec<TokenAccountState>,
    from: &Identity,
    to: &Identity,
    authority: &Identity,
    amount: u64,
) -> (r: Result<(), ExecutionError>)
    ensures
        r is Ok <==> spec_transfer(old(accounts)@, *from, *to, *authority, amount) is Some,
        r is Ok ==> Some(final(accounts)@) == spec_transfer(
            old(accounts)@,
            *from,
            *to,
            *authority,
            amount,
        ),
        r is Err ==> final(accounts)@ == old(accounts)@ && r == Err::<(), ExecutionError>(
            ExecutionError::CollaboratorFailed(CollaboratorKind::TokenTransfer),
        ),
{
    proof {
        lemma_first_index(accounts@, *from);
        lemma_first_index(accounts@, *to);
    }
    let failed: Result<(), ExecutionError> = Err(
        ExecutionError::CollaboratorFailed(CollaboratorKind::TokenTransfer),
    );
    let source_index = find_account(accounts, from);
    let destination_index = find_account(accounts, to);
    match (source_index, destination_index) {
        (Some(i), Some(j)) => {
            let src = accounts[i];
            let dst = accounts[j];
            if !identity_eq(&src.authority, authority) {
                return failed;
            }
            if !identity_eq(&src.mint, &dst.mint) {
                return failed;
            }
            if src.balance < amount {
                return failed;
            }
            if i == j {
                return Ok(());
            }
            if amount > u64::MAX - dst.balance {
                return failed;
            }
            accounts.set(i, TokenAccountState { balance: src.balance - amount, ..src });
            accounts.set(j, TokenAccountState { balance: dst.balance + amount, ..dst });
            Ok(())
        },
        _ => failed,
    }
}

/// What the account-allocation collaborator does for one creation request:
/// record the derived identity once, and report any repeat without changing
/// anything.
pub open spec fn spec_create(created: Seq<Identity>, id: Identity) -> Result<
    Seq<Identity>,
    ExecutionError,
> {
    if created.contains(id) {
        Err(ExecutionError::AlreadyExists)
    } else {
        Ok(created.push(id))
    }
}

/// Creation is idempotent by construction: where the identity is absent, the
/// first request succeeds exactly once, and repeating it fails with the
/// already-exists condition and no further effect.
pub proof fn lemma_create_idempotent(created: Seq<Identity>, id: Identity)
    requires
        !created.contains(id),
    ensures
        spec_create(created, id) == Ok::<Seq<Identity>, ExecutionError>(created.push(id)),
        spec_create(created.push(id), id) == Err::<Seq<Identity>, ExecutionError>(
            ExecutionError::AlreadyExists,
        ),
{
    assert(created.push(id)[created.len() as int] == id);
}

/// Whether some recorded identity equals the given one.
pub fn contains_identity(ids: &Vec<Identity>, id: &Identity) -> (r: bool)
    ensures
        r == ids@.contains(*id),
{
    let mut i: usize = 0;
    while i < ids.len()
        invariant
            i <= ids@.len(),
            forall|k: int| 0 <= k < i ==> ids@[k] != *id,
        decreases ids@.len() - i,
    {
        if identity_eq(&ids[i], id) {
            return true;
        }
        i += 1;
    }
    false
}

/// Issues one creation request against the model: exactly `spec_create`.
pub fn apply_create(created: &mut Vec<Identity>, id: &Identity) -> (r: Result<(), ExecutionError>)
    ensures
        r is Ok <==> spec_create(old(created)@, *id) is Ok,
        r is Ok ==> Ok::<Seq<Identity>, ExecutionError>(final(created)@) == spec_create(
            old(created)@,
            *id,
        ),
        r is Err ==> final(created)@ == old(created)@ && r == Err::<(), ExecutionError>(
            ExecutionError::AlreadyExists,
        ),
{
    if contains_identity(created, id) {
        Err(ExecutionError::AlreadyExists)
    } else {
        created.push(*id);
        Ok(())
    }
}

/// Copies the token-account list, so a candidate outcome can be computed
/// without touching the ledger until the whole operation is known to succeed.
pub fn copy_accounts(accounts: &Vec<TokenAccountState>) -> (r: Vec<TokenAccountState>)
    ensures
        r@ == accounts@,
{
    let mut out: Vec<TokenAccountState> = Vec::new();
    let mut i: usize = 0;
    while i < accounts.len()
        invariant
            i <= accounts@.len(),
            out@ == accounts@.take(i as int),
        decreases accounts@.len() - i,
    {
        out.push(accounts[i]);
        proof {
            assert(out@ =~= accounts@.take(i + 1));
        }
        i += 1;
    }
    proof {
        assert(accounts@.take(accounts@.len() as int) =~= accounts@);
    }
    out
}

} // verus!
