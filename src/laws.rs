use vstd::prelude::*;
use crate::address::escrow_address_of;
use crate::escrow::{
    credit, debit, deposit_accounts_error, deposit_outcome, initialize_outcome,
    release_accounts_outcome, release_outcome,
    Deposit, ErrorCode, EscrowError, Initialize, ReleaseFunds,
};

verus! {

/// A change of the tracked balance by one operation.
#[derive(Clone, Copy, Debug)]
pub enum Op {
    Deposit(u64),
    Release(u64),
}

/// The tracked balance after `op`, or why `op` fails.
pub open spec fn step(balance: u64, op: Op) -> Result<u64, ErrorCode> {
    match op {
        Op::Deposit(amount) => credit(balance, amount),
        Op::Release(amount) => debit(balance, amount),
    }
}

/// The tracked balance after `ops` in turn, where an operation that fails
/// changes nothing.
pub open spec fn replay(balance: u64, ops: Seq<Op>) -> u64
    decreases ops.len(),
{
    if ops.len() == 0 {
        balance
    } else {
        let before = replay(balance, ops.drop_last());
        match step(before, ops.last()) {
            Ok(after) => after,
            Err(_) => before,
        }
    }
}

/// The successful deposits of `ops` minus their successful releases.
pub open spec fn net(balance: u64, ops: Seq<Op>) -> int
    decreases ops.len(),
{
    if ops.len() == 0 {
        0
    } else {
        let before = replay(balance, ops.drop_last());
        let rest = net(balance, ops.drop_last());
        match (ops.last(), step(before, ops.last())) {
            (Op::Deposit(amount), Ok(_)) => rest + amount,
            (Op::Release(amount), Ok(_)) => rest - amount,
            _ => rest,
        }
    }
}

/// The sum of `amounts`.
pub open spec fn total(amounts: Seq<u64>) -> int
    decreases amounts.len(),
{
    if amounts.len() == 0 {
        0
    } else {
        total(amounts.drop_last()) + amounts.last()
    }
}

/// The accounts after Deposit of each of `amounts` in turn, or the first
/// failure.
pub open spec fn deposit_all(ctx: Deposit, amounts: Seq<u64>) -> Result<Deposit, EscrowError>
    decreases amounts.len(),
{
    if amounts.len() == 0 {
        Ok(ctx)
    } else {
        match deposit_all(ctx, amounts.drop_last()) {
            Ok(before) => match deposit_outcome(before, amounts.last()) {
                Ok(balance) => Ok(before.with_balance(balance)),
                Err(e) => Err(e),
            },
            Err(e) => Err(e),
        }
    }
}

/// Initialize succeeds at most once per initializer: the escrow record's
/// address is a function of the program and the initializer alone, so a
/// second Initialize for the same initializer either names another address
/// and is refused, or names the same one, which the first has taken.
pub proof fn lemma_initialize_once(first: Initialize, second: Initialize)
    requires
        initialize_outcome(first) is Ok,
        second.program_id@ == first.program_id@,
        second.initializer@ == first.initializer@,
        second.escrow_account@ == first.escrow_account@ ==> second.escrow_in_use,
    ensures
        escrow_address_of(second.program_id@, second.initializer@) == escrow_address_of(
            first.program_id@,
            first.initializer@,
        ),
        initialize_outcome(second) is Err,
        second.escrow_account@ == first.escrow_account@ ==> initialize_outcome(second) == Err::<
            (u8, u8),
            EscrowError,
        >(EscrowError::AccountInUse),
{
}

/// After a run of successful deposits the tracked balance has grown by their
/// sum exactly; and deposits of positive amounts on accounts in order succeed
/// as long as that sum fits in `u64`.
pub proof fn lemma_deposits_add_up(ctx: Deposit, amounts: Seq<u64>)
    ensures
        deposit_all(ctx, amounts) matches Ok(after) ==> after == ctx.with_balance(after.escrow_account.amount)
            && after.escrow_account.amount == ctx.escrow_account.amount + total(amounts),
        deposit_accounts_error(ctx) is None && (forall|i: int| 0 <= i < amounts.len() ==> amounts[i] > 0)
            && ctx.escrow_account.amount + total(amounts) <= u64::MAX ==> deposit_all(ctx, amounts) is Ok,
    decreases amounts.len(),
{
    if amounts.len() > 0 {
        let init = amounts.drop_last();
        assert forall|i: int| 0 <= i < init.len() implies init[i] == amounts[i] by {}
        lemma_deposits_add_up(ctx, init);
        lemma_total_bounded(amounts);
    }
}

/// A sum of `u64` amounts is at least the sum of all but the last.
proof fn lemma_total_bounded(amounts: Seq<u64>)
    requires
        amounts.len() > 0,
    ensures
        total(amounts.drop_last()) <= total(amounts),
        total(amounts.drop_last()) >= 0,
    decreases amounts.len(),
{
    if amounts.len() > 1 {
        lemma_total_bounded(amounts.drop_last());
    }
}

/// Any operation on any tracked balance either moves the balance by exactly
/// its amount within `u64` or fails: a deposit that would pass `u64::MAX`
/// fails with `Overflow`, a release of more than the balance with
/// `InsufficientFunds`, an amount of zero with `ZeroAmount`, and nothing else.
pub proof fn lemma_step_in_range(balance: u64, op: Op)
    ensures
        match (op, step(balance, op)) {
            (Op::Deposit(a), Ok(after)) => a > 0 && after == balance + a,
            (Op::Deposit(a), Err(e)) => (a == 0 && e == ErrorCode::ZeroAmount) || (a > 0 && balance
                + a > u64::MAX && e == ErrorCode::Overflow),
            (Op::Release(a), Ok(after)) => a > 0 && after == balance - a,
            (Op::Release(a), Err(e)) => (a == 0 && e == ErrorCode::ZeroAmount) || (a > 0 && a
                > balance && e == ErrorCode::InsufficientFunds),
        },
{
}

/// Over any interleaving of deposits and releases, the tracked balance is the
/// starting balance plus the successful deposits minus the successful
/// releases, and a failed operation leaves it as it was.
pub proof fn lemma_interleaved_in_range(balance: u64, ops: Seq<Op>)
    ensures
        replay(balance, ops) == balance + net(balance, ops),
        forall|i: int|
            0 <= i < ops.len() && #[trigger] step(replay(balance, ops.take(i)), ops[i]) is Err
                ==> replay(balance, ops.take(i + 1)) == replay(balance, ops.take(i)),
    decreases ops.len(),
{
    if ops.len() > 0 {
        lemma_interleaved_in_range(balance, ops.drop_last());
        lemma_step_in_range(replay(balance, ops.drop_last()), ops.last());
    }
    assert forall|i: int|
        0 <= i < ops.len() && #[trigger] step(replay(balance, ops.take(i)), ops[i]) is Err
            implies replay(balance, ops.take(i + 1)) == replay(balance, ops.take(i)) by {
        let prefix = ops.take(i + 1);
        assert(prefix.drop_last() =~= ops.take(i));
        assert(prefix.last() == ops[i]);
    }
}

/// On accounts in order, Deposit changes the tracked balance as the
/// operation `Op::Deposit(amount)` does.
pub proof fn lemma_deposit_is_step(ctx: Deposit, amount: u64)
    requires
        deposit_accounts_error(ctx) is None,
    ensures
        match step(ctx.escrow_account.amount, Op::Deposit(amount)) {
            Ok(after) => deposit_outcome(ctx, amount) == Ok::<u64, EscrowError>(after),
            Err(e) => deposit_outcome(ctx, amount) == Err::<u64, EscrowError>(EscrowError::Program(e)),
        },
{
}

/// A release by the backend authority on accounts in order changes the
/// tracked balance as the operation `Op::Release(amount)` does.
pub proof fn lemma_release_is_step(ctx: ReleaseFunds, amount: u64)
    requires
        ctx.backend_signer@ == ctx.escrow_account.backend_authority@,
        release_accounts_outcome(ctx) is Ok,
    ensures
        match step(ctx.escrow_account.amount, Op::Release(amount)) {
            Ok(after) => release_outcome(ctx, amount) matches Ok((b, _)) && b == after,
            Err(e) => release_outcome(ctx, amount) == Err::<(u64, u8), EscrowError>(
                EscrowError::Program(e),
            ),
        },
{
}

/// A release fails with `Unauthorized` exactly when its signer is not the
/// recorded backend authority, whatever the amount and the balance.
pub proof fn lemma_only_backend_releases(ctx: ReleaseFunds, amount: u64)
    ensures
        (release_outcome(ctx, amount) == Err::<(u64, u8), EscrowError>(
            EscrowError::Program(ErrorCode::Unauthorized),
        )) <==> ctx.backend_signer@ != ctx.escrow_account.backend_authority@,
{
}

/// A deposit of zero units always fails with `ZeroAmount`, and so does a
/// release of zero units signed by the backend authority.
pub proof fn lemma_zero_amount_refused(deposit: Deposit, release: ReleaseFunds)
    requires
        release.backend_signer@ == release.escrow_account.backend_authority@,
    ensures
        deposit_outcome(deposit, 0) == Err::<u64, EscrowError>(
            EscrowError::Program(ErrorCode::ZeroAmount),
        ),
        release_outcome(release, 0) == Err::<(u64, u8), EscrowError>(
            EscrowError::Program(ErrorCode::ZeroAmount),
        ),
{
}

} // verus!
