use vstd::prelude::*;
use crate::address::{escrow_address, escrow_address_of, found_view, vault_address, vault_address_of};
use crate::key::Key;

verus! {

/// The failures that the escrow itself reports.
#[derive(Clone, Copy, Debug, PartialEq, Eq, Structural)]
pub enum ErrorCode {
    /// A checked addition or subtraction on the tracked balance left `u64`.
    Overflow,
    /// The signer of a release is not the recorded backend authority.
    Unauthorized,
    /// A deposit or a release of zero units.
    ZeroAmount,
    /// A release of more than the tracked balance.
    InsufficientFunds,
}

/// Why an instruction was refused.
#[derive(Clone, Copy, Debug, PartialEq, Eq, Structural)]
pub enum EscrowError {
    /// One of the escrow's own failures.
    Program(ErrorCode),
    /// An account that Initialize is to create already exists.
    AccountInUse,
    /// The mint handed to Initialize is not initialized.
    MintNotInitialized,
    /// No program address exists for the seeds.
    NoProgramAddress,
    /// An account's address is not the one derived for it.
    AddressMismatch,
    /// The depositor does not own the source token account.
    OwnerMismatch,
    /// Two token accounts hold different mints.
    MintMismatch,
}

/// The escrow record of one initializer.
#[derive(Clone, Copy, Debug)]
pub struct EscrowAccount {
    /// The identity allowed to release funds.
    pub backend_authority: Key,
    /// The identity that created the record; its address derives from it.
    pub initializer: Key,
    /// The tracked balance: units believed to be held in the vault.
    pub amount: u64,
}

/// What the escrow reads of a token account.
#[derive(Clone, Copy, Debug)]
pub struct TokenAccount {
    pub address: Key,
    pub mint: Key,
    pub owner: Key,
}

/// What Initialize reads of the mint.
#[derive(Clone, Copy, Debug)]
pub struct Mint {
    pub address: Key,
    pub is_initialized: bool,
}

/// Who authorizes a transfer out of a token account.
#[derive(Clone, Copy, Debug)]
pub enum Authority {
    /// The account's owner, who signed the instruction.
    Signer(Key),
    /// The escrow record of `initializer`, proved by its seeds
    /// `["escrow", initializer, [bump]]` in place of a signature.
    Escrow { initializer: Key, bump: u8 },
}

/// A transfer of `amount` units that the token ledger is to carry out in the
/// same atomic unit as the instruction that asked for it.
#[derive(Clone, Copy, Debug)]
pub struct TokenTransfer {
    pub from: Key,
    pub to: Key,
    pub authority: Authority,
    pub amount: u64,
}

/// The accounts of Initialize, with whether each account to be created
/// already exists.
#[derive(Clone, Copy, Debug)]
pub struct Initialize {
    pub program_id: Key,
    pub escrow_account: Key,
    pub escrow_in_use: bool,
    pub vault_token_account: Key,
    pub vault_in_use: bool,
    pub usdc_mint: Mint,
    pub initializer: Key,
}

/// What a successful Initialize creates: the record, the vault (its address,
/// its mint, and the escrow record as its authority), and the bumps of the
/// record's and the vault's addresses.
#[derive(Clone, Copy, Debug)]
pub struct Created {
    pub record: EscrowAccount,
    pub vault: TokenAccount,
    pub escrow_bump: u8,
    pub vault_bump: u8,
}

/// The accounts of Deposit.
#[derive(Clone, Copy, Debug)]
pub struct Deposit {
    pub program_id: Key,
    pub escrow_address: Key,
    pub escrow_account: EscrowAccount,
    pub depositor: Key,
    pub depositor_token_account: TokenAccount,
    pub vault_token_account: TokenAccount,
}

/// The accounts of a release.
#[derive(Clone, Copy, Debug)]
pub struct ReleaseFunds {
    pub program_id: Key,
    pub escrow_address: Key,
    pub escrow_account: EscrowAccount,
    pub vault_token_account: TokenAccount,
    pub backend_signer: Key,
    pub recipient_token_account: TokenAccount,
}

/// The tracked balance after a deposit of `amount`.
pub open spec fn credit(balance: u64, amount: u64) -> Result<u64, ErrorCode> {
    if amount == 0 {
        Err(ErrorCode::ZeroAmount)
    } else if balance + amount > u64::MAX {
        Err(ErrorCode::Overflow)
    } else {
        Ok((balance + amount) as u64)
    }
}

/// The tracked balance after a release of `amount`.
pub open spec fn debit(balance: u64, amount: u64) -> Result<u64, ErrorCode> {
    if amount == 0 {
        Err(ErrorCode::ZeroAmount)
    } else if amount > balance {
        Err(ErrorCode::InsufficientFunds)
    } else {
        Ok((balance - amount) as u64)
    }
}

/// The outcome of Initialize: the bumps of the two addresses, or the error.
pub open spec fn initialize_outcome(ctx: Initialize) -> Result<(u8, u8), EscrowError> {
    match escrow_address_of(ctx.program_id@, ctx.initializer@) {
        None => Err(EscrowError::NoProgramAddress),
        Some((escrow, escrow_bump)) => if escrow != ctx.escrow_account@ {
            Err(EscrowError::AddressMismatch)
        } else if ctx.escrow_in_use {
            Err(EscrowError::AccountInUse)
        } else {
            match vault_address_of(ctx.program_id@, escrow) {
                None => Err(EscrowError::NoProgramAddress),
                Some((vault, vault_bump)) => if vault != ctx.vault_token_account@ {
                    Err(EscrowError::AddressMismatch)
                } else if ctx.vault_in_use {
                    Err(EscrowError::AccountInUse)
                } else if !ctx.usdc_mint.is_initialized {
                    Err(EscrowError::MintNotInitialized)
                } else {
                    Ok((escrow_bump, vault_bump))
                },
            }
        },
    }
}

/// The failure, if any, of Deposit's checks on its accounts.
pub open spec fn deposit_accounts_error(ctx: Deposit) -> Option<EscrowError> {
    if ctx.depositor_token_account.owner@ != ctx.depositor@ {
        Some(EscrowError::OwnerMismatch)
    } else if ctx.depositor_token_account.mint@ != ctx.vault_token_account.mint@ {
        Some(EscrowError::MintMismatch)
    } else {
        match vault_address_of(ctx.program_id@, ctx.escrow_address@) {
            None => Some(EscrowError::NoProgramAddress),
            Some((vault, _)) => if vault != ctx.vault_token_account.address@ {
                Some(EscrowError::AddressMismatch)
            } else {
                None
            },
        }
    }
}

/// The outcome of Deposit: the new tracked balance, or the error.
pub open spec fn deposit_outcome(ctx: Deposit, amount: u64) -> Result<u64, EscrowError> {
    if amount == 0 {
        Err(EscrowError::Program(ErrorCode::ZeroAmount))
    } else {
        match deposit_accounts_error(ctx) {
            Some(e) => Err(e),
            None => match credit(ctx.escrow_account.amount, amount) {
                Ok(b) => Ok(b),
                Err(c) => Err(EscrowError::Program(c)),
            },
        }
    }
}

/// The failure of a release's checks on its accounts, or the bump of the
/// escrow record's address.
pub open spec fn release_accounts_outcome(ctx: ReleaseFunds) -> Result<u8, EscrowError> {
    if ctx.recipient_token_account.mint@ != ctx.vault_token_account.mint@ {
        Err(EscrowError::MintMismatch)
    } else {
        match escrow_address_of(ctx.program_id@, ctx.escrow_account.initializer@) {
            None => Err(EscrowError::NoProgramAddress),
            Some((escrow, bump)) => if escrow != ctx.escrow_address@ {
                Err(EscrowError::AddressMismatch)
            } else {
                match vault_address_of(ctx.program_id@, escrow) {
                    None => Err(EscrowError::NoProgramAddress),
                    Some((vault, _)) => if vault != ctx.vault_token_account.address@ {
                        Err(EscrowError::AddressMismatch)
                    } else {
                        Ok(bump)
                    },
                }
            },
        }
    }
}

/// The outcome of a release: the new tracked balance and the bump of the
/// escrow record's address, or the error.
pub open spec fn release_outcome(ctx: ReleaseFunds, amount: u64) -> Result<(u64, u8), EscrowError> {
    if ctx.backend_signer@ != ctx.escrow_account.backend_authority@ {
        Err(EscrowError::Program(ErrorCode::Unauthorized))
    } else if amount == 0 {
        Err(EscrowError::Program(ErrorCode::ZeroAmount))
    } else {
        match debit(ctx.escrow_account.amount, amount) {
            Err(c) => Err(EscrowError::Program(c)),
            Ok(b) => match release_accounts_outcome(ctx) {
                Err(e) => Err(e),
                Ok(bump) => Ok((b, bump)),
            },
        }
    }
}

impl Deposit {
    /// These accounts with the record's tracked balance set to `balance`.
    pub open spec fn with_balance(self, balance: u64) -> Deposit {
        Deposit { escrow_account: EscrowAccount { amount: balance, ..self.escrow_account }, ..self }
    }
}

impl ReleaseFunds {
    /// These accounts with the record's tracked balance set to `balance`.
    pub open spec fn with_balance(self, balance: u64) -> ReleaseFunds {
        ReleaseFunds {
            escrow_account: EscrowAccount { amount: balance, ..self.escrow_account },
            ..self
        }
    }
}

/// Creates the escrow record of `ctx.initializer` with `backend_authority` and
/// a tracked balance of zero, and describes its vault: a token account of the
/// given mint at the derived vault address, whose authority is the escrow
/// record. Before that it checks that both addresses are the
/// derived ones, that neither account exists yet, and that the mint is
/// initialized.
pub fn initialize(ctx: &Initialize, backend_authority: Key) -> (r: Result<Created, EscrowError>)
    ensures
        match initialize_outcome(*ctx) {
            Ok((escrow_bump, vault_bump)) => r == Ok::<Created, EscrowError>(
                (Created {
                    record: EscrowAccount {
                        backend_authority,
                        initializer: ctx.initializer,
                        amount: 0,
                    },
                    vault: TokenAccount {
                        address: ctx.vault_token_account,
                        mint: ctx.usdc_mint.address,
                        owner: ctx.escrow_account,
                    },
                    escrow_bump,
                    vault_bump,
                }),
            ),
            Err(e) => r == Err::<Created, EscrowError>(e),
        },
{
    let (escrow, escrow_bump) = match escrow_address(&ctx.program_id, &ctx.initializer) {
        None => return Err(EscrowError::NoProgramAddress),
        Some(found) => found,
    };
    if !(escrow == ctx.escrow_account) {
        return Err(EscrowError::AddressMismatch);
    }
    if ctx.escrow_in_use {
        return Err(EscrowError::AccountInUse);
    }
    let (vault, vault_bump) = match vault_address(&ctx.program_id, &escrow) {
        None => return Err(EscrowError::NoProgramAddress),
        Some(found) => found,
    };
    if !(vault == ctx.vault_token_account) {
        return Err(EscrowError::AddressMismatch);
    }
    if ctx.vault_in_use {
        return Err(EscrowError::AccountInUse);
    }
    if !ctx.usdc_mint.is_initialized {
        return Err(EscrowError::MintNotInitialized);
    }
    let record = EscrowAccount { backend_authority, initializer: ctx.initializer, amount: 0 };
    let vault = TokenAccount {
        address: ctx.vault_token_account,
        mint: ctx.usdc_mint.address,
        owner: ctx.escrow_account,
    };
    Ok(Created { record, vault, escrow_bump, vault_bump })
}

/// Deposits `amount` units: checks the amount and the accounts, adds the
/// amount to the tracked balance, and returns the transfer from the
/// depositor's token account to the vault, signed by the depositor. On any
/// failure the accounts are left as they were and no transfer is asked for.
pub fn deposit(ctx: &mut Deposit, amount: u64) -> (r: Result<TokenTransfer, EscrowError>)
    ensures
        match deposit_outcome(*old(ctx), amount) {
            Ok(balance) => {
                &&& *final(ctx) == old(ctx).with_balance(balance)
                &&& r == Ok::<TokenTransfer, EscrowError>(
                    (TokenTransfer {
                        from: old(ctx).depositor_token_account.address,
                        to: old(ctx).vault_token_account.address,
                        authority: Authority::Signer(old(ctx).depositor),
                        amount,
                    }),
                )
            },
            Err(e) => *final(ctx) == *old(ctx) && r == Err::<TokenTransfer, EscrowError>(e),
        },
{
    if amount == 0 {
        return Err(EscrowError::Program(ErrorCode::ZeroAmount));
    }
    if !(ctx.depositor_token_account.owner == ctx.depositor) {
        return Err(EscrowError::OwnerMismatch);
    }
    if !(ctx.depositor_token_account.mint == ctx.vault_token_account.mint) {
        return Err(EscrowError::MintMismatch);
    }
    let (vault, _) = match vault_address(&ctx.program_id, &ctx.escrow_address) {
        None => return Err(EscrowError::NoProgramAddress),
        Some(found) => found,
    };
    if !(vault == ctx.vault_token_account.address) {
        return Err(EscrowError::AddressMismatch);
    }
    let balance = match ctx.escrow_account.amount.checked_add(amount) {
        None => return Err(EscrowError::Program(ErrorCode::Overflow)),
        Some(sum) => sum,
    };
    ctx.escrow_account.amount = balance;
    Ok(
        TokenTransfer {
            from: ctx.depositor_token_account.address,
            to: ctx.vault_token_account.address,
            authority: Authority::Signer(ctx.depositor),
            amount,
        },
    )
}

/// Releases `amount` units to the recipient: checks that the signer is the
/// backend authority, then the amount, the tracked balance and the accounts,
/// takes the amount off the tracked balance, and returns the transfer from the
/// vault to the recipient, authorized by the escrow record's seeds. On any
/// failure the accounts are left as they were and no transfer is asked for.
pub fn release_funds(ctx: &mut ReleaseFunds, amount: u64) -> (r: Result<TokenTransfer, EscrowError>)
    ensures
        match release_outcome(*old(ctx), amount) {
            Ok((balance, bump)) => {
                &&& *final(ctx) == old(ctx).with_balance(balance)
                &&& r == Ok::<TokenTransfer, EscrowError>(
                    (TokenTransfer {
                        from: old(ctx).vault_token_account.address,
                        to: old(ctx).recipient_token_account.address,
                        authority: Authority::Escrow {
                            initializer: old(ctx).escrow_account.initializer,
                            bump,
                        },
                        amount,
                    }),
                )
            },
            Err(e) => *final(ctx) == *old(ctx) && r == Err::<TokenTransfer, EscrowError>(e),
        },
{
    if !(ctx.backend_signer == ctx.escrow_account.backend_authority) {
        return Err(EscrowError::Program(ErrorCode::Unauthorized));
    }
    if amount == 0 {
        return Err(EscrowError::Program(ErrorCode::ZeroAmount));
    }
    if ctx.escrow_account.amount < amount {
        return Err(EscrowError::Program(ErrorCode::InsufficientFunds));
    }
    if !(ctx.recipient_token_account.mint == ctx.vault_token_account.mint) {
        return Err(EscrowError::MintMismatch);
    }
    let (escrow, bump) = match escrow_address(&ctx.program_id, &ctx.escrow_account.initializer) {
        None => return Err(EscrowError::NoProgramAddress),
        Some(found) => found,
    };
    if !(escrow == ctx.escrow_address) {
        return Err(EscrowError::AddressMismatch);
    }
    let (vault, _) = match vault_address(&ctx.program_id, &escrow) {
        None => return Err(EscrowError::NoProgramAddress),
        Some(found) => found,
    };
    if !(vault == ctx.vault_token_account.address) {
        return Err(EscrowError::AddressMismatch);
    }
    let balance = match ctx.escrow_account.amount.checked_sub(amount) {
        None => return Err(EscrowError::Program(ErrorCode::Overflow)),
        Some(rest) => rest,
    };
    ctx.escrow_account.amount = balance;
    Ok(
        TokenTransfer {
            from: ctx.vault_token_account.address,
            to: ctx.recipient_token_account.address,
            authority: Authority::Escrow { initializer: ctx.escrow_account.initializer, bump },
            amount,
        },
    )
}

} // verus!
