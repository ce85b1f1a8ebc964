use crate::availability_info::AvailabilityInfo;
use crate::bounty::Bounty;
use crate::error::JobBoardError;
use crate::Pubkey;
use vstd::prelude::*;

verus! {

/// Creation succeeds exactly when the pair has no outstanding bounty and the
/// sponsor's balance covers the amount.
pub open spec fn create_bounty_enabled(
    entry: Option<Bounty>,
    sponsor_balance: u64,
    vault_balance: u64,
    amount: u64,
) -> bool {
    &&& entry is None
    &&& amount <= sponsor_balance
    &&& vault_balance + amount <= u64::MAX
}

pub open spec fn create_bounty_err(
    entry: Option<Bounty>,
    sponsor_balance: u64,
    amount: u64,
) -> JobBoardError {
    if entry is Some {
        JobBoardError::BountyAlreadyExists
    } else if amount > sponsor_balance {
        JobBoardError::InsufficientFunds
    } else {
        JobBoardError::BalanceOverflow
    }
}

/// How a successful creation relates the pair's escrow slot and the balances
/// before and after: the record opens unaccepted with the given terms, and
/// exactly `amount` moves from the sponsor's balance into the vault.
pub open spec fn create_bounty_step(
    entry1: Option<Bounty>,
    sponsor_balance0: u64,
    sponsor_balance1: u64,
    vault_balance0: u64,
    vault_balance1: u64,
    sponsor: Pubkey,
    recipient: Pubkey,
    mint: Pubkey,
    slot: u64,
    amount: u64,
) -> bool {
    &&& entry1 == Some(Bounty { sponsor, recipient, mint, amount, slot, accepted: false })
    &&& sponsor_balance1 == sponsor_balance0 - amount
    &&& vault_balance1 == vault_balance0 + amount
}

/// Open the escrow for (sponsor, recipient): record the terms, unaccepted,
/// and lock `amount` units of `mint` from the sponsor's balance into the
/// pair's vault (a fresh vault holds zero). Fails if the pair already has an
/// outstanding bounty, if the sponsor's balance does not cover the amount,
/// or if the vault could not take it; on any error nothing moves. The sum of
/// sponsor balance and vault balance is invariant across the call, whichever
/// way it ends.
pub fn create_bounty(
    entry: &mut Option<Bounty>,
    sponsor_balance: &mut u64,
    vault_balance: &mut u64,
    sponsor: Pubkey,
    recipient: Pubkey,
    mint: Pubkey,
    slot: u64,
    amount: u64,
) -> (res: Result<(), JobBoardError>)
    ensures
        res is Ok <==> create_bounty_enabled(
            *old(entry),
            *old(sponsor_balance),
            *old(vault_balance),
            amount,
        ),
        res is Ok ==> create_bounty_step(
            *final(entry),
            *old(sponsor_balance),
            *final(sponsor_balance),
            *old(vault_balance),
            *final(vault_balance),
            sponsor,
            recipient,
            mint,
            slot,
            amount,
        ),
        *final(sponsor_balance) + *final(vault_balance) == *old(sponsor_balance) + *old(
            vault_balance,
        ),
        res is Err ==> *final(entry) == *old(entry) && *final(sponsor_balance) == *old(
            sponsor_balance,
        ) && *final(vault_balance) == *old(vault_balance),
        res matches Err(e) ==> e == create_bounty_err(*old(entry), *old(sponsor_balance), amount),
{
    if entry.is_some() {
        return Err(JobBoardError::BountyAlreadyExists);
    }
    if amount > *sponsor_balance {
        return Err(JobBoardError::InsufficientFunds);
    }
    if amount > u64::MAX - *vault_balance {
        return Err(JobBoardError::BalanceOverflow);
    }
    *entry = Some(Bounty { sponsor, recipient, mint, amount, slot, accepted: false });
    *sponsor_balance = *sponsor_balance - amount;
    *vault_balance = *vault_balance + amount;
    Ok(())
}

/// Acceptance succeeds exactly when the recipient's balance can take the
/// vault's entire contents without overflowing.
pub open spec fn accept_bounty_enabled(vault_balance: u64, recipient_balance: u64) -> bool {
    recipient_balance + vault_balance <= u64::MAX
}

/// How a successful acceptance relates the bounty, the recipient's record
/// and the balances before and after: the accepted flag is set, the record
/// links to the bounty's key, and the vault's entire balance at call time —
/// exactly — moves to the recipient.
pub open spec fn accept_bounty_step(
    bounty0: Bounty,
    bounty1: Bounty,
    info0: AvailabilityInfo,
    info1: AvailabilityInfo,
    bounty_key: Pubkey,
    vault_balance0: u64,
    vault_balance1: u64,
    recipient_balance0: u64,
    recipient_balance1: u64,
) -> bool {
    &&& bounty1.sponsor == bounty0.sponsor
    &&& bounty1.recipient == bounty0.recipient
    &&& bounty1.mint == bounty0.mint
    &&& bounty1.amount == bounty0.amount
    &&& bounty1.slot == bounty0.slot
    &&& bounty1.accepted == true
    &&& info1.key == info0.key
    &&& info1.leaf_index == info0.leaf_index
    &&& info1.bounty == Some(bounty_key)
    &&& vault_balance1 == 0
    &&& recipient_balance1 == recipient_balance0 + vault_balance0
}

/// Accept by the designated recipient: set the accepted flag, link the
/// recipient's availability record to the bounty's key, and transfer the
/// vault's entire current balance to the recipient at once. Acceptance means
/// the funds have already moved; the unlock time is purely an exclusivity
/// timer gating the recipient's later Set-Available transition. The
/// recipient must hold an availability record, and the surrounding ledger's
/// key derivation ties that record to the bounty's recipient before this
/// logic runs. All-or-nothing: on error nothing changes. The sum of vault
/// balance and recipient balance is invariant across the call.
pub fn accept_bounty(
    bounty: &mut Bounty,
    bounty_key: Pubkey,
    recipient_info: &mut AvailabilityInfo,
    vault_balance: &mut u64,
    recipient_balance: &mut u64,
) -> (res: Result<(), JobBoardError>)
    requires
        old(recipient_info).key@ == old(bounty).recipient@,
    ensures
        res is Ok <==> accept_bounty_enabled(*old(vault_balance), *old(recipient_balance)),
        res is Ok ==> accept_bounty_step(
            *old(bounty),
            *final(bounty),
            *old(recipient_info),
            *final(recipient_info),
            bounty_key,
            *old(vault_balance),
            *final(vault_balance),
            *old(recipient_balance),
            *final(recipient_balance),
        ),
        *final(vault_balance) + *final(recipient_balance) == *old(vault_balance) + *old(
            recipient_balance,
        ),
        res is Err ==> *final(bounty) == *old(bounty) && *final(recipient_info) == *old(
            recipient_info,
        ) && *final(vault_balance) == *old(vault_balance) && *final(recipient_balance) == *old(
            recipient_balance,
        ),
        res matches Err(e) ==> e == JobBoardError::BalanceOverflow,
{
    if *vault_balance > u64::MAX - *recipient_balance {
        return Err(JobBoardError::BalanceOverflow);
    }
    bounty.accepted = true;
    recipient_info.bounty = Some(bounty_key);
    *recipient_balance = *recipient_balance + *vault_balance;
    *vault_balance = 0;
    Ok(())
}

/// Closing succeeds exactly when the sponsor's balance can take the vault's
/// remaining contents without overflowing.
pub open spec fn close_bounty_enabled(vault_balance: u64, sponsor_balance: u64) -> bool {
    sponsor_balance + vault_balance <= u64::MAX
}

/// How a successful close relates the pair's escrow slot and the balances
/// before and after: the vault is drained to the sponsor and the record is
/// gone.
pub open spec fn close_bounty_step(
    entry1: Option<Bounty>,
    vault_balance0: u64,
    vault_balance1: u64,
    sponsor_balance0: u64,
    sponsor_balance1: u64,
) -> bool {
    &&& entry1 is None
    &&& vault_balance1 == 0
    &&& sponsor_balance1 == sponsor_balance0 + vault_balance0
}

/// Close by the sponsor, callable regardless of accepted state: refund
/// whatever the vault still holds (zero after an accept — a no-op transfer,
/// not an error), close the vault, and reclaim the record's storage. Nothing
/// blocks closing an accepted, not-yet-timed-out bounty: the recipient's
/// record then keeps a link to a record that no longer exists — a known gap,
/// surfaced to the timeout gate's caller rather than silently patched here.
/// The sum of vault balance and sponsor balance is invariant across the
/// call.
pub fn close_bounty(
    entry: &mut Option<Bounty>,
    vault_balance: &mut u64,
    sponsor_balance: &mut u64,
) -> (res: Result<(), JobBoardError>)
    requires
        (*old(entry)) is Some,
    ensures
        res is Ok <==> close_bounty_enabled(*old(vault_balance), *old(sponsor_balance)),
        res is Ok ==> close_bounty_step(
            *final(entry),
            *old(vault_balance),
            *final(vault_balance),
            *old(sponsor_balance),
            *final(sponsor_balance),
        ),
        *final(vault_balance) + *final(sponsor_balance) == *old(vault_balance) + *old(
            sponsor_balance,
        ),
        res is Err ==> *final(entry) == *old(entry) && *final(vault_balance) == *old(vault_balance)
            && *final(sponsor_balance) == *old(sponsor_balance),
        res matches Err(e) ==> e == JobBoardError::BalanceOverflow,
{
    if *vault_balance > u64::MAX - *sponsor_balance {
        return Err(JobBoardError::BalanceOverflow);
    }
    *sponsor_balance = *sponsor_balance + *vault_balance;
    *vault_balance = 0;
    *entry = None;
    Ok(())
}

} // verus!
