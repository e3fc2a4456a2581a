//! The operations a caller can invoke. Each one checks the caller's role and
//! the record's state, then updates the records and the balances it moves
//! lamports between; on any error nothing is changed.
use vstd::prelude::*;

use crate::clock::Clock;
use crate::draw::random_mod_of;
use crate::errors::SPError;
use crate::pubkey::{contains_key, keys_equal, Pubkey};
use crate::state::{created, outcome, Lottery, LotteryState, LotteryView, Vault};

verus! {

/// The balance under which the vault may not fall: the storage reserve that
/// keeps its account alive.
pub const RENT_RESERVE: u64 = 1398960;

pub open spec fn withdraw_error(vault: Vault, signer: Pubkey, amount: u64, balance: u64) -> Option<
    SPError,
> {
    if signer != vault.withdrawer {
        Some(SPError::InvalidWithdrawer)
    } else if amount == 0 {
        Some(SPError::InvalidWithdrawAmount)
    } else if amount > balance {
        Some(SPError::InsufficientFunds)
    } else if balance - amount < RENT_RESERVE {
        Some(SPError::CannotWithdrawRent)
    } else {
        None
    }
}

/// The record once `buyer` has joined it.
pub open spec fn joined(l: LotteryView, buyer: Pubkey) -> LotteryView {
    LotteryView { participants: l.participants.push(buyer), state: LotteryState::InProgress, ..l }
}

/// Whether the ticket sold to `buyer` is the last one.
pub open spec fn fills(l: LotteryView) -> bool {
    l.participants.len() + 1 == l.max_tickets
}

/// The record after a successful purchase by `buyer` at `clock`: a purchase
/// that fills the last slot also draws the winner.
pub open spec fn bought(l: LotteryView, buyer: Pubkey, clock: Clock) -> LotteryView {
    if fills(l) {
        joined(l, buyer).drawn(random_mod_of((l.participants.len() + 1) as u64, clock)->Some_0)
    } else {
        joined(l, buyer)
    }
}

pub open spec fn buy_ticket_error(l: LotteryView, buyer: Pubkey, balance: u64, clock: Clock) -> Option<
    SPError,
> {
    let now = clock.unix_timestamp;
    if now < l.start_time {
        Some(SPError::LotteryNotStarted)
    } else if !(l.state != LotteryState::Ended && now < l.end_time) {
        Some(SPError::LotteryEnded)
    } else if l.participants.len() > l.max_tickets {
        Some(SPError::LotteryFull)
    } else if l.participants.contains(buyer) {
        Some(SPError::AlreadyParticipated)
    } else if balance < l.ticket_price {
        Some(SPError::InsufficientFunds)
    } else {
        None
    }
}

/// The pool that a claim drains: the ticket price times the tickets sold.
pub open spec fn pool_of(l: LotteryView) -> int {
    l.ticket_price * l.participants.len()
}

pub open spec fn claim_error(l: LotteryView, winner: Pubkey, pool_balance: u64) -> Option<SPError> {
    match l.get_prize_error(winner) {
        Some(e) => Some(e),
        None => if pool_balance < pool_of(l) {
            Some(SPError::InsufficientFunds)
        } else {
            None
        },
    }
}

/// The record after its prize has been paid out.
pub open spec fn claimed(l: LotteryView) -> LotteryView {
    LotteryView { claimable: false, ..l }
}

pub open spec fn reset_error(
    l: LotteryView,
    vault: Vault,
    signer: Pubkey,
    winner: Option<Pubkey>,
    start: u64,
    end: u64,
    pool_balance: u64,
) -> Option<SPError> {
    if signer != vault.authority {
        Some(SPError::InvalidAuthority)
    } else if l.claimable && (winner is None || winner != l.winner) {
        Some(SPError::InvalidAuthority)
    } else if winner is Some && l.winner is Some && winner != l.winner {
        Some(SPError::InvalidWinner)
    } else if l.participants.len() > 0 && l.state != LotteryState::Ended {
        Some(SPError::LotteryNotEnded)
    } else if l.claimable && claim_error(l, winner->Some_0, pool_balance) is Some {
        claim_error(l, winner->Some_0, pool_balance)
    } else if start >= end {
        Some(SPError::InvalidStartAndEndTime)
    } else {
        None
    }
}

/// The record after a reset at `now` with new offsets `start` and `end`.
pub open spec fn reset_view(l: LotteryView, now: i64, start: u64, end: u64) -> LotteryView {
    LotteryView {
        participants: Seq::empty(),
        winner: None,
        state: LotteryState::NotStarted,
        claimable: false,
        ..l
    }.with_times(now, start, end)
}

/// Creates the vault, with the signer as its authority.
pub fn initialize(vault: &mut Vault, signer: Pubkey, withdrawer: Pubkey, bump: u8) -> (r: Result<
    (),
    SPError,
>)
    ensures
        r is Ok,
        *final(vault) == (Vault { authority: signer, withdrawer, bump }),
{
    vault.init(signer, withdrawer, bump)
}

/// Hands the authority role over; only the authority may.
pub fn set_authority(vault: &mut Vault, signer: Pubkey, authority: Pubkey) -> (r: Result<
    (),
    SPError,
>)
    ensures
        outcome(
            r,
            if signer != old(vault).authority || authority == old(vault).authority {
                Some(SPError::InvalidAuthority)
            } else {
                None
            },
        ),
        r is Err ==> *final(vault) == *old(vault),
        r is Ok ==> *final(vault) == (Vault { authority, ..*old(vault) }),
{
    if !keys_equal(&signer, &vault.authority) {
        return Err(SPError::InvalidAuthority);
    }
    vault.set_authority(authority)
}

/// Hands the withdrawer role over; only the authority may.
pub fn set_withdrawer(vault: &mut Vault, signer: Pubkey, withdrawer: Pubkey) -> (r: Result<
    (),
    SPError,
>)
    ensures
        outcome(
            r,
            if signer != old(vault).authority {
                Some(SPError::InvalidAuthority)
            } else if withdrawer == old(vault).withdrawer {
                Some(SPError::InvalidWithdrawer)
            } else {
                None
            },
        ),
        r is Err ==> *final(vault) == *old(vault),
        r is Ok ==> *final(vault) == (Vault { withdrawer, ..*old(vault) }),
{
    if !keys_equal(&signer, &vault.authority) {
        return Err(SPError::InvalidAuthority);
    }
    vault.set_withdrawer(withdrawer)
}

/// Moves `amount` lamports from the vault to the withdrawer, keeping the
/// vault at or above its reserve; only the withdrawer may.
pub fn withdraw(
    vault: &Vault,
    signer: Pubkey,
    amount: u64,
    vault_lamports: &mut u64,
    withdrawer_lamports: &mut u64,
) -> (r: Result<(), SPError>)
    requires
        *old(vault_lamports) + *old(withdrawer_lamports) <= u64::MAX,
    ensures
        outcome(r, withdraw_error(*vault, signer, amount, *old(vault_lamports))),
        r is Err ==> *final(vault_lamports) == *old(vault_lamports) && *final(withdrawer_lamports)
            == *old(withdrawer_lamports),
        r is Ok ==> *final(vault_lamports) == *old(vault_lamports) - amount
            && *final(withdrawer_lamports) == *old(withdrawer_lamports) + amount,
{
    if !keys_equal(&signer, &vault.withdrawer) {
        return Err(SPError::InvalidWithdrawer);
    }
    if amount == 0 {
        return Err(SPError::InvalidWithdrawAmount);
    }
    let balance: u64 = *vault_lamports;
    if amount > balance {
        return Err(SPError::InsufficientFunds);
    }
    if balance - amount < RENT_RESERVE {
        return Err(SPError::CannotWithdrawRent);
    }
    *vault_lamports = balance - amount;
    *withdrawer_lamports = *withdrawer_lamports + amount;
    Ok(())
}

/// Sets up a lottery record; only the authority may.
pub fn create_lottery(
    vault: &Vault,
    signer: Pubkey,
    lottery: &mut Lottery,
    name: String,
    ticket_price: u64,
    max_tickets: u64,
    start_time_in_secs: u64,
    end_time_in_secs: u64,
    fee: u8,
    bump: u8,
    now: i64,
) -> (r: Result<(), SPError>)
    requires
        LotteryView::times_fit(now, start_time_in_secs, end_time_in_secs),
    ensures
        outcome(
            r,
            if signer != vault.authority {
                Some(SPError::InvalidAuthority)
            } else {
                old(lottery)@.init_error(
                    name@,
                    ticket_price,
                    max_tickets,
                    seq![start_time_in_secs, end_time_in_secs],
                    fee,
                )
            },
        ),
        r is Err ==> final(lottery)@ == old(lottery)@,
        r is Ok ==> final(lottery)@ == created(
            name@,
            ticket_price,
            max_tickets,
            now,
            start_time_in_secs,
            end_time_in_secs,
            fee,
            bump,
        ),
        r is Ok ==> final(lottery).wf(),
{
    if !keys_equal(&signer, &vault.authority) {
        return Err(SPError::InvalidAuthority);
    }
    let time: [u64; 2] = [start_time_in_secs, end_time_in_secs];
    assert(time@ =~= seq![start_time_in_secs, end_time_in_secs]);
    lottery.init(name, ticket_price, max_tickets, time, fee, bump, now)
}

/// Changes a lottery's fee; only the authority may.
pub fn set_fee(vault: &Vault, signer: Pubkey, lottery: &mut Lottery, fee: u8) -> (r: Result<
    (),
    SPError,
>)
    requires
        old(lottery).wf(),
    ensures
        outcome(
            r,
            if signer != vault.authority {
                Some(SPError::InvalidAuthority)
            } else {
                old(lottery)@.set_fee_error(fee)
            },
        ),
        r is Err ==> final(lottery)@ == old(lottery)@,
        r is Ok ==> final(lottery)@ == (LotteryView { fee, ..old(lottery)@ }),
        final(lottery).wf(),
{
    if !keys_equal(&signer, &vault.authority) {
        return Err(SPError::InvalidAuthority);
    }
    lottery.set_fee(fee)
}

/// Changes a lottery's ticket price; only the authority may.
pub fn set_ticket_price(
    vault: &Vault,
    signer: Pubkey,
    lottery: &mut Lottery,
    ticket_price: u64,
) -> (r: Result<(), SPError>)
    requires
        old(lottery).wf(),
    ensures
        outcome(
            r,
            if signer != vault.authority {
                Some(SPError::InvalidAuthority)
            } else {
                old(lottery)@.set_ticket_price_error(ticket_price)
            },
        ),
        r is Err ==> final(lottery)@ == old(lottery)@,
        r is Ok ==> final(lottery)@ == (LotteryView { ticket_price, ..old(lottery)@ }),
        final(lottery).wf(),
{
    if !keys_equal(&signer, &vault.authority) {
        return Err(SPError::InvalidAuthority);
    }
    lottery.set_ticket_price(ticket_price)
}

/// Sets a lottery's sale window from offsets relative to `now`; only the
/// authority may.
pub fn set_time(
    vault: &Vault,
    signer: Pubkey,
    lottery: &mut Lottery,
    start_time_in_secs: u64,
    end_time_in_secs: u64,
    now: i64,
) -> (r: Result<(), SPError>)
    requires
        old(lottery).wf(),
        LotteryView::times_fit(now, start_time_in_secs, end_time_in_secs),
    ensures
        outcome(
            r,
            if signer != vault.authority {
                Some(SPError::InvalidAuthority)
            } else {
                old(lottery)@.set_time_error(start_time_in_secs, end_time_in_secs)
            },
        ),
        r is Err ==> final(lottery)@ == old(lottery)@,
        r is Ok ==> final(lottery)@ == old(lottery)@.with_times(
            now,
            start_time_in_secs,
            end_time_in_secs,
        ),
        final(lottery).wf(),
{
    if !keys_equal(&signer, &vault.authority) {
        return Err(SPError::InvalidAuthority);
    }
    lottery.set_time(start_time_in_secs, end_time_in_secs, now)
}

/// Sells `buyer` a ticket: the ticket price moves from the buyer's balance to
/// the lottery's, and the buyer joins the participants. The first purchase
/// opens the sale; the purchase that fills the last slot closes it and draws
/// the winner.
pub fn buy_ticket(
    lottery: &mut Lottery,
    buyer: Pubkey,
    buyer_lamports: &mut u64,
    lottery_lamports: &mut u64,
    clock: &Clock,
) -> (r: Result<(), SPError>)
    requires
        old(lottery).wf(),
        *old(buyer_lamports) + *old(lottery_lamports) <= u64::MAX,
    ensures
        outcome(r, buy_ticket_error(old(lottery)@, buyer, *old(buyer_lamports), *clock)),
        r is Err ==> final(lottery)@ == old(lottery)@ && *final(buyer_lamports)
            == *old(buyer_lamports) && *final(lottery_lamports) == *old(lottery_lamports),
        r is Ok ==> {
            &&& final(lottery)@ == bought(old(lottery)@, buyer, *clock)
            &&& *final(buyer_lamports) == *old(buyer_lamports) - old(lottery).ticket_price
            &&& *final(lottery_lamports) == *old(lottery_lamports) + old(lottery).ticket_price
        },
        final(lottery).wf(),
{
    let now: i64 = clock.unix_timestamp;
    if now < lottery.start_time {
        return Err(SPError::LotteryNotStarted);
    }
    let open: bool = lottery.state == LotteryState::NotStarted || lottery.state
        == LotteryState::InProgress;
    if !(open && now < lottery.end_time) {
        return Err(SPError::LotteryEnded);
    }
    let max_tickets: u64 = lottery.max_tickets;
    if lottery.participants.len() as u64 > max_tickets {
        return Err(SPError::LotteryFull);
    }
    if contains_key(&lottery.participants, &buyer) {
        return Err(SPError::AlreadyParticipated);
    }
    let price: u64 = lottery.ticket_price;
    if *buyer_lamports < price {
        return Err(SPError::InsufficientFunds);
    }
    let ghost before = lottery@;
    lottery.state = LotteryState::InProgress;
    lottery.participants.push(buyer);
    assert(lottery@ == joined(before, buyer));
    if lottery.participants.len() as u64 == max_tickets {
        match lottery.end_lottery(clock) {
            Ok(()) => {},
            Err(e) => return Err(e),
        }
    }
    *buyer_lamports = *buyer_lamports - price;
    *lottery_lamports = *lottery_lamports + price;
    Ok(())
}

/// Closes a sale whose deadline has come or that is full, and draws its
/// winner; anyone may.
pub fn end_lottery(lottery: &mut Lottery, clock: &Clock) -> (r: Result<(), SPError>)
    requires
        old(lottery).wf(),
    ensures
        outcome(r, old(lottery)@.end_lottery_error(*clock)),
        r is Err ==> final(lottery)@ == old(lottery)@,
        r is Ok ==> final(lottery)@ == old(lottery)@.drawn(
            random_mod_of(old(lottery)@.participants.len() as u64, *clock)->Some_0,
        ),
        final(lottery).wf(),
{
    lottery.end_lottery(clock)
}

/// Pays the pool out from the lottery's balance: the prize to the winner and
/// the fee to the vault. Only the winner may, once per draw.
pub fn claim_prize(
    lottery: &mut Lottery,
    signer: Pubkey,
    lottery_lamports: &mut u64,
    winner_lamports: &mut u64,
    vault_lamports: &mut u64,
) -> (r: Result<(), SPError>)
    requires
        old(lottery).wf(),
        *old(lottery_lamports) + *old(winner_lamports) + *old(vault_lamports) <= u64::MAX,
    ensures
        outcome(r, claim_error(old(lottery)@, signer, *old(lottery_lamports))),
        r is Err ==> final(lottery)@ == old(lottery)@ && *final(lottery_lamports)
            == *old(lottery_lamports) && *final(winner_lamports) == *old(winner_lamports)
            && *final(vault_lamports) == *old(vault_lamports),
        r is Ok ==> final(lottery)@ == claimed(old(lottery)@) && *final(lottery_lamports)
            == *old(lottery_lamports) - pool_of(old(lottery)@) && *final(winner_lamports)
            == *old(winner_lamports) + old(lottery)@.prize().0 && *final(vault_lamports)
            == *old(vault_lamports) + old(lottery)@.prize().1,
        final(lottery).wf(),
{
    pay_out(lottery, &signer, lottery_lamports, winner_lamports, vault_lamports)
}

/// Whether `winner` may claim the prize now, from a pool balance of
/// `pool_balance` lamports.
fn check_claim(lottery: &Lottery, winner: &Pubkey, pool_balance: u64) -> (r: Result<(), SPError>)
    requires
        lottery.wf(),
    ensures
        outcome(r, claim_error(lottery@, *winner, pool_balance)),
{
    if !lottery.claimable {
        return Err(SPError::NotClaimable);
    }
    let is_winner: bool = match lottery.winner {
        Some(w) => keys_equal(&w, winner),
        None => false,
    };
    if !is_winner {
        return Err(SPError::InvalidAuthority);
    }
    let count: usize = lottery.participants.len();
    assert((lottery.ticket_price as u128) * (count as u128) <= u128::MAX) by (nonlinear_arith)
        requires
            lottery.ticket_price <= u64::MAX,
            count <= u64::MAX,
    ;
    let pool: u128 = (lottery.ticket_price as u128) * (count as u128);
    if pool > pool_balance as u128 {
        return Err(SPError::InsufficientFunds);
    }
    Ok(())
}

/// The payout that a claim and a reset share.
fn pay_out(
    lottery: &mut Lottery,
    winner: &Pubkey,
    lottery_lamports: &mut u64,
    winner_lamports: &mut u64,
    vault_lamports: &mut u64,
) -> (r: Result<(), SPError>)
    requires
        old(lottery).wf(),
        *old(lottery_lamports) + *old(winner_lamports) + *old(vault_lamports) <= u64::MAX,
    ensures
        outcome(r, claim_error(old(lottery)@, *winner, *old(lottery_lamports))),
        r is Err ==> final(lottery)@ == old(lottery)@ && *final(lottery_lamports)
            == *old(lottery_lamports) && *final(winner_lamports) == *old(winner_lamports)
            && *final(vault_lamports) == *old(vault_lamports),
        r is Ok ==> final(lottery)@ == claimed(old(lottery)@) && *final(lottery_lamports)
            == *old(lottery_lamports) - pool_of(old(lottery)@) && *final(winner_lamports)
            == *old(winner_lamports) + old(lottery)@.prize().0 && *final(vault_lamports)
            == *old(vault_lamports) + old(lottery)@.prize().1,
        final(lottery).wf(),
{
    match check_claim(lottery, winner, *lottery_lamports) {
        Ok(()) => {},
        Err(e) => return Err(e),
    }
    let (prize, fee) = match lottery.get_prize(winner) {
        Ok(split) => split,
        Err(e) => return Err(e),
    };
    *lottery_lamports = *lottery_lamports - (prize + fee);
    *winner_lamports = *winner_lamports + prize;
    *vault_lamports = *vault_lamports + fee;
    lottery.claimable = false;
    Ok(())
}

/// Returns a lottery to `NotStarted` with no participants, for another round
/// under new offsets. A prize not yet claimed is paid to `winner` first. Only
/// the authority may, and only once the sale has ended or before anyone
/// joined.
pub fn reset_lottery(
    vault: &Vault,
    signer: Pubkey,
    lottery: &mut Lottery,
    winner: Option<Pubkey>,
    start_time_in_secs: u64,
    end_time_in_secs: u64,
    now: i64,
    lottery_lamports: &mut u64,
    winner_lamports: &mut u64,
    vault_lamports: &mut u64,
) -> (r: Result<(), SPError>)
    requires
        old(lottery).wf(),
        LotteryView::times_fit(now, start_time_in_secs, end_time_in_secs),
        *old(lottery_lamports) + *old(winner_lamports) + *old(vault_lamports) <= u64::MAX,
    ensures
        outcome(
            r,
            reset_error(
                old(lottery)@,
                *vault,
                signer,
                winner,
                start_time_in_secs,
                end_time_in_secs,
                *old(lottery_lamports),
            ),
        ),
        r is Err ==> final(lottery)@ == old(lottery)@ && *final(lottery_lamports)
            == *old(lottery_lamports) && *final(winner_lamports) == *old(winner_lamports)
            && *final(vault_lamports) == *old(vault_lamports),
        r is Ok ==> final(lottery)@ == reset_view(
            old(lottery)@,
            now,
            start_time_in_secs,
            end_time_in_secs,
        ),
        r is Ok && old(lottery).claimable ==> {
            &&& *final(lottery_lamports) == *old(lottery_lamports) - pool_of(old(lottery)@)
            &&& *final(winner_lamports) == *old(winner_lamports) + old(lottery)@.prize().0
            &&& *final(vault_lamports) == *old(vault_lamports) + old(lottery)@.prize().1
        },
        r is Ok && !old(lottery).claimable ==> *final(lottery_lamports) == *old(lottery_lamports)
            && *final(winner_lamports) == *old(winner_lamports) && *final(vault_lamports)
            == *old(vault_lamports),
        final(lottery).wf(),
{
    if !keys_equal(&signer, &vault.authority) {
        return Err(SPError::InvalidAuthority);
    }
    if lottery.claimable {
        let is_winner: bool = match (winner, lottery.winner) {
            (Some(w), Some(lw)) => keys_equal(&w, &lw),
            _ => false,
        };
        if !is_winner {
            return Err(SPError::InvalidAuthority);
        }
    }
    if let (Some(w), Some(lw)) = (winner, lottery.winner) {
        if !keys_equal(&w, &lw) {
            return Err(SPError::InvalidWinner);
        }
    }
    if lottery.participants.len() > 0 && lottery.state != LotteryState::Ended {
        return Err(SPError::LotteryNotEnded);
    }
    let mut paid_to: Option<Pubkey> = None;
    if lottery.claimable {
        let w = match winner {
            None => return Err(SPError::InvalidAuthority),
            Some(w) => w,
        };
        match check_claim(lottery, &w, *lottery_lamports) {
            Ok(()) => {},
            Err(e) => return Err(e),
        }
        paid_to = Some(w);
    }
    if start_time_in_secs >= end_time_in_secs {
        return Err(SPError::InvalidStartAndEndTime);
    }
    if let Some(w) = paid_to {
        match pay_out(lottery, &w, lottery_lamports, winner_lamports, vault_lamports) {
            Ok(()) => {},
            Err(e) => return Err(e),
        }
    }
    lottery.participants = Vec::new();
    lottery.winner = None;
    lottery.state = LotteryState::NotStarted;
    lottery.start_time = now + start_time_in_secs as i64;
    lottery.end_time = now + end_time_in_secs as i64;
    lottery.claimable = false;
    Ok(())
}

} // verus!
