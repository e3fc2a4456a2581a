//! Properties of the lottery that hold across operations.
use vstd::prelude::*;

use crate::clock::Clock;
use crate::draw::{draw_of, random_mod_of};
use crate::errors::SPError;
use crate::instructions::{
    bought, buy_ticket_error, claim_error, claimed, fills, pool_of, reset_error, reset_view,
};
use crate::pubkey::Pubkey;
use crate::state::{created, prize_split, LotteryState, LotteryView, Vault};

verus! {

/// A purchase request: the buyer, the buyer's balance, and the clock.
pub type Purchase = (Pubkey, u64, Clock);

/// The record after a run of purchase requests, each applied when it succeeds
/// and ignored when it fails.
pub open spec fn after_purchases(l: LotteryView, buys: Seq<Purchase>) -> LotteryView
    decreases buys.len(),
{
    if buys.len() == 0 {
        l
    } else {
        let (buyer, balance, clock) = buys.last();
        let before = after_purchases(l, buys.drop_last());
        if buy_ticket_error(before, buyer, balance, clock) is None {
            bought(before, buyer, clock)
        } else {
            before
        }
    }
}

/// Among one or more candidates a draw always yields an index, and the index
/// is one of them.
pub proof fn lemma_draw_in_range(h: u64, slot: u64, modulus: u64)
    ensures
        modulus != 0 ==> draw_of(h, slot, modulus) is Some,
        draw_of(h, slot, modulus) matches Some(i) ==> i < modulus,
{
    if modulus != 0 {
        let n = h.wrapping_sub(crate::draw::HASH_BIAS) as int / crate::draw::SEED_MODULUS as int;
        let seed = (n * slot as int) % crate::draw::SEED_MODULUS as int;
        assert(0 <= seed) by (nonlinear_arith)
            requires
                n >= 0,
                slot >= 0,
                seed == (n * slot as int) % crate::draw::SEED_MODULUS as int,
        ;
        assert(seed % (modulus as int) < (modulus as int)) by (nonlinear_arith)
            requires
                modulus > 0,
                seed >= 0,
        ;
    }
}

/// A successful purchase keeps the record's invariant.
pub proof fn law_purchase_keeps_invariant(l: LotteryView, buyer: Pubkey, balance: u64, clock: Clock)
    requires
        l.wf(),
        buy_ticket_error(l, buyer, balance, clock) is None,
    ensures
        bought(l, buyer, clock).wf(),
{
    lemma_draw_in_range(
        crate::draw::le_u64_of(crate::draw::sha256_of(crate::draw::be_bytes_of(clock.unix_timestamp))),
        clock.slot,
        (l.participants.len() + 1) as u64,
    );
    let j = l.participants.push(buyer);
    assert(j.no_duplicates()) by {
        assert forall|a: int, b: int| 0 <= a < b < j.len() implies j[a] != j[b] by {
            if b == j.len() - 1 {
                assert(l.participants.contains(j[a]) ==> j[a] != buyer);
                assert(l.participants[a] == j[a]);
            } else {
                assert(l.participants[a] == j[a] && l.participants[b] == j[b]);
            }
        }
    }
    if fills(l) {
        let i = random_mod_of((l.participants.len() + 1) as u64, clock)->Some_0;
        assert(j.contains(j[i as int]));
    } else {
        assert(l.winner is None);
    }
}

/// Whatever run of purchases a well-formed record meets, its participants
/// stay distinct and never outnumber its tickets.
pub proof fn law_purchases_keep_participants_unique_and_bounded(l: LotteryView, buys: Seq<Purchase>)
    requires
        l.wf(),
    ensures
        after_purchases(l, buys).wf(),
        after_purchases(l, buys).max_tickets == l.max_tickets,
        after_purchases(l, buys).participants.no_duplicates(),
        after_purchases(l, buys).participants.len() <= l.max_tickets,
    decreases buys.len(),
{
    if buys.len() > 0 {
        law_purchases_keep_participants_unique_and_bounded(l, buys.drop_last());
        let (buyer, balance, clock) = buys.last();
        let before = after_purchases(l, buys.drop_last());
        if buy_ticket_error(before, buyer, balance, clock) is None {
            law_purchase_keeps_invariant(before, buyer, balance, clock);
        }
    }
}

/// On a freshly created lottery, whatever run of purchases follows, the
/// participants stay distinct and never outnumber the tickets.
pub proof fn law_fresh_lottery_purchases_stay_bounded(
    name: Seq<char>,
    ticket_price: u64,
    max_tickets: u64,
    now: i64,
    start: u64,
    end: u64,
    fee: u8,
    bump: u8,
    buys: Seq<Purchase>,
)
    requires
        LotteryView::times_fit(now, start, end),
        0 < max_tickets,
        0 < ticket_price,
        fee <= 100,
        start < end,
    ensures
        after_purchases(created(name, ticket_price, max_tickets, now, start, end, fee, bump), buys).participants.no_duplicates(),
        after_purchases(created(name, ticket_price, max_tickets, now, start, end, fee, bump), buys).participants.len() <= max_tickets,
{
    let l = created(name, ticket_price, max_tickets, now, start, end, fee, bump);
    assert(l.participants.no_duplicates());
    law_purchases_keep_participants_unique_and_bounded(l, buys);
}

/// A purchase before the sale opens fails with `LotteryNotStarted`; one at or
/// after the deadline of a running sale fails with `LotteryEnded`.
pub proof fn law_purchase_outside_window_fails(
    l: LotteryView,
    buyer: Pubkey,
    balance: u64,
    clock: Clock,
)
    requires
        l.wf(),
    ensures
        clock.unix_timestamp < l.start_time ==> buy_ticket_error(l, buyer, balance, clock) == Some(
            SPError::LotteryNotStarted,
        ),
        l.state == LotteryState::InProgress && clock.unix_timestamp >= l.end_time
            ==> buy_ticket_error(l, buyer, balance, clock) == Some(SPError::LotteryEnded),
{
}

/// The purchase that takes the last slot ends the sale and draws a winner in
/// the same call; and a full record has always ended.
pub proof fn law_last_ticket_ends_sale(l: LotteryView, buyer: Pubkey, balance: u64, clock: Clock)
    requires
        l.wf(),
    ensures
        buy_ticket_error(l, buyer, balance, clock) is None && fills(l) ==> {
            &&& bought(l, buyer, clock).participants.len() == l.max_tickets
            &&& bought(l, buyer, clock).state == LotteryState::Ended
            &&& bought(l, buyer, clock).winner is Some
        },
        l.participants.len() == l.max_tickets ==> l.state == LotteryState::Ended && l.winner is Some,
{
}

/// A running sale whose deadline has come, or that is full, and that has no
/// winner yet can always be closed, and the winner drawn is a participant.
pub proof fn law_closing_draws_a_participant(l: LotteryView, clock: Clock)
    requires
        l.wf(),
        l.state == LotteryState::InProgress,
        l.is_over(clock.unix_timestamp),
        l.winner is None,
    ensures
        l.end_lottery_error(clock) is None,
        random_mod_of(l.participants.len() as u64, clock) is Some,
        l.participants.contains(
            l.drawn(random_mod_of(l.participants.len() as u64, clock)->Some_0).winner->Some_0,
        ),
{
    lemma_draw_in_range(
        crate::draw::le_u64_of(crate::draw::sha256_of(crate::draw::be_bytes_of(clock.unix_timestamp))),
        clock.slot,
        l.participants.len() as u64,
    );
    let i = random_mod_of(l.participants.len() as u64, clock)->Some_0;
    assert(l.participants.contains(l.participants[i as int]));
}

/// Once a prize has been claimed, claiming it again fails with `NotClaimable`.
pub proof fn law_second_claim_fails(l: LotteryView, winner: Pubkey, balance: u64, again: Pubkey, balance_again: u64)
    requires
        claim_error(l, winner, balance) is None,
    ensures
        claim_error(claimed(l), again, balance_again) == Some(SPError::NotClaimable),
{
}

/// The prize and the fee add up to the pool exactly, and the fee is the
/// pool's fee percentage rounded down.
pub proof fn law_prize_and_fee_make_up_pool(price: u64, count: nat, fee: u8)
    requires
        fee <= 100,
    ensures
        prize_split(price, count, fee).0 + prize_split(price, count, fee).1 == price * count,
        prize_split(price, count, fee).1 == price * count * fee / 100,
        0 <= prize_split(price, count, fee).1 <= price * count,
{
    let total = price * count;
    assert(0 <= total * fee / 100 <= total) by (nonlinear_arith)
        requires
            total >= 0,
            0 <= fee <= 100,
    ;
}

/// A claim pays out the whole pool of a well-formed record, split between
/// prize and fee.
pub proof fn law_claim_pays_out_pool(l: LotteryView)
    requires
        l.wf(),
    ensures
        l.prize().0 + l.prize().1 == pool_of(l),
        l.prize().1 == pool_of(l) * l.fee / 100,
{
    law_prize_and_fee_make_up_pool(l.ticket_price, l.participants.len(), l.fee);
}

/// The authority can reset a record that has not started, which takes the new
/// offsets; it cannot reset a running sale that has participants.
pub proof fn law_reset_needs_ended_sale(
    l: LotteryView,
    vault: Vault,
    winner: Option<Pubkey>,
    start: u64,
    end: u64,
    balance: u64,
    now: i64,
)
    requires
        l.wf(),
    ensures
        l.state == LotteryState::NotStarted && start < end ==> {
            &&& reset_error(l, vault, vault.authority, winner, start, end, balance) is None
            &&& reset_view(l, now, start, end) == l.with_times(now, start, end)
        },
        l.state == LotteryState::InProgress && l.participants.len() > 0 ==> reset_error(
            l,
            vault,
            vault.authority,
            winner,
            start,
            end,
            balance,
        ) == Some(SPError::LotteryNotEnded),
{
    if l.state == LotteryState::NotStarted {
        assert(l.participants =~= Seq::<Pubkey>::empty());
    }
}

} // verus!
