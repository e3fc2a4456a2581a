//! The two persistent records: the vault and the lottery.
use vstd::prelude::*;

use crate::clock::Clock;
use crate::draw::{draw_from_digest, random_mod_of, sha256, timestamp_be_bytes};
use crate::errors::SPError;
use crate::pubkey::{contains_key, keys_equal, Pubkey};

verus! {

/// The longest name a lottery may have, in bytes.
pub const MAX_NAME_LEN: usize = 32;

/// `r` is the outcome that `err` calls for: that error, or success.
pub open spec fn outcome<T>(r: Result<T, SPError>, err: Option<SPError>) -> bool {
    match err {
        Some(e) => r == Err::<T, SPError>(e),
        None => r is Ok,
    }
}

/// The singleton record holding the two roles of the deployment.
#[derive(Debug, Clone, Copy)]
pub struct Vault {
    pub authority: Pubkey,
    pub withdrawer: Pubkey,
    pub bump: u8,
}

impl Vault {
    /// Sets both roles of a freshly created vault.
    pub fn init(&mut self, authority: Pubkey, withdrawer: Pubkey, bump: u8) -> (r: Result<
        (),
        SPError,
    >)
        ensures
            r is Ok,
            *final(self) == (Vault { authority, withdrawer, bump }),
    {
        self.authority = authority;
        self.withdrawer = withdrawer;
        self.bump = bump;
        Ok(())
    }

    /// Hands the authority role to another key; handing it to the current
    /// holder is refused.
    pub fn set_authority(&mut self, authority: Pubkey) -> (r: Result<(), SPError>)
        ensures
            r is Err <==> old(self).authority == authority,
            r is Err ==> r == Err::<(), SPError>(SPError::InvalidAuthority) && *final(self)
                == *old(self),
            r is Ok ==> *final(self) == (Vault { authority, ..*old(self) }),
    {
        if keys_equal(&self.authority, &authority) {
            return Err(SPError::InvalidAuthority);
        }
        self.authority = authority;
        Ok(())
    }

    /// Hands the withdrawer role to another key; handing it to the current
    /// holder is refused.
    pub fn set_withdrawer(&mut self, withdrawer: Pubkey) -> (r: Result<(), SPError>)
        ensures
            r is Err <==> old(self).withdrawer == withdrawer,
            r is Err ==> r == Err::<(), SPError>(SPError::InvalidWithdrawer) && *final(self)
                == *old(self),
            r is Ok ==> *final(self) == (Vault { withdrawer, ..*old(self) }),
    {
        if keys_equal(&self.withdrawer, &withdrawer) {
            return Err(SPError::InvalidWithdrawer);
        }
        self.withdrawer = withdrawer;
        Ok(())
    }
}

/// Where a lottery stands in its cycle.
#[derive(Debug, Clone, Copy, PartialEq, Eq, Structural)]
pub enum LotteryState {
    NotStarted,
    InProgress,
    Ended,
}

/// A lottery record: its sale parameters, its participants and its draw.
pub struct Lottery {
    pub name: String,
    pub participants: Vec<Pubkey>,
    pub winner: Option<Pubkey>,
    pub state: LotteryState,
    pub claimable: bool,
    pub ticket_price: u64,
    pub max_tickets: u64,
    pub start_time: i64,
    pub end_time: i64,
    pub fee: u8,
    pub bump: u8,
}

/// The mathematical value of a lottery record.
pub struct LotteryView {
    pub name: Seq<char>,
    pub participants: Seq<Pubkey>,
    pub winner: Option<Pubkey>,
    pub state: LotteryState,
    pub claimable: bool,
    pub ticket_price: u64,
    pub max_tickets: u64,
    pub start_time: i64,
    pub end_time: i64,
    pub fee: u8,
    pub bump: u8,
}

impl View for Lottery {
    type V = LotteryView;

    open spec fn view(&self) -> LotteryView {
        LotteryView {
            name: self.name@,
            participants: self.participants@,
            winner: self.winner,
            state: self.state,
            claimable: self.claimable,
            ticket_price: self.ticket_price,
            max_tickets: self.max_tickets,
            start_time: self.start_time,
            end_time: self.end_time,
            fee: self.fee,
            bump: self.bump,
        }
    }
}

/// The length in bytes of the UTF-8 encoding of `name`, as `str::len`
/// reports it.
pub open spec fn name_len(name: Seq<char>) -> usize {
    vstd::utf8::encode_utf8(name).len() as usize
}

/// A record as `init` sets it up, with its sale window resolved from offsets
/// `start` and `end` at `now`.
pub open spec fn created(
    name: Seq<char>,
    ticket_price: u64,
    max_tickets: u64,
    now: i64,
    start: u64,
    end: u64,
    fee: u8,
    bump: u8,
) -> LotteryView {
    LotteryView {
        name,
        participants: Seq::empty(),
        winner: None,
        state: LotteryState::NotStarted,
        claimable: false,
        ticket_price,
        max_tickets,
        start_time: (now + start) as i64,
        end_time: (now + end) as i64,
        fee,
        bump,
    }
}

/// The pool of a lottery with `count` tickets sold at `price`, split into the
/// winner's prize and the fee: `(prize, fee_amount)`.
pub open spec fn prize_split(price: u64, count: nat, fee: u8) -> (int, int) {
    let total = price * count;
    let fee_amount = total * fee / 100;
    (total - fee_amount, fee_amount)
}

impl LotteryView {
    /// The invariant that every operation keeps: `wf_parts`, and a sale
    /// that has not ended has a free slot.
    pub open spec fn wf(self) -> bool {
        &&& self.wf_parts()
        &&& (self.state != LotteryState::Ended ==> self.participants.len() < self.max_tickets)
    }

    /// The invariant, but for the free slot of an open sale: it also holds
    /// in the middle of the purchase that takes the last slot.
    pub open spec fn wf_parts(self) -> bool {
        &&& 0 < self.max_tickets
        &&& 0 < self.ticket_price
        &&& self.fee <= 100
        &&& self.start_time < self.end_time
        &&& self.participants.len() <= self.max_tickets
        &&& self.participants.no_duplicates()
        &&& (self.winner is Some <==> self.state == LotteryState::Ended)
        &&& (self.winner matches Some(w) ==> self.participants.contains(w))
        &&& (self.claimable ==> self.state == LotteryState::Ended)
        &&& (self.state == LotteryState::NotStarted ==> self.participants.len() == 0)
        &&& (self.state == LotteryState::InProgress ==> self.participants.len() > 0)
    }

    /// The times that offsets `start` and `end` resolve to at `now` fit.
    pub open spec fn times_fit(now: i64, start: u64, end: u64) -> bool {
        &&& start <= i64::MAX
        &&& end <= i64::MAX
        &&& now + start <= i64::MAX
        &&& now + end <= i64::MAX
    }

    pub open spec fn set_fee_error(self, fee: u8) -> Option<SPError> {
        if self.state != LotteryState::NotStarted {
            Some(SPError::LotteryAlreadyStarted)
        } else if fee > 100 || fee == self.fee {
            Some(SPError::InvalidFee)
        } else {
            None
        }
    }

    pub open spec fn set_ticket_price_error(self, price: u64) -> Option<SPError> {
        if self.state != LotteryState::NotStarted {
            Some(SPError::LotteryAlreadyStarted)
        } else if price == 0 || price == self.ticket_price {
            Some(SPError::InvalidTicketPrice)
        } else {
            None
        }
    }

    pub open spec fn set_time_error(self, start: u64, end: u64) -> Option<SPError> {
        if self.state == LotteryState::InProgress {
            Some(SPError::LotteryAlreadyStarted)
        } else if start >= end {
            Some(SPError::InvalidStartAndEndTime)
        } else {
            None
        }
    }

    /// The record with its times resolved from offsets `start` and `end` at `now`.
    pub open spec fn with_times(self, now: i64, start: u64, end: u64) -> LotteryView {
        LotteryView { start_time: (now + start) as i64, end_time: (now + end) as i64, ..self }
    }

    pub open spec fn init_error(
        self,
        name: Seq<char>,
        price: u64,
        max_tickets: u64,
        time: Seq<u64>,
        fee: u8,
    ) -> Option<SPError> {
        if name_len(name) > MAX_NAME_LEN {
            Some(SPError::InvalidName)
        } else if max_tickets == 0 {
            Some(SPError::InvalidMaxTickets)
        } else if price == 0 || price == self.ticket_price {
            Some(SPError::InvalidTicketPrice)
        } else if time[0] >= time[1] {
            Some(SPError::InvalidStartAndEndTime)
        } else if fee > 100 || fee == self.fee {
            Some(SPError::InvalidFee)
        } else {
            None
        }
    }

    /// Whether the sale is over: its deadline has come or it is full.
    pub open spec fn is_over(self, now: i64) -> bool {
        now >= self.end_time || self.participants.len() == self.max_tickets
    }

    pub open spec fn end_lottery_error(self, clock: Clock) -> Option<SPError> {
        if self.state != LotteryState::InProgress {
            Some(SPError::LotteryNotStarted)
        } else if !self.is_over(clock.unix_timestamp) {
            Some(SPError::LotteryNotEnded)
        } else if self.winner is Some {
            Some(SPError::LotteryAlreadyEnded)
        } else {
            None
        }
    }

    /// The record once the participant at `index` has been drawn.
    pub open spec fn drawn(self, index: u64) -> LotteryView {
        LotteryView {
            winner: Some(self.participants[index as int]),
            state: LotteryState::Ended,
            claimable: true,
            ..self
        }
    }

    pub open spec fn get_prize_error(self, winner: Pubkey) -> Option<SPError> {
        if !self.claimable {
            Some(SPError::NotClaimable)
        } else if self.winner != Some(winner) {
            Some(SPError::InvalidAuthority)
        } else {
            None
        }
    }

    /// The prize and fee that the current pool splits into.
    pub open spec fn prize(self) -> (int, int) {
        prize_split(self.ticket_price, self.participants.len(), self.fee)
    }
}

impl Default for Lottery {
    /// A record as freshly allocated: every field zero or empty.
    fn default() -> (r: Lottery)
        ensures
            r@ == (LotteryView {
                name: Seq::empty(),
                participants: Seq::empty(),
                winner: None,
                state: LotteryState::NotStarted,
                claimable: false,
                ticket_price: 0,
                max_tickets: 0,
                start_time: 0,
                end_time: 0,
                fee: 0,
                bump: 0,
            }),
    {
        Lottery {
            name: String::new(),
            participants: Vec::new(),
            winner: None,
            state: LotteryState::NotStarted,
            claimable: false,
            ticket_price: 0,
            max_tickets: 0,
            start_time: 0,
            end_time: 0,
            fee: 0,
            bump: 0,
        }
    }
}

impl Lottery {
    /// The invariant that every operation keeps.
    pub open spec fn wf(&self) -> bool {
        self@.wf()
    }

    /// Whether the record satisfies the invariant, so that a stored record can
    /// be checked before it is operated on.
    pub fn is_well_formed(&self) -> (r: bool)
        ensures
            r == self.wf(),
    {
        let len: usize = self.participants.len();
        if !(0 < self.max_tickets && 0 < self.ticket_price && self.fee <= 100 && self.start_time
            < self.end_time && (len as u64) <= self.max_tickets) {
            return false;
        }
        let ended: bool = self.state == LotteryState::Ended;
        if self.winner.is_some() != ended || (self.claimable && !ended) {
            return false;
        }
        if self.state == LotteryState::NotStarted && len != 0 {
            return false;
        }
        if self.state == LotteryState::InProgress && len == 0 {
            return false;
        }
        if !ended && (len as u64) >= self.max_tickets {
            return false;
        }
        if let Some(w) = self.winner {
            if !contains_key(&self.participants, &w) {
                return false;
            }
        }
        let mut i: usize = 0;
        while i < len
            invariant
                len == self.participants@.len(),
                i <= len,
                forall|a: int, b: int| 0 <= a < b < len && a < i ==> self.participants@[a]
                    != self.participants@[b],
            decreases len - i,
        {
            let mut j: usize = i + 1;
            while j < len
                invariant
                    len == self.participants@.len(),
                    i < len,
                    i + 1 <= j <= len,
                    forall|a: int, b: int| 0 <= a < b < len && a < i ==> self.participants@[a]
                        != self.participants@[b],
                    forall|b: int| i < b < j ==> self.participants@[i as int] != self.participants@[b],
                decreases len - j,
            {
                if keys_equal(&self.participants[i], &self.participants[j]) {
                    assert(!self.participants@.no_duplicates());
                    return false;
                }
                j = j + 1;
            }
            i = i + 1;
        }
        true
    }

    /// Sets up a freshly allocated record. The parameters go through the same
    /// checks as the setters, against the record's current values.
    pub fn init(
        &mut self,
        name: String,
        ticket_price: u64,
        max_tickets: u64,
        time: [u64; 2],
        fee: u8,
        bump: u8,
        now: i64,
    ) -> (r: Result<(), SPError>)
        requires
            LotteryView::times_fit(now, time[0], time[1]),
        ensures
            outcome(r, old(self)@.init_error(name@, ticket_price, max_tickets, time@, fee)),
            r is Err ==> final(self)@ == old(self)@,
            r is Ok ==> final(self)@ == created(name@, ticket_price, max_tickets, now, time[0], time[1], fee, bump),
            r is Ok ==> final(self).wf(),
    {
        let name_bytes: usize = name.as_str().len();
        assert(name_bytes == name_len(name@));
        if name_bytes > MAX_NAME_LEN {
            return Err(SPError::InvalidName);
        }
        if max_tickets == 0 {
            return Err(SPError::InvalidMaxTickets);
        }
        if ticket_price == 0 || ticket_price == self.ticket_price {
            return Err(SPError::InvalidTicketPrice);
        }
        let start: u64 = time[0];
        let end: u64 = time[1];
        assert(time@[0] == start && time@[1] == end);
        if start >= end {
            return Err(SPError::InvalidStartAndEndTime);
        }
        if fee > 100 || fee == self.fee {
            return Err(SPError::InvalidFee);
        }
        self.name = name;
        self.participants = Vec::new();
        self.winner = None;
        self.state = LotteryState::NotStarted;
        self.claimable = false;
        self.ticket_price = ticket_price;
        self.max_tickets = max_tickets;
        self.start_time = now + start as i64;
        self.end_time = now + end as i64;
        self.fee = fee;
        self.bump = bump;
        Ok(())
    }

    /// Changes the fee, a percentage, before the sale has started.
    pub fn set_fee(&mut self, fee: u8) -> (r: Result<(), SPError>)
        ensures
            outcome(r, old(self)@.set_fee_error(fee)),
            r is Err ==> final(self)@ == old(self)@,
            r is Ok ==> final(self)@ == (LotteryView { fee, ..old(self)@ }),
    {
        if self.state != LotteryState::NotStarted {
            return Err(SPError::LotteryAlreadyStarted);
        }
        if fee > 100 || self.fee == fee {
            return Err(SPError::InvalidFee);
        }
        self.fee = fee;
        Ok(())
    }

    /// Changes the ticket price before the sale has started.
    pub fn set_ticket_price(&mut self, ticket_price: u64) -> (r: Result<(), SPError>)
        ensures
            outcome(r, old(self)@.set_ticket_price_error(ticket_price)),
            r is Err ==> final(self)@ == old(self)@,
            r is Ok ==> final(self)@ == (LotteryView { ticket_price, ..old(self)@ }),
    {
        if self.state != LotteryState::NotStarted {
            return Err(SPError::LotteryAlreadyStarted);
        }
        if ticket_price == 0 || self.ticket_price == ticket_price {
            return Err(SPError::InvalidTicketPrice);
        }
        self.ticket_price = ticket_price;
        Ok(())
    }

    /// Sets the sale window to `[now + start_time, now + end_time)`: the
    /// arguments are offsets from `now`, in seconds.
    pub fn set_time(&mut self, start_time: u64, end_time: u64, now: i64) -> (r: Result<
        (),
        SPError,
    >)
        requires
            LotteryView::times_fit(now, start_time, end_time),
        ensures
            outcome(r, old(self)@.set_time_error(start_time, end_time)),
            r is Err ==> final(self)@ == old(self)@,
            r is Ok ==> final(self)@ == old(self)@.with_times(now, start_time, end_time),
    {
        if self.state == LotteryState::InProgress {
            return Err(SPError::LotteryAlreadyStarted);
        }
        if start_time >= end_time {
            return Err(SPError::InvalidStartAndEndTime);
        }
        self.start_time = now + start_time as i64;
        self.end_time = now + end_time as i64;
        Ok(())
    }

    /// Draws an index among `modulus` candidates from the time and slot of
    /// `clock`; `None` where this clock gives no index.
    pub fn random_mod(modulus: u64, clock: &Clock) -> (r: Option<u64>)
        ensures
            r == random_mod_of(modulus, *clock),
            modulus != 0 ==> r is Some,
            r matches Some(i) ==> i < modulus,
    {
        let bytes = timestamp_be_bytes(clock.unix_timestamp);
        let digest = sha256(&bytes);
        draw_from_digest(&digest, clock.slot, modulus)
    }

    /// Closes the sale once its deadline has come or it is full, and draws
    /// the winner among the participants.
    pub fn end_lottery(&mut self, clock: &Clock) -> (r: Result<(), SPError>)
        requires
            old(self)@.wf_parts(),
        ensures
            outcome(r, old(self)@.end_lottery_error(*clock)),
            r is Err ==> final(self)@ == old(self)@,
            r is Ok ==> final(self)@ == old(self)@.drawn(
                random_mod_of(old(self)@.participants.len() as u64, *clock)->Some_0,
            ),
            r is Ok ==> final(self).wf(),
    {
        let participants: usize = self.participants.len();
        let is_in_progress: bool = self.state == LotteryState::InProgress;
        let is_ended: bool = clock.unix_timestamp >= self.end_time;
        let is_full: bool = participants as u64 == self.max_tickets;
        if !is_in_progress {
            return Err(SPError::LotteryNotStarted);
        }
        if !(is_ended || is_full) {
            return Err(SPError::LotteryNotEnded);
        }
        if self.winner.is_some() {
            return Err(SPError::LotteryAlreadyEnded);
        }
        let index: usize = Self::random_mod(participants as u64, clock).unwrap() as usize;
        self.winner = Some(self.participants[index]);
        self.state = LotteryState::Ended;
        self.claimable = true;
        Ok(())
    }

    /// The prize owed to `winner` and the fee owed to the vault, `(prize,
    /// fee_amount)`: the pool less `fee` percent of it, rounded down, and that
    /// percentage.
    pub fn get_prize(&self, winner: &Pubkey) -> (r: Result<(u64, u64), SPError>)
        requires
            self.wf(),
            self.ticket_price * self.participants@.len() <= u64::MAX,
        ensures
            outcome(r, self@.get_prize_error(*winner)),
            r matches Ok((prize, fee_amount)) ==> prize == self@.prize().0 && fee_amount
                == self@.prize().1,
    {
        if !self.claimable {
            return Err(SPError::NotClaimable);
        }
        let is_winner: bool = match self.winner {
            Some(w) => keys_equal(&w, winner),
            None => false,
        };
        if !is_winner {
            return Err(SPError::InvalidAuthority);
        }
        let participants: u64 = self.participants.len() as u64;
        let total: u64 = self.ticket_price * participants;
        let fee_pct: u64 = self.fee as u64;
        assert((total as int) * (fee_pct as int) / 100 <= total as int) by (nonlinear_arith)
            requires
                fee_pct <= 100,
        ;
        let fee: u64 = ((total as u128) * (fee_pct as u128) / 100) as u64;
        let prize: u64 = total - fee;
        Ok((prize, fee))
    }
}

} // verus!
