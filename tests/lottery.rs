use sol_pot::clock::Clock;
use sol_pot::draw::{digest_prefix_u64, draw_from_digest, timestamp_be_bytes};
use sol_pot::errors::SPError;
use sol_pot::instructions::{
    buy_ticket, claim_prize, create_lottery, end_lottery, initialize, reset_lottery, set_authority,
    set_fee, set_ticket_price, set_time, set_withdrawer, withdraw, RENT_RESERVE,
};
use sol_pot::pubkey::{contains_key, keys_equal, Pubkey};
use sol_pot::state::{Lottery, LotteryState, Vault};

const NOW: i64 = 1_700_000_000;
const SLOT: u64 = 12345;

fn key(n: u8) -> Pubkey {
    Pubkey::new_from_array([n; 32])
}

fn authority() -> Pubkey {
    key(1)
}

fn vault() -> Vault {
    let mut v = Vault { authority: key(0), withdrawer: key(0), bump: 0 };
    initialize(&mut v, authority(), key(2), 255).unwrap();
    v
}

fn clock_at(t: i64) -> Clock {
    Clock { slot: SLOT, unix_timestamp: t }
}

fn weekly(v: &Vault) -> Lottery {
    let mut l = Lottery::default();
    create_lottery(v, authority(), &mut l, String::from("weekly"), 100, 3, 0, 3600, 10, 254, NOW)
        .unwrap();
    l
}

#[test]
fn create_sets_every_field() {
    let v = vault();
    let l = weekly(&v);
    assert_eq!(l.name, "weekly");
    assert_eq!(l.ticket_price, 100);
    assert_eq!(l.max_tickets, 3);
    assert_eq!(l.start_time, NOW);
    assert_eq!(l.end_time, NOW + 3600);
    assert_eq!(l.fee, 10);
    assert_eq!(l.bump, 254);
    assert_eq!(l.state, LotteryState::NotStarted);
    assert!(l.participants.is_empty());
    assert!(l.winner.is_none());
    assert!(!l.claimable);
}

#[test]
fn three_buyers_fill_and_winner_claims() {
    let v = vault();
    let mut l = weekly(&v);
    let mut pool: u64 = 0;
    let mut balances: [u64; 3] = [1000, 1000, 1000];
    let buyers = [key(10), key(11), key(12)];
    for i in 0..3 {
        let r = buy_ticket(&mut l, buyers[i], &mut balances[i], &mut pool, &clock_at(NOW + 10));
        assert_eq!(r, Ok(()));
    }
    assert_eq!(l.state, LotteryState::Ended);
    assert_eq!(pool, 300);
    assert!(l.claimable);
    let w = l.winner.unwrap();
    let wi = buyers.iter().position(|b| *b == w).unwrap();
    let mut vault_lamports: u64 = RENT_RESERVE;
    let r = claim_prize(&mut l, w, &mut pool, &mut balances[wi], &mut vault_lamports);
    assert_eq!(r, Ok(()));
    assert_eq!(balances[wi], 900 + 270);
    assert_eq!(vault_lamports, RENT_RESERVE + 30);
    assert_eq!(pool, 0);
    assert!(!l.claimable);
    assert_eq!(l.state, LotteryState::Ended);
    assert_eq!(l.participants.len(), 3);
}

#[test]
fn second_claim_is_not_claimable() {
    let v = vault();
    let mut l = weekly(&v);
    let mut pool: u64 = 0;
    let mut balances: [u64; 3] = [1000, 1000, 1000];
    let buyers = [key(10), key(11), key(12)];
    for i in 0..3 {
        buy_ticket(&mut l, buyers[i], &mut balances[i], &mut pool, &clock_at(NOW + 10)).unwrap();
    }
    let w = l.winner.unwrap();
    let mut wl: u64 = 0;
    let mut vl: u64 = 0;
    claim_prize(&mut l, w, &mut pool, &mut wl, &mut vl).unwrap();
    let r = claim_prize(&mut l, w, &mut pool, &mut wl, &mut vl);
    assert_eq!(r, Err(SPError::NotClaimable));
    assert_eq!((wl, vl, pool), (270, 30, 0));
}

#[test]
fn claim_by_someone_else_is_refused() {
    let v = vault();
    let mut l = weekly(&v);
    let mut pool: u64 = 0;
    let mut balances: [u64; 3] = [1000, 1000, 1000];
    let buyers = [key(10), key(11), key(12)];
    for i in 0..3 {
        buy_ticket(&mut l, buyers[i], &mut balances[i], &mut pool, &clock_at(NOW + 10)).unwrap();
    }
    let (mut a, mut b) = (0u64, 0u64);
    let r = claim_prize(&mut l, key(99), &mut pool, &mut a, &mut b);
    assert_eq!(r, Err(SPError::InvalidAuthority));
    let w = l.winner.unwrap();
    let mut short: u64 = 299;
    let r = claim_prize(&mut l, w, &mut short, &mut a, &mut b);
    assert_eq!(r, Err(SPError::InsufficientFunds));
    assert!(l.claimable);
    assert_eq!(short, 299);
}

#[test]
fn same_buyer_twice_is_refused() {
    let v = vault();
    let mut l = weekly(&v);
    let mut pool: u64 = 0;
    let mut bal: u64 = 1000;
    buy_ticket(&mut l, key(10), &mut bal, &mut pool, &clock_at(NOW + 10)).unwrap();
    let r = buy_ticket(&mut l, key(10), &mut bal, &mut pool, &clock_at(NOW + 20));
    assert_eq!(r, Err(SPError::AlreadyParticipated));
    assert_eq!(l.participants.len(), 1);
    assert_eq!(l.state, LotteryState::InProgress);
    assert_eq!((bal, pool), (900, 100));
}

#[test]
fn purchase_before_start_is_refused() {
    let v = vault();
    let mut l = Lottery::default();
    create_lottery(&v, authority(), &mut l, String::from("later"), 5, 2, 60, 120, 1, 0, NOW)
        .unwrap();
    let (mut bal, mut pool) = (100u64, 0u64);
    let r = buy_ticket(&mut l, key(10), &mut bal, &mut pool, &clock_at(NOW + 59));
    assert_eq!(r, Err(SPError::LotteryNotStarted));
    assert_eq!(l.state, LotteryState::NotStarted);
    assert_eq!((bal, pool), (100, 0));
}

#[test]
fn purchase_after_deadline_is_refused() {
    let v = vault();
    let mut l = weekly(&v);
    let (mut bal, mut pool) = (1000u64, 0u64);
    buy_ticket(&mut l, key(10), &mut bal, &mut pool, &clock_at(NOW)).unwrap();
    let mut bal2: u64 = 1000;
    let r = buy_ticket(&mut l, key(11), &mut bal2, &mut pool, &clock_at(NOW + 3600));
    assert_eq!(r, Err(SPError::LotteryEnded));
    assert_eq!(l.participants.len(), 1);
    assert_eq!(bal2, 1000);
}

#[test]
fn first_purchase_after_deadline_leaves_state() {
    let v = vault();
    let mut l = weekly(&v);
    let (mut bal, mut pool) = (1000u64, 0u64);
    let r = buy_ticket(&mut l, key(10), &mut bal, &mut pool, &clock_at(NOW + 4000));
    assert_eq!(r, Err(SPError::LotteryEnded));
    assert_eq!(l.state, LotteryState::NotStarted);
}

#[test]
fn purchase_without_funds_is_refused() {
    let v = vault();
    let mut l = weekly(&v);
    let (mut bal, mut pool) = (99u64, 0u64);
    let r = buy_ticket(&mut l, key(10), &mut bal, &mut pool, &clock_at(NOW + 1));
    assert_eq!(r, Err(SPError::InsufficientFunds));
    assert!(l.participants.is_empty());
    assert_eq!(l.state, LotteryState::NotStarted);
}

#[test]
fn end_lottery_needs_deadline_or_full() {
    let v = vault();
    let mut l = weekly(&v);
    assert_eq!(end_lottery(&mut l, &clock_at(NOW + 5000)), Err(SPError::LotteryNotStarted));
    let (mut bal, mut pool) = (1000u64, 0u64);
    buy_ticket(&mut l, key(10), &mut bal, &mut pool, &clock_at(NOW + 1)).unwrap();
    assert_eq!(end_lottery(&mut l, &clock_at(NOW + 3599)), Err(SPError::LotteryNotEnded));
    assert_eq!(l.state, LotteryState::InProgress);
    assert_eq!(end_lottery(&mut l, &clock_at(NOW + 3600)), Ok(()));
    assert_eq!(l.state, LotteryState::Ended);
    assert!(keys_equal(&l.winner.unwrap(), &key(10)));
    assert!(l.claimable);
    assert_eq!(end_lottery(&mut l, &clock_at(NOW + 3700)), Err(SPError::LotteryNotStarted));
}

#[test]
fn setters_check_their_values() {
    let v = vault();
    let mut l = weekly(&v);
    assert_eq!(set_fee(&v, authority(), &mut l, 101), Err(SPError::InvalidFee));
    assert_eq!(set_fee(&v, authority(), &mut l, 10), Err(SPError::InvalidFee));
    assert_eq!(set_fee(&v, key(9), &mut l, 20), Err(SPError::InvalidAuthority));
    assert_eq!(set_fee(&v, authority(), &mut l, 20), Ok(()));
    assert_eq!(l.fee, 20);
    assert_eq!(set_ticket_price(&v, authority(), &mut l, 0), Err(SPError::InvalidTicketPrice));
    assert_eq!(set_ticket_price(&v, authority(), &mut l, 100), Err(SPError::InvalidTicketPrice));
    assert_eq!(set_ticket_price(&v, authority(), &mut l, 250), Ok(()));
    assert_eq!(l.ticket_price, 250);
    assert_eq!(set_time(&v, authority(), &mut l, 10, 10, NOW), Err(SPError::InvalidStartAndEndTime));
    assert_eq!(set_time(&v, authority(), &mut l, 10, 20, NOW + 5), Ok(()));
    assert_eq!((l.start_time, l.end_time), (NOW + 15, NOW + 25));
}

#[test]
fn setters_refused_once_started() {
    let v = vault();
    let mut l = weekly(&v);
    let (mut bal, mut pool) = (1000u64, 0u64);
    buy_ticket(&mut l, key(10), &mut bal, &mut pool, &clock_at(NOW + 1)).unwrap();
    assert_eq!(set_fee(&v, authority(), &mut l, 20), Err(SPError::LotteryAlreadyStarted));
    assert_eq!(set_ticket_price(&v, authority(), &mut l, 7), Err(SPError::LotteryAlreadyStarted));
    assert_eq!(set_time(&v, authority(), &mut l, 1, 2, NOW), Err(SPError::LotteryAlreadyStarted));
    assert_eq!(l.fee, 10);
    assert_eq!(l.ticket_price, 100);
}

#[test]
fn create_checks_its_parameters() {
    let v = vault();
    let mut l = Lottery::default();
    let long = String::from("abcdefghijklmnopqrstuvwxyz0123456");
    assert_eq!(
        create_lottery(&v, authority(), &mut l, long, 1, 1, 0, 1, 1, 0, NOW),
        Err(SPError::InvalidName)
    );
    let max_name = String::from("abcdefghijklmnopqrstuvwxyz012345");
    assert_eq!(
        create_lottery(&v, key(9), &mut l, String::from("x"), 1, 1, 0, 1, 1, 0, NOW),
        Err(SPError::InvalidAuthority)
    );
    assert_eq!(
        create_lottery(&v, authority(), &mut l, String::from("x"), 1, 0, 0, 1, 1, 0, NOW),
        Err(SPError::InvalidMaxTickets)
    );
    assert_eq!(
        create_lottery(&v, authority(), &mut l, String::from("x"), 0, 1, 0, 1, 1, 0, NOW),
        Err(SPError::InvalidTicketPrice)
    );
    assert_eq!(
        create_lottery(&v, authority(), &mut l, String::from("x"), 1, 1, 5, 5, 1, 0, NOW),
        Err(SPError::InvalidStartAndEndTime)
    );
    assert_eq!(
        create_lottery(&v, authority(), &mut l, String::from("x"), 1, 1, 0, 1, 0, 0, NOW),
        Err(SPError::InvalidFee)
    );
    assert_eq!(
        create_lottery(&v, authority(), &mut l, String::from("x"), 1, 1, 0, 1, 101, 0, NOW),
        Err(SPError::InvalidFee)
    );
    assert_eq!(l.max_tickets, 0);
    assert_eq!(
        create_lottery(&v, authority(), &mut l, max_name, 1, 1, 0, 1, 100, 0, NOW),
        Ok(())
    );
    assert_eq!(l.name.len(), 32);
}

#[test]
fn vault_roles_change_only_to_new_values() {
    let mut v = vault();
    assert_eq!(set_authority(&mut v, authority(), authority()), Err(SPError::InvalidAuthority));
    assert_eq!(set_authority(&mut v, key(9), key(3)), Err(SPError::InvalidAuthority));
    assert_eq!(set_withdrawer(&mut v, authority(), key(2)), Err(SPError::InvalidWithdrawer));
    assert_eq!(set_withdrawer(&mut v, authority(), key(4)), Ok(()));
    assert!(keys_equal(&v.withdrawer, &key(4)));
    assert_eq!(set_authority(&mut v, authority(), key(3)), Ok(()));
    assert!(keys_equal(&v.authority, &key(3)));
    assert_eq!(v.bump, 255);
}

#[test]
fn withdraw_below_reserve_is_refused() {
    let v = vault();
    let mut vl: u64 = RENT_RESERVE + 500;
    let mut wl: u64 = 0;
    let r = withdraw(&v, key(2), 501, &mut vl, &mut wl);
    assert_eq!(r, Err(SPError::CannotWithdrawRent));
    assert_eq!((vl, wl), (RENT_RESERVE + 500, 0));
}

#[test]
fn withdraw_checks_role_and_amount() {
    let v = vault();
    let mut vl: u64 = RENT_RESERVE + 500;
    let mut wl: u64 = 7;
    assert_eq!(withdraw(&v, key(1), 10, &mut vl, &mut wl), Err(SPError::InvalidWithdrawer));
    assert_eq!(withdraw(&v, key(2), 0, &mut vl, &mut wl), Err(SPError::InvalidWithdrawAmount));
    assert_eq!(
        withdraw(&v, key(2), RENT_RESERVE + 501, &mut vl, &mut wl),
        Err(SPError::InsufficientFunds)
    );
    assert_eq!(withdraw(&v, key(2), 500, &mut vl, &mut wl), Ok(()));
    assert_eq!((vl, wl), (RENT_RESERVE, 507));
}

#[test]
fn reset_not_started_takes_new_offsets() {
    let v = vault();
    let mut l = weekly(&v);
    let (mut a, mut b, mut c) = (0u64, 0u64, 0u64);
    let r = reset_lottery(&v, authority(), &mut l, None, 100, 200, NOW + 50, &mut a, &mut b, &mut c);
    assert_eq!(r, Ok(()));
    assert_eq!((l.start_time, l.end_time), (NOW + 150, NOW + 250));
    assert_eq!(l.state, LotteryState::NotStarted);
}

#[test]
fn reset_running_sale_is_refused() {
    let v = vault();
    let mut l = weekly(&v);
    let (mut bal, mut pool) = (1000u64, 0u64);
    buy_ticket(&mut l, key(10), &mut bal, &mut pool, &clock_at(NOW + 1)).unwrap();
    let (mut b, mut c) = (0u64, 0u64);
    let r = reset_lottery(&v, authority(), &mut l, None, 1, 2, NOW, &mut pool, &mut b, &mut c);
    assert_eq!(r, Err(SPError::LotteryNotEnded));
    assert_eq!(l.participants.len(), 1);
    let r = reset_lottery(&v, key(9), &mut l, None, 1, 2, NOW, &mut pool, &mut b, &mut c);
    assert_eq!(r, Err(SPError::InvalidAuthority));
}

#[test]
fn reset_pays_unclaimed_prize() {
    let v = vault();
    let mut l = weekly(&v);
    let mut pool: u64 = 0;
    let mut balances: [u64; 3] = [1000, 1000, 1000];
    let buyers = [key(10), key(11), key(12)];
    for i in 0..3 {
        buy_ticket(&mut l, buyers[i], &mut balances[i], &mut pool, &clock_at(NOW + 10)).unwrap();
    }
    let w = l.winner.unwrap();
    let (mut wl, mut vl) = (0u64, 0u64);
    let loser = if keys_equal(&w, &buyers[0]) { buyers[1] } else { buyers[0] };
    let r = reset_lottery(&v, authority(), &mut l, Some(loser), 1, 2, NOW, &mut pool, &mut wl, &mut vl);
    assert_eq!(r, Err(SPError::InvalidAuthority));
    let r = reset_lottery(&v, authority(), &mut l, None, 1, 2, NOW, &mut pool, &mut wl, &mut vl);
    assert_eq!(r, Err(SPError::InvalidAuthority));
    let r = reset_lottery(&v, authority(), &mut l, Some(w), 2, 2, NOW, &mut pool, &mut wl, &mut vl);
    assert_eq!(r, Err(SPError::InvalidStartAndEndTime));
    assert_eq!((pool, wl, vl), (300, 0, 0));
    let r = reset_lottery(&v, authority(), &mut l, Some(w), 1, 2, NOW, &mut pool, &mut wl, &mut vl);
    assert_eq!(r, Ok(()));
    assert_eq!((pool, wl, vl), (0, 270, 30));
    assert!(l.participants.is_empty());
    assert!(l.winner.is_none());
    assert!(!l.claimable);
    assert_eq!(l.state, LotteryState::NotStarted);
}

#[test]
fn draw_from_digest_follows_the_formula() {
    assert_eq!(draw_from_digest(&[0xff; 32], 12345, 7), Some(0));
    let mut d = [0u8; 32];
    d[7] = 0x10;
    assert_eq!(digest_prefix_u64(&d), 1152921504606846976);
    assert_eq!(draw_from_digest(&d, 1000, 3), Some(2));
    assert_eq!(draw_from_digest(&[0u8; 32], 1000, 3), Some(0));
    assert_eq!(draw_from_digest(&[0u8; 32], 1000, 7), Some(1950 % 7));
    assert_eq!(draw_from_digest(&[0xff; 32], 1000, 0), None);
}

#[test]
fn timestamp_bytes_are_big_endian() {
    assert_eq!(timestamp_be_bytes(0x0102030405060708), [1, 2, 3, 4, 5, 6, 7, 8]);
    assert_eq!(timestamp_be_bytes(-1), [0xff; 8]);
}

#[test]
fn random_mod_hashes_the_timestamp() {
    let clock = clock_at(NOW);
    let digest = anchor_lang::solana_program::hash::hash(&NOW.to_be_bytes()).to_bytes();
    assert_eq!(Lottery::random_mod(5, &clock), draw_from_digest(&digest, SLOT, 5));
    let mut raw = [0u8; 32];
    raw[..8].copy_from_slice(&NOW.to_be_bytes());
    assert_ne!(digest, raw);
}

#[test]
fn get_prize_splits_pool() {
    let mut l = Lottery::default();
    l.name = String::from("p");
    l.participants = vec![key(10), key(11), key(12), key(13)];
    l.winner = Some(key(12));
    l.state = LotteryState::Ended;
    l.claimable = true;
    l.ticket_price = 333;
    l.max_tickets = 4;
    l.start_time = 0;
    l.end_time = 1;
    l.fee = 7;
    assert_eq!(l.get_prize(&key(12)), Ok((1239, 93)));
    assert_eq!(l.get_prize(&key(10)), Err(SPError::InvalidAuthority));
    l.claimable = false;
    assert_eq!(l.get_prize(&key(12)), Err(SPError::NotClaimable));
}

#[test]
fn keys_compare_by_bytes() {
    let mut b = [3u8; 32];
    assert!(keys_equal(&key(3), &Pubkey::new_from_array(b)));
    b[31] = 4;
    assert!(!keys_equal(&key(3), &Pubkey::new_from_array(b)));
    assert_eq!(key(3).to_bytes(), [3u8; 32]);
    let v = vec![key(1), key(2)];
    assert!(contains_key(&v, &key(2)));
    assert!(!contains_key(&v, &key(5)));
}

#[test]
fn error_messages() {
    assert_eq!(SPError::CannotWithdrawRent.message(), "Cannot withdraw rent");
    assert_eq!(SPError::AlreadyParticipated.message(), "Already participated");
}

#[test]
fn well_formed_records() {
    let v = vault();
    let mut l = weekly(&v);
    assert!(l.is_well_formed());
    let (mut bal, mut pool) = (1000u64, 0u64);
    buy_ticket(&mut l, key(10), &mut bal, &mut pool, &clock_at(NOW + 1)).unwrap();
    assert!(l.is_well_formed());
    l.participants.push(key(10));
    assert!(!l.is_well_formed());
    l.participants.pop();
    l.winner = Some(key(10));
    assert!(!l.is_well_formed());
    assert!(!Lottery::default().is_well_formed());
}

#[test]
fn reset_after_claim_with_wrong_winner_is_invalid_winner() {
    let v = vault();
    let mut l = weekly(&v);
    let mut pool: u64 = 0;
    let mut balances: [u64; 3] = [1000, 1000, 1000];
    let buyers = [key(10), key(11), key(12)];
    for i in 0..3 {
        buy_ticket(&mut l, buyers[i], &mut balances[i], &mut pool, &clock_at(NOW + 10)).unwrap();
    }
    let w = l.winner.unwrap();
    let (mut wl, mut vl) = (0u64, 0u64);
    claim_prize(&mut l, w, &mut pool, &mut wl, &mut vl).unwrap();
    let loser = if keys_equal(&w, &buyers[0]) { buyers[1] } else { buyers[0] };
    let r = reset_lottery(&v, authority(), &mut l, Some(loser), 1, 2, NOW, &mut pool, &mut wl, &mut vl);
    assert_eq!(r, Err(SPError::InvalidWinner));
    let r = reset_lottery(&v, authority(), &mut l, None, 1, 2, NOW, &mut pool, &mut wl, &mut vl);
    assert_eq!(r, Ok(()));
    assert!(l.participants.is_empty());
    assert_eq!((wl, vl, pool), (270, 30, 0));
}

#[test]
fn times_resolve_from_a_negative_clock() {
    let v = vault();
    let mut l = Lottery::default();
    create_lottery(&v, authority(), &mut l, String::from("early"), 1, 1, 0, 50, 1, 0, -100)
        .unwrap();
    assert_eq!((l.start_time, l.end_time), (-100, -50));
}

#[test]
fn every_message() {
    let all = [
        (SPError::InvalidAuthority, "Invalid authority"),
        (SPError::InvalidWithdrawer, "Invalid withdrawer"),
        (SPError::InvalidName, "Invalid name"),
        (SPError::InvalidMaxTickets, "Invalid max tickets"),
        (SPError::InvalidTicketPrice, "Invalid ticket price"),
        (SPError::InvalidStartAndEndTime, "Invalid start and end time"),
        (SPError::InvalidFee, "Invalid fee"),
        (SPError::InvalidWithdrawAmount, "Invalid withdraw amount"),
        (SPError::InvalidWinner, "Invalid winner"),
        (SPError::LotteryAlreadyStarted, "Lottery already started"),
        (SPError::LotteryNotStarted, "Lottery not started"),
        (SPError::LotteryAlreadyEnded, "Lottery already ended"),
        (SPError::LotteryNotEnded, "Lottery not ended"),
        (SPError::LotteryFull, "Lottery full"),
        (SPError::AlreadyParticipated, "Already participated"),
        (SPError::LotteryEnded, "Lottery ended"),
        (SPError::NotClaimable, "Not claimable"),
        (SPError::InsufficientFunds, "Insufficient funds"),
        (SPError::CannotWithdrawRent, "Cannot withdraw rent"),
    ];
    for (e, m) in all {
        assert_eq!(e.message(), m);
    }
}
