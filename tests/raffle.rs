use solmarket::raffle::{
    buy_ticket, claim_prize, initialize_raffle, pick_winner, Raffle, RaffleError, Ticket,
};
use solmarket::{AccountId, Transfer};

fn id(n: u8) -> AccountId {
    AccountId::new([n; 32])
}

const MERCHANT: u8 = 1;
const KEY: u8 = 2;

fn open_raffle(price: u64) -> Raffle {
    initialize_raffle(id(MERCHANT), 3, 1000, price, 250)
}

fn sell(r: &mut Raffle, buyers: &[u8]) -> Vec<Ticket> {
    buyers
        .iter()
        .map(|b| {
            let (ticket, paid) = buy_ticket(r, id(KEY), id(*b), 10, 7).unwrap();
            assert_eq!(paid, Transfer::Deposit { from: id(*b), amount: r.ticket_price_lamports });
            ticket
        })
        .collect()
}

#[test]
fn initialize_starts_empty() {
    let r = open_raffle(5);
    assert_eq!(r.tickets_sold, 0);
    assert_eq!(r.winning_ticket_index, None);
    assert!(!r.prize_claimed);
    assert_eq!(r.category, 3);
    assert_eq!(r.end_time_unix, 1000);
}

#[test]
fn ticket_indices_follow_sales() {
    let mut r = open_raffle(5);
    let tickets = sell(&mut r, &[9, 8, 9, 7]);
    let indices: Vec<u64> = tickets.iter().map(|t| t.index).collect();
    assert_eq!(indices, vec![0, 1, 2, 3]);
    assert_eq!(r.tickets_sold, 4);
    assert_eq!(tickets[1].owner, id(8));
    assert_eq!(tickets[1].raffle, id(KEY));
    assert_eq!(tickets[1].bump, 7);
}

#[test]
fn buy_after_end_or_draw_fails() {
    let mut r = open_raffle(5);
    assert_eq!(buy_ticket(&mut r, id(KEY), id(9), 1000, 0), Err(RaffleError::RaffleEnded));
    assert_eq!(r.tickets_sold, 0);
    sell(&mut r, &[9]);
    r.end_time_unix = 20;
    pick_winner(&mut r, 20, 0).unwrap();
    r.end_time_unix = 1000;
    assert_eq!(buy_ticket(&mut r, id(KEY), id(9), 10, 0), Err(RaffleError::WinnerAlreadySelected));
    assert_eq!(r.tickets_sold, 1);
}

#[test]
fn draw_takes_slot_plus_time_modulo_sales() {
    let mut r = open_raffle(5);
    sell(&mut r, &[9, 8, 7]);
    assert_eq!(pick_winner(&mut r, 999, 0), Err(RaffleError::RaffleNotEnded));
    assert_eq!(pick_winner(&mut r, 1000, 17), Ok(()));
    assert_eq!(r.winning_ticket_index, Some((17 + 1000) % 3));
    assert_eq!(pick_winner(&mut r, 1001, 17), Err(RaffleError::WinnerAlreadySelected));
    assert_eq!(r.winning_ticket_index, Some(0));
}

#[test]
fn draw_seed_wraps() {
    let mut r = open_raffle(5);
    sell(&mut r, &[9, 8, 7, 6, 5]);
    r.end_time_unix = -10;
    pick_winner(&mut r, -3, 1).unwrap();
    let seed = 1u64.wrapping_add(-3i64 as u64);
    assert_eq!(r.winning_ticket_index, Some(seed % 5));
    let mut s = open_raffle(5);
    sell(&mut s, &[9, 8, 7]);
    pick_winner(&mut s, 1000, u64::MAX).unwrap();
    assert_eq!(s.winning_ticket_index, Some(u64::MAX.wrapping_add(1000) % 3));
}

#[test]
fn draw_needs_tickets() {
    let mut r = open_raffle(5);
    assert_eq!(pick_winner(&mut r, 1000, 0), Err(RaffleError::NoTicketsSold));
}

#[test]
fn claim_pays_pool_to_merchant() {
    let mut r = open_raffle(25);
    let tickets = sell(&mut r, &[9, 8, 7, 6]);
    assert_eq!(claim_prize(&mut r, &tickets[0], id(9)), Err(RaffleError::WinnerNotSelected));
    pick_winner(&mut r, 1000, 2).unwrap();
    let w = r.winning_ticket_index.unwrap() as usize;
    assert_eq!(w, 2);
    assert_eq!(claim_prize(&mut r, &tickets[1], id(8)), Err(RaffleError::NotTheWinner));
    assert_eq!(claim_prize(&mut r, &tickets[w], id(9)), Err(RaffleError::Unauthorized));
    assert_eq!(
        claim_prize(&mut r, &tickets[w], id(7)),
        Ok(Transfer::Payout { to: id(MERCHANT), amount: 100 })
    );
    assert!(r.prize_claimed);
}

#[test]
fn second_claim_is_refused() {
    let mut r = open_raffle(25);
    let tickets = sell(&mut r, &[9, 8, 7]);
    pick_winner(&mut r, 1000, 0).unwrap();
    let w = r.winning_ticket_index.unwrap() as usize;
    let owner = tickets[w].owner;
    assert!(claim_prize(&mut r, &tickets[w], owner).is_ok());
    assert_eq!(claim_prize(&mut r, &tickets[w], owner), Err(RaffleError::PrizeAlreadyClaimed));
    let other = if w == 0 { 1 } else { 0 };
    assert_eq!(claim_prize(&mut r, &tickets[other], tickets[other].owner), Err(RaffleError::NotTheWinner));
    assert_eq!(claim_prize(&mut r, &tickets[w], id(99)), Err(RaffleError::Unauthorized));
    assert!(r.prize_claimed);
    assert_eq!(r.tickets_sold, 3);
}

#[test]
fn pool_matches_sales_then_empties() {
    let mut r = open_raffle(13);
    let mut pool: i128 = 0;
    let mut tickets = Vec::new();
    for b in [4u8, 5, 6, 4, 4] {
        let (t, paid) = buy_ticket(&mut r, id(KEY), id(b), 999, 0).unwrap();
        if let Transfer::Deposit { amount, .. } = paid {
            pool += amount as i128;
        }
        tickets.push(t);
        assert_eq!(pool, (r.tickets_sold * r.ticket_price_lamports) as i128);
    }
    pick_winner(&mut r, 1000, 3).unwrap();
    let winner = &tickets[r.winning_ticket_index.unwrap() as usize];
    if let Ok(Transfer::Payout { amount, .. }) = claim_prize(&mut r, winner, winner.owner) {
        pool -= amount as i128;
    }
    assert_eq!(pool, 0);
    assert!(claim_prize(&mut r, winner, winner.owner).is_err());
    assert_eq!(pool, 0);
}
