use solmarket::swap::{
    initialize_vault, swap_mkn_to_sol, swap_sol_to_mkn, Exchange, SwapError, NATIVE_PER_TOKEN,
};
use solmarket::{AccountId, Transfer};

fn user() -> AccountId {
    AccountId::new([6; 32])
}

#[test]
fn vault_keeps_bump() {
    assert_eq!(initialize_vault(251).bump, 251);
}

#[test]
fn native_to_token_rounds_down() {
    assert_eq!(NATIVE_PER_TOKEN, 10);
    assert_eq!(swap_sol_to_mkn(user(), 9), Err(SwapError::AmountTooSmall));
    assert_eq!(
        swap_sol_to_mkn(user(), 10),
        Ok(Exchange {
            native: Transfer::Deposit { from: user(), amount: 10 },
            token: Transfer::Payout { to: user(), amount: 1 },
        })
    );
    assert_eq!(
        swap_sol_to_mkn(user(), 129),
        Ok(Exchange {
            native: Transfer::Deposit { from: user(), amount: 129 },
            token: Transfer::Payout { to: user(), amount: 12 },
        })
    );
}

#[test]
fn token_to_native_checks_vault() {
    assert_eq!(
        swap_mkn_to_sol(user(), 7, 70),
        Ok(Exchange {
            native: Transfer::Payout { to: user(), amount: 70 },
            token: Transfer::Deposit { from: user(), amount: 7 },
        })
    );
    assert_eq!(swap_mkn_to_sol(user(), 7, 69), Err(SwapError::InsufficientSolInVault));
    assert_eq!(swap_mkn_to_sol(user(), 0, 0).unwrap().native, Transfer::Payout { to: user(), amount: 0 });
}

#[test]
fn token_to_native_overflow() {
    assert_eq!(swap_mkn_to_sol(user(), u64::MAX / 10 + 1, u64::MAX), Err(SwapError::MathOverflow));
    assert!(swap_mkn_to_sol(user(), u64::MAX / 10, u64::MAX).is_ok());
}
