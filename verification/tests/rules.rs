use escrowfloor::{
    settle_with_price, trader_wins, EscrowAccount, EscrowError, EscrowState, FixedOracle,
    Identity, TensorOracle, Wallet, TIE_BAND,
};

fn pooled(predicted: u64) -> EscrowAccount {
    EscrowAccount {
        held: 40,
        state: EscrowState {
            trader: Identity::new([1u8; 32]),
            counterparty: Some(Identity::new([2u8; 32])),
            collection_id: String::from("c"),
            predicted_floor: predicted,
            expiry_timestamp: 10,
            margin_amount: 20,
            is_initialized: true,
            settled: false,
        },
    }
}

fn winner_for(predicted: u64, observed: u64) -> Identity {
    let creator = Identity::new([1u8; 32]);
    let taker = Identity::new([2u8; 32]);
    let mut escrow = pooled(predicted);
    assert!(escrow.is_well_formed());
    let mut wallet = Wallet { key: creator, balance: 0 };
    match settle_with_price(&mut wallet, &mut escrow, 10, observed) {
        Ok(id) => {
            assert_eq!(id, creator);
            assert_eq!(wallet.balance, 40);
            id
        }
        Err(e) => {
            assert_eq!(e, EscrowError::WinnerMismatch);
            let mut other = Wallet { key: taker, balance: 0 };
            let id = settle_with_price(&mut other, &mut escrow, 10, observed).unwrap();
            assert_eq!(id, taker);
            assert_eq!(other.balance, 40);
            id
        }
    }
}

#[test]
fn tie_band_is_one_hundred() {
    assert_eq!(TIE_BAND, 100);
}

#[test]
fn tie_band_edges() {
    let p: u64 = 5000;
    assert!(trader_wins(p, p));
    assert!(trader_wins(p, p + 1));
    assert!(trader_wins(p, p + 100));
    assert!(!trader_wins(p, p + 101));
    assert!(!trader_wins(p, p + 102));
    assert!(trader_wins(p, p - 1));
    assert!(trader_wins(p, p - 100));
    assert!(trader_wins(p, p - 101));
    assert!(trader_wins(p, 0));
}

#[test]
fn tie_band_across_whole_band() {
    let p: u64 = 1_000_000;
    let mut observed = p - 100;
    while observed <= p + 100 {
        assert!(trader_wins(p, observed));
        observed += 1;
    }
}

#[test]
fn tie_band_at_the_ends_of_the_range() {
    assert!(trader_wins(0, 0));
    assert!(trader_wins(0, 100));
    assert!(!trader_wins(0, 101));
    assert!(!trader_wins(0, u64::MAX));
    assert!(trader_wins(u64::MAX, 0));
    assert!(trader_wins(u64::MAX, u64::MAX));
    assert!(trader_wins(u64::MAX - 50, u64::MAX));
    assert!(trader_wins(u64::MAX - 100, u64::MAX));
    assert!(!trader_wins(u64::MAX - 101, u64::MAX));
    assert!(trader_wins(50, 0));
    assert!(trader_wins(50, 150));
    assert!(!trader_wins(50, 151));
    // Values on either side of the signed 64-bit boundary.
    assert!(!trader_wins(1, 1u64 << 63));
    assert!(trader_wins(1u64 << 63, 1));
    assert!(trader_wins((1u64 << 63) - 1, (1u64 << 63) + 99));
    assert!(!trader_wins((1u64 << 63) - 1, (1u64 << 63) + 100));
}

#[test]
fn settlement_awards_by_tie_band() {
    let creator = Identity::new([1u8; 32]);
    let taker = Identity::new([2u8; 32]);
    assert_eq!(winner_for(5000, 4900), creator);
    assert_eq!(winner_for(5000, 5000), creator);
    assert_eq!(winner_for(5000, 5100), creator);
    assert_eq!(winner_for(5000, 5101), taker);
    assert_eq!(winner_for(5000, 4899), creator);
    assert_eq!(winner_for(5000, 0), creator);
    assert_eq!(winner_for(5000, u64::MAX), taker);
}

#[test]
fn identities_compare_by_all_bytes() {
    let a = Identity::new([5u8; 32]);
    let mut bytes = [5u8; 32];
    assert!(a.same_as(&Identity::new(bytes)));
    assert_eq!(a.to_bytes(), bytes);
    bytes[31] = 6;
    assert!(!a.same_as(&Identity::new(bytes)));
    bytes[31] = 5;
    bytes[0] = 0;
    assert!(!a.same_as(&Identity::new(bytes)));
    assert!(a.same_as(&a));
    assert_ne!(a, Identity::new(bytes));
}

#[test]
fn fixed_oracle_replies() {
    assert_eq!(FixedOracle::reporting(10_000_000_000).get_floor_price("any"), Ok(10_000_000_000));
    assert_eq!(FixedOracle::reporting(0).get_floor_price(""), Ok(0));
    assert_eq!(
        FixedOracle::unavailable().get_floor_price("any"),
        Err(EscrowError::OracleUnavailable)
    );
}

#[test]
fn error_messages() {
    assert_eq!(EscrowError::AlreadySettled.message(), "Escrow is already settled");
    assert_eq!(EscrowError::NotInitialized.message(), "Escrow is not initialized");
    assert_eq!(EscrowError::Expired.message(), "Escrow has expired");
    assert_eq!(EscrowError::NotExpiredYet.message(), "Escrow has not expired yet");
    assert_eq!(
        EscrowError::NoSecondTrader.message(),
        "No second trader has accepted the escrow"
    );
    assert_eq!(EscrowError::AlreadyAccepted.message(), "Escrow has already been accepted");
    assert_eq!(
        EscrowError::DuplicateEscrow.message(),
        "A live escrow already exists for this trader"
    );
    assert_eq!(
        EscrowError::InsufficientFunds.message(),
        "Insufficient funds to lock the margin"
    );
    assert_eq!(EscrowError::Overflow.message(), "Balance arithmetic overflowed");
    assert_eq!(EscrowError::OracleUnavailable.message(), "Floor price oracle is unavailable");
    assert_eq!(EscrowError::ClockUnavailable.message(), "Clock is unavailable");
    assert_eq!(
        EscrowError::WinnerMismatch.message(),
        "Winner account does not match the winner"
    );
}

#[test]
fn record_size() {
    assert_eq!(EscrowState::LEN, 135);
}

#[test]
fn empty_account_is_well_formed() {
    let account = EscrowAccount::empty();
    assert!(account.is_well_formed());
    assert_eq!(account.held, 0);
    assert_eq!(account.state, EscrowState::empty());
    assert!(!account.state.is_initialized);
    assert!(!account.state.settled);
    assert_eq!(account.state.counterparty, None);
    assert_eq!(account.state.trader, Identity::new([0u8; 32]));
    assert_eq!(account.state.collection_id, "");
}

#[test]
fn well_formedness_ties_held_to_state() {
    let mut account = pooled(5000);
    assert!(account.is_well_formed());
    account.held = 39;
    assert!(!account.is_well_formed());
    account.held = 20;
    assert!(!account.is_well_formed());
    account.state.counterparty = None;
    assert!(account.is_well_formed());
    account.state.settled = true;
    assert!(!account.is_well_formed());
    account.held = 0;
    assert!(account.is_well_formed());
    account.state.settled = false;
    account.state.margin_amount = 0;
    assert!(!account.is_well_formed());
    account.state.is_initialized = false;
    assert!(account.is_well_formed());
    let mut big = pooled(1);
    big.state.margin_amount = u64::MAX;
    big.held = u64::MAX - 1;
    assert!(!big.is_well_formed());
}
