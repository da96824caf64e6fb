use conditional_pay::escrow::EscrowContract;
use conditional_pay::ledger::{Address, Error, Sequencer, Transfer};

#[test]
fn test_create_and_release_escrow() {
    let custody = Address { id: 1000 };
    let buyer = Address { id: 1 };
    let seller = Address { id: 2 };
    let arbiter = Address { id: 3 };
    let token = Address { id: 77 };

    // The buyer starts with 1000 of the token; balances follow the emitted
    // transfer instructions.
    let mut buyer_bal: i128 = 1000;
    let mut seller_bal: i128 = 0;
    let mut custody_bal: i128 = 0;

    let mut seq = Sequencer::new(0);
    let mut contract = EscrowContract::new(custody);

    let (escrow_id, deposit) = contract
        .create_escrow(&mut seq, buyer, buyer, seller, arbiter, 100, token)
        .unwrap();
    assert_eq!(deposit, Transfer { token, from: buyer, to: custody, amount: 100 });
    buyer_bal -= deposit.amount;
    custody_bal += deposit.amount;

    let escrow = contract.get_escrow(escrow_id).unwrap();
    assert_eq!(escrow.buyer, buyer);
    assert_eq!(escrow.seller, seller);
    assert_eq!(escrow.amount, 100);
    assert_eq!(escrow.released, false);

    let payout = contract.release(buyer, escrow_id).unwrap();
    assert_eq!(payout, Transfer { token, from: custody, to: seller, amount: 100 });
    custody_bal -= payout.amount;
    seller_bal += payout.amount;

    let escrow = contract.get_escrow(escrow_id).unwrap();
    assert_eq!(escrow.released, true);

    assert_eq!(seller_bal, 100);
    assert_eq!(buyer_bal, 900);
    assert_eq!(custody_bal, 0);
}

#[test]
fn test_refund_escrow() {
    let custody = Address { id: 1000 };
    let buyer = Address { id: 1 };
    let seller = Address { id: 2 };
    let arbiter = Address { id: 3 };
    let token = Address { id: 77 };

    let mut buyer_bal: i128 = 1000;
    let initial_buyer_balance: i128 = buyer_bal;
    let mut custody_bal: i128 = 0;

    let mut seq = Sequencer::new(0);
    let mut contract = EscrowContract::new(custody);

    let (escrow_id, deposit) = contract
        .create_escrow(&mut seq, buyer, buyer, seller, arbiter, 100, token)
        .unwrap();
    buyer_bal -= deposit.amount;
    custody_bal += deposit.amount;

    let payout = contract.refund(seller, escrow_id).unwrap();
    custody_bal -= payout.amount;
    buyer_bal += payout.amount;

    let escrow = contract.get_escrow(escrow_id).unwrap();
    assert_eq!(escrow.refunded, true);

    assert_eq!(buyer_bal, initial_buyer_balance);
    assert_eq!(custody_bal, 0);
}

#[test]
fn test_escrow_not_found() {
    let custody = Address { id: 1000 };
    let somebody = Address { id: 4 };
    let mut contract = EscrowContract::new(custody);

    assert_eq!(contract.get_escrow(5).unwrap_err(), Error::NotFound);
    assert_eq!(contract.release(somebody, 5).unwrap_err(), Error::NotFound);
    assert_eq!(contract.refund(somebody, 5).unwrap_err(), Error::NotFound);
}

#[test]
fn test_create_escrow_requires_buyer_authorization() {
    let custody = Address { id: 1000 };
    let buyer = Address { id: 1 };
    let seller = Address { id: 2 };
    let arbiter = Address { id: 3 };
    let token = Address { id: 77 };

    let mut seq = Sequencer::new(0);
    let mut contract = EscrowContract::new(custody);

    // The authenticated caller is the seller, not the buyer whose funds
    // would be taken: rejected, nothing stored, no id consumed.
    let r = contract.create_escrow(&mut seq, seller, buyer, seller, arbiter, 100, token);
    assert_eq!(r.unwrap_err(), Error::Unauthorized);
    assert_eq!(contract.get_escrow(0).unwrap_err(), Error::NotFound);

    // The next valid creation still receives the first id.
    let (escrow_id, _) = contract
        .create_escrow(&mut seq, buyer, buyer, seller, arbiter, 100, token)
        .unwrap();
    assert_eq!(escrow_id, 0);
}

#[test]
fn test_release_and_refund_check_roles() {
    let custody = Address { id: 1000 };
    let buyer = Address { id: 1 };
    let seller = Address { id: 2 };
    let arbiter = Address { id: 3 };
    let outsider = Address { id: 9 };
    let token = Address { id: 77 };

    let mut seq = Sequencer::new(0);
    let mut contract = EscrowContract::new(custody);
    let (escrow_id, _) = contract
        .create_escrow(&mut seq, buyer, buyer, seller, arbiter, 100, token)
        .unwrap();

    // Only the buyer or arbiter may release; only the seller or arbiter may
    // refund. Each rejection leaves the record untouched.
    assert_eq!(contract.release(seller, escrow_id).unwrap_err(), Error::Unauthorized);
    assert_eq!(contract.release(outsider, escrow_id).unwrap_err(), Error::Unauthorized);
    assert_eq!(contract.refund(buyer, escrow_id).unwrap_err(), Error::Unauthorized);
    assert_eq!(contract.refund(outsider, escrow_id).unwrap_err(), Error::Unauthorized);

    let escrow = contract.get_escrow(escrow_id).unwrap();
    assert_eq!(escrow.released, false);
    assert_eq!(escrow.refunded, false);

    // The arbiter holds both roles.
    assert!(contract.release(arbiter, escrow_id).is_ok());
}

#[test]
fn test_release_is_terminal() {
    let custody = Address { id: 1000 };
    let buyer = Address { id: 1 };
    let seller = Address { id: 2 };
    let arbiter = Address { id: 3 };
    let token = Address { id: 77 };

    let mut seq = Sequencer::new(0);
    let mut contract = EscrowContract::new(custody);
    let (escrow_id, _) = contract
        .create_escrow(&mut seq, buyer, buyer, seller, arbiter, 100, token)
        .unwrap();

    contract.release(buyer, escrow_id).unwrap();

    assert_eq!(contract.release(buyer, escrow_id).unwrap_err(), Error::AlreadyFinalized);
    assert_eq!(contract.release(arbiter, escrow_id).unwrap_err(), Error::AlreadyFinalized);
    assert_eq!(contract.refund(seller, escrow_id).unwrap_err(), Error::AlreadyFinalized);
    assert_eq!(contract.refund(arbiter, escrow_id).unwrap_err(), Error::AlreadyFinalized);

    let escrow = contract.get_escrow(escrow_id).unwrap();
    assert_eq!(escrow.released, true);
    assert_eq!(escrow.refunded, false);
}

#[test]
fn test_refund_is_terminal() {
    let custody = Address { id: 1000 };
    let buyer = Address { id: 1 };
    let seller = Address { id: 2 };
    let arbiter = Address { id: 3 };
    let token = Address { id: 77 };

    let mut seq = Sequencer::new(0);
    let mut contract = EscrowContract::new(custody);
    let (escrow_id, _) = contract
        .create_escrow(&mut seq, buyer, buyer, seller, arbiter, 100, token)
        .unwrap();

    contract.refund(arbiter, escrow_id).unwrap();

    assert_eq!(contract.refund(seller, escrow_id).unwrap_err(), Error::AlreadyFinalized);
    assert_eq!(contract.release(buyer, escrow_id).unwrap_err(), Error::AlreadyFinalized);
    assert_eq!(contract.release(arbiter, escrow_id).unwrap_err(), Error::AlreadyFinalized);

    let escrow = contract.get_escrow(escrow_id).unwrap();
    assert_eq!(escrow.refunded, true);
    assert_eq!(escrow.released, false);
}

#[test]
fn test_two_escrows_keep_their_own_records() {
    let custody = Address { id: 1000 };
    let buyer = Address { id: 1 };
    let seller = Address { id: 2 };
    let arbiter = Address { id: 3 };
    let other_seller = Address { id: 5 };
    let token = Address { id: 77 };

    let mut seq = Sequencer::new(0);
    let mut contract = EscrowContract::new(custody);
    let (first, _) = contract
        .create_escrow(&mut seq, buyer, buyer, seller, arbiter, 100, token)
        .unwrap();
    let (second, _) = contract
        .create_escrow(&mut seq, buyer, buyer, other_seller, arbiter, 250, token)
        .unwrap();
    assert_ne!(first, second);

    let a = contract.get_escrow(first).unwrap();
    let b = contract.get_escrow(second).unwrap();
    assert_eq!(a.seller, seller);
    assert_eq!(a.amount, 100);
    assert_eq!(b.seller, other_seller);
    assert_eq!(b.amount, 250);

    // Finalizing one leaves the other open.
    contract.release(buyer, first).unwrap();
    let b = contract.get_escrow(second).unwrap();
    assert_eq!(b.released, false);
    assert!(contract.release(buyer, second).is_ok());
}
