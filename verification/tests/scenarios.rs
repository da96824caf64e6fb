use conditional_pay::ledger::{Address, Error, Sequencer};
use conditional_pay::timelock::TimeLockContract;

#[test]
fn test_cancel_then_claim_scenario() {
    let custody = Address { id: 2000 };
    let creator = Address { id: 1 };
    let beneficiary = Address { id: 2 };
    let token = Address { id: 77 };

    let mut creator_bal: i128 = 1000;
    let pre_creation_balance: i128 = creator_bal;

    let mut seq = Sequencer::new(0);
    let mut contract = TimeLockContract::new(custody);

    // Created at time 1000 with unlock time 2000, then cancelled at 1000:
    // the creator's balance is restored to its pre-creation value.
    let (order_id, deposit) = contract
        .create_order(&mut seq, creator, creator, beneficiary, 100, token, 2000, 1000)
        .unwrap();
    creator_bal -= deposit.amount;

    let refund = contract.cancel(creator, order_id, 1000).unwrap();
    creator_bal += refund.amount;
    assert_eq!(creator_bal, pre_creation_balance);

    // The order is terminal: once the unlock time arrives, the
    // beneficiary's claim is rejected as already finalized.
    assert_eq!(contract.claim(beneficiary, order_id, 2000).unwrap_err(), Error::AlreadyFinalized);
}
