use otc_core::balance::announce_balance;
use otc_core::balance::top_up;
use otc_core::balance::BalanceState;
use otc_core::counter::add_together;
use otc_core::counter::get_counter;
use otc_core::counter::increment_counter;
use otc_core::counter::init_counter;
use otc_core::counter::InputValues;

#[test]
fn top_up_adds_to_existing_balance() {
    let balance = BalanceState { amount: 10, committed_amount: 4 };
    let (balance2, blob) = top_up(balance, 25, false);
    assert_eq!(balance2.amount, 35);
    assert_eq!(balance2.committed_amount, 4);
    assert_eq!(blob.amount, 35);
    assert_eq!(blob.committed_amount, 4);
}

#[test]
fn top_up_ignores_stale_state_for_new_account() {
    let stale = BalanceState { amount: 999, committed_amount: 777 };
    let (balance, blob) = top_up(stale, 25, true);
    assert_eq!(balance.amount, 25);
    assert_eq!(balance.committed_amount, 0);
    assert_eq!(blob.amount, 25);
    assert_eq!(blob.committed_amount, 0);
}

#[test]
fn announce_mirrors_balance_unchanged() {
    let balance = BalanceState { amount: 12, committed_amount: 7 };
    let blob = announce_balance(balance);
    assert_eq!(blob.amount, 12);
    assert_eq!(blob.committed_amount, 7);
}

#[test]
fn counter_starts_at_zero_and_increments() {
    let counter = init_counter();
    assert_eq!(counter.counter, 0);
    let counter = increment_counter(counter);
    let counter = increment_counter(counter);
    assert_eq!(counter.counter, 2);
    let (for_recipient, for_pubkey) = get_counter(counter);
    assert_eq!(for_recipient, counter);
    assert_eq!(for_pubkey, counter);
}

#[test]
fn add_together_widens_past_byte_overflow() {
    assert_eq!(add_together(InputValues { v1: 1, v2: 2 }), 3);
    assert_eq!(add_together(InputValues { v1: 255, v2: 255 }), 510);
}
