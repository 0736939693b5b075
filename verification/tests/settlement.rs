use fungible_token::error::Error;
use fungible_token::settlement::PromiseOutcome;
use fungible_token::token::FungibleToken;

const SELF_ACCOUNT: &str = "token.contract";

fn new_token() -> FungibleToken {
    FungibleToken::new(100, 10)
}

fn register(token: &mut FungibleToken, account: &String) {
    let minimum = token.storage_minimum_balance();
    token.storage_deposit(minimum, account).unwrap();
}

// A well-formed receiver response: the unused amount as a JSON string of a
// decimal number, as the receiver-side hook reports it.
fn unused_report(amount: u128) -> PromiseOutcome {
    PromiseOutcome::Successful(format!("\"{}\"", amount).into_bytes())
}

fn resolve(
    token: &mut FungibleToken,
    sender: &String,
    receiver: &String,
    amount: u128,
    outcome: PromiseOutcome,
) -> fungible_token::settlement::ResolutionOutcome {
    let own = SELF_ACCOUNT.to_string();
    token.ft_resolve_transfer(&own, &own, sender, receiver, amount, outcome).unwrap()
}

#[test]
fn transfer_call_moves_value_and_builds_notification() {
    let mut token = new_token();
    let a = "alice".to_string();
    let b = "bob".to_string();
    register(&mut token, &a);
    token.internal_deposit(&a, 100).unwrap();
    register(&mut token, &b);
    let notification =
        token.ft_transfer_call(&a, 1, &b, 50, "act".to_string(), None).unwrap();
    assert_eq!(notification.sender_id, a);
    assert_eq!(notification.receiver_id, b);
    assert_eq!(notification.amount, 50);
    assert_eq!(notification.msg, "act");
    assert_eq!(token.ft_balance_of(&a), 50);
    assert_eq!(token.ft_balance_of(&b), 50);
    assert_eq!(token.ft_total_supply(), 100);
}

#[test]
fn resolution_refunds_reported_unused_value() {
    // Scenario: a notify-transfers 50 to b; b reports 20 unused; the 20 is
    // refunded to a and 30 count as consumed.
    let mut token = new_token();
    let a = "alice".to_string();
    let b = "bob".to_string();
    register(&mut token, &a);
    token.internal_deposit(&a, 100).unwrap();
    register(&mut token, &b);
    token.ft_transfer_call(&a, 1, &b, 50, String::new(), None).unwrap();
    let outcome = resolve(&mut token, &a, &b, 50, unused_report(20));
    assert_eq!(outcome.used_amount, 30);
    assert_eq!(outcome.refunded, 20);
    assert_eq!(outcome.burned, 0);
    assert_eq!(token.ft_balance_of(&a), 70);
    assert_eq!(token.ft_balance_of(&b), 30);
    assert_eq!(token.ft_total_supply(), 100);
}

#[test]
fn resolution_burns_refund_when_sender_deregistered() {
    // Scenario: the sender deregisters between dispatch and resolution; the
    // refundable 20 leave the total supply and the full 50 count as
    // consumed.
    let mut token = new_token();
    let a = "alice".to_string();
    let b = "bob".to_string();
    register(&mut token, &a);
    token.internal_deposit(&a, 100).unwrap();
    register(&mut token, &b);
    token.ft_transfer_call(&a, 1, &b, 50, String::new(), None).unwrap();
    token.ft_transfer(&a, 1, &b, 50, None).unwrap();
    token.storage_withdraw(1, 1000, &a).unwrap();
    let outcome = resolve(&mut token, &a, &b, 50, unused_report(20));
    assert_eq!(outcome.used_amount, 50);
    assert_eq!(outcome.refunded, 0);
    assert_eq!(outcome.burned, 20);
    assert_eq!(token.ft_balance_of(&a), 0);
    assert_eq!(token.ft_balance_of(&b), 80);
    assert_eq!(token.ft_total_supply(), 80);
}

#[test]
fn resolution_clamps_claims_above_the_sent_amount() {
    let mut token = new_token();
    let a = "alice".to_string();
    let b = "bob".to_string();
    register(&mut token, &a);
    token.internal_deposit(&a, 100).unwrap();
    register(&mut token, &b);
    token.ft_transfer_call(&a, 1, &b, 50, String::new(), None).unwrap();
    // The receiver claims more than it was sent; only 50 can come back.
    let outcome = resolve(&mut token, &a, &b, 50, unused_report(400));
    assert_eq!(outcome.used_amount, 0);
    assert_eq!(outcome.refunded, 50);
    assert_eq!(token.ft_balance_of(&a), 100);
    assert_eq!(token.ft_balance_of(&b), 0);
    assert_eq!(token.ft_total_supply(), 100);
}

#[test]
fn resolution_claws_back_only_what_remains() {
    // The receiver spent most of what it received before reporting: the
    // refund is capped by its remaining balance.
    let mut token = new_token();
    let a = "alice".to_string();
    let b = "bob".to_string();
    let c = "carol".to_string();
    register(&mut token, &a);
    token.internal_deposit(&a, 100).unwrap();
    register(&mut token, &b);
    register(&mut token, &c);
    token.ft_transfer_call(&a, 1, &b, 50, String::new(), None).unwrap();
    token.ft_transfer(&b, 1, &c, 45, None).unwrap();
    let outcome = resolve(&mut token, &a, &b, 50, unused_report(20));
    assert_eq!(outcome.used_amount, 45);
    assert_eq!(outcome.refunded, 5);
    assert_eq!(token.ft_balance_of(&a), 55);
    assert_eq!(token.ft_balance_of(&b), 0);
    assert_eq!(token.ft_balance_of(&c), 45);
    assert_eq!(token.ft_total_supply(), 100);
}

#[test]
fn failed_hook_refunds_everything_still_present() {
    let mut token = new_token();
    let a = "alice".to_string();
    let b = "bob".to_string();
    register(&mut token, &a);
    token.internal_deposit(&a, 100).unwrap();
    register(&mut token, &b);
    token.ft_transfer_call(&a, 1, &b, 50, String::new(), None).unwrap();
    let outcome = resolve(&mut token, &a, &b, 50, PromiseOutcome::Failed);
    assert_eq!(outcome.used_amount, 0);
    assert_eq!(outcome.refunded, 50);
    assert_eq!(token.ft_balance_of(&a), 100);
    assert_eq!(token.ft_balance_of(&b), 0);
}

#[test]
fn malformed_response_counts_as_nothing_consumed() {
    // A bare JSON number and plain garbage are both malformed: the report
    // must be a JSON string. Both are treated as "nothing was consumed".
    for bytes in [b"20".to_vec(), b"garbage".to_vec(), Vec::new()] {
        let mut token = new_token();
        let a = "alice".to_string();
        let b = "bob".to_string();
        register(&mut token, &a);
        token.internal_deposit(&a, 100).unwrap();
        register(&mut token, &b);
        token.ft_transfer_call(&a, 1, &b, 50, String::new(), None).unwrap();
        let outcome = resolve(&mut token, &a, &b, 50, PromiseOutcome::Successful(bytes));
        assert_eq!(outcome.used_amount, 0);
        assert_eq!(outcome.refunded, 50);
        assert_eq!(token.ft_balance_of(&a), 100);
        assert_eq!(token.ft_balance_of(&b), 0);
    }
}

#[test]
fn zero_unused_report_is_a_no_op() {
    let mut token = new_token();
    let a = "alice".to_string();
    let b = "bob".to_string();
    register(&mut token, &a);
    token.internal_deposit(&a, 100).unwrap();
    register(&mut token, &b);
    token.ft_transfer_call(&a, 1, &b, 50, String::new(), None).unwrap();
    let outcome = resolve(&mut token, &a, &b, 50, unused_report(0));
    assert_eq!(outcome.used_amount, 50);
    assert_eq!(outcome.refunded, 0);
    assert_eq!(outcome.burned, 0);
    assert_eq!(token.ft_balance_of(&a), 50);
    assert_eq!(token.ft_balance_of(&b), 50);
}

#[test]
fn resolution_by_outside_caller_is_rejected() {
    // The callback is privileged: an arbitrary caller cannot replay it, so
    // a settlement cannot be processed a second time with different effect.
    let mut token = new_token();
    let a = "alice".to_string();
    let b = "bob".to_string();
    register(&mut token, &a);
    token.internal_deposit(&a, 100).unwrap();
    register(&mut token, &b);
    token.ft_transfer_call(&a, 1, &b, 50, String::new(), None).unwrap();
    let own = SELF_ACCOUNT.to_string();
    let intruder = "mallory".to_string();
    let result =
        token.ft_resolve_transfer(&intruder, &own, &a, &b, 50, unused_report(50));
    assert_eq!(result.unwrap_err(), Error::Unauthorized);
    assert_eq!(token.ft_balance_of(&a), 50);
    assert_eq!(token.ft_balance_of(&b), 50);
    assert_eq!(token.ft_total_supply(), 100);
}

#[test]
fn resolution_with_vanished_receiver_changes_nothing() {
    // The receiver spent everything and deregistered before resolution:
    // there is nothing to claw back.
    let mut token = new_token();
    let a = "alice".to_string();
    let b = "bob".to_string();
    register(&mut token, &a);
    token.internal_deposit(&a, 100).unwrap();
    register(&mut token, &b);
    token.ft_transfer_call(&a, 1, &b, 50, String::new(), None).unwrap();
    token.ft_transfer(&b, 1, &a, 50, None).unwrap();
    token.storage_withdraw(1, 1000, &b).unwrap();
    let outcome = resolve(&mut token, &a, &b, 50, unused_report(20));
    assert_eq!(outcome.used_amount, 50);
    assert_eq!(outcome.refunded, 0);
    assert_eq!(outcome.burned, 0);
    assert_eq!(token.ft_balance_of(&a), 100);
    assert_eq!(token.ft_total_supply(), 100);
}

#[test]
fn transfer_call_failure_leaves_no_pending_settlement() {
    let mut token = new_token();
    let a = "alice".to_string();
    let b = "bob".to_string();
    register(&mut token, &a);
    token.internal_deposit(&a, 10).unwrap();
    register(&mut token, &b);
    let result = token.ft_transfer_call(&a, 1, &b, 11, String::new(), None);
    assert_eq!(result.unwrap_err(), Error::InsufficientBalance);
    assert_eq!(token.ft_balance_of(&a), 10);
    assert_eq!(token.ft_balance_of(&b), 0);
}
