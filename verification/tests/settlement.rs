use std::collections::HashMap;

use contract_enclave::records::{
    AssetTransaction, IncomingAssetTransaction, IncomingPaymentTransaction, PaymentTransaction,
    ReturnDVPTransactions, ReturnTransaction,
};
use contract_enclave::settlement::{Action, EnclaveStatus, Event, Order, Phase, Reply, Settlement};
use contract_enclave::text::Text;

fn text(s: &str) -> Text {
    heapless::String::from(s)
}

fn asset(sender: &str, recipient: &str, tokens: i32, agreed_tokens: i32, price: i32) -> Order {
    Order::Asset(IncomingAssetTransaction {
        transaction: AssetTransaction {
            transaction_id: text("asset-1"),
            sender: text(sender),
            recipient: text(recipient),
            token_amount: tokens,
        },
        agreed_token_amount: agreed_tokens,
        agreed_trade_price: price,
    })
}

fn payment(sender: &str, recipient: &str, paid: i32, agreed_tokens: i32, price: i32) -> Order {
    Order::Payment(IncomingPaymentTransaction {
        transaction: PaymentTransaction {
            transaction_id: text("payment-1"),
            sender: text(sender),
            recipient: text(recipient),
            payment_amount: paid,
        },
        agreed_token_amount: agreed_tokens,
        agreed_trade_price: price,
    })
}

fn copy(order: &Order) -> Order {
    match order {
        Order::Asset(a) => Order::Asset(IncomingAssetTransaction {
            transaction: AssetTransaction {
                transaction_id: a.transaction.transaction_id.clone(),
                sender: a.transaction.sender.clone(),
                recipient: a.transaction.recipient.clone(),
                token_amount: a.transaction.token_amount,
            },
            agreed_token_amount: a.agreed_token_amount,
            agreed_trade_price: a.agreed_trade_price,
        }),
        Order::Payment(p) => Order::Payment(IncomingPaymentTransaction {
            transaction: PaymentTransaction {
                transaction_id: p.transaction.transaction_id.clone(),
                sender: p.transaction.sender.clone(),
                recipient: p.transaction.recipient.clone(),
                payment_amount: p.transaction.payment_amount,
            },
            agreed_token_amount: p.agreed_token_amount,
            agreed_trade_price: p.agreed_trade_price,
        }),
    }
}

/// A record store in memory, answering the machine's actions; counts the
/// exchanges.
fn run(store: &mut HashMap<String, Order>, order: Order, store_ok: bool) -> (Reply, usize) {
    let (mut machine, mut action) = Settlement::new(order);
    let mut exchanges: usize = 0;
    loop {
        let event = match action {
            Action::Finish(reply) => return (reply, exchanges),
            Action::CheckRecord(name) => Event::RecordChecked(store.contains_key(name.as_str())),
            Action::LoadRecord(name) => {
                let wanted_asset = !machine.order().is_asset();
                match store.get(name.as_str()) {
                    Some(record) if record.is_asset() == wanted_asset => {
                        Event::Loaded(Some(copy(record)))
                    }
                    _ => Event::Loaded(None),
                }
            }
            Action::StoreRecord(name) => {
                if store.contains_key(name.as_str()) {
                    Event::Stored(true)
                } else if store_ok {
                    store.insert(name.as_str().to_string(), copy(machine.order()));
                    Event::Stored(true)
                } else {
                    Event::Stored(false)
                }
            }
        };
        exchanges += 1;
        assert!(machine.accepts(&event));
        let (next, next_action) = machine.step(event);
        machine = next;
        action = next_action;
    }
}

fn message(reply: &Reply) -> String {
    reply.response.as_ref().unwrap().message.as_str().to_string()
}

fn check_transfer(t: &ReturnTransaction, kind: &str, recipient: &str, token: &str, amount: &str) {
    assert_eq!(t.transaction_type.as_str(), kind);
    assert_eq!(t.sender.as_str(), "enclave wallet address");
    assert_eq!(t.recipient.as_str(), recipient);
    assert_eq!(t.token_id.as_str(), token);
    assert_eq!(t.amount.as_str(), amount);
}

fn check_settlement(r: &ReturnDVPTransactions, seller: &str, price: &str, buyer: &str, tokens: &str) {
    assert_eq!(r.message.as_str(), "SuccessMatch");
    check_transfer(r.transaction_1.as_ref().unwrap(), "Payment", seller, "XRP", price);
    check_transfer(r.transaction_2.as_ref().unwrap(), "TokenTransfer", buyer, "Foo", tokens);
}

#[test]
fn lone_asset_transaction_is_recorded() {
    let mut store = HashMap::new();
    let (reply, exchanges) = run(&mut store, asset("seller", "buyer", 10, 10, 150), true);
    assert_eq!(reply.status, EnclaveStatus::Success);
    assert_eq!(message(&reply), "SuccessfullyAddedNewTransaction");
    assert!(reply.response.as_ref().unwrap().transaction_1.is_none());
    assert!(reply.response.as_ref().unwrap().transaction_2.is_none());
    assert_eq!(exchanges, 3);
    assert!(store.contains_key("seller"));
    assert_eq!(store.len(), 1);
}

#[test]
fn second_transaction_of_a_sender_is_a_duplicate() {
    let mut store = HashMap::new();
    run(&mut store, asset("seller", "buyer", 10, 10, 150), true);
    let (reply, exchanges) = run(&mut store, asset("seller", "other", 3, 3, 7), true);
    assert_eq!(reply.status, EnclaveStatus::Success);
    assert_eq!(message(&reply), "DuplicateTransactionExists");
    assert_eq!(exchanges, 2);
    // The first record stays as it was.
    match store.get("seller").unwrap() {
        Order::Asset(a) => assert_eq!(a.transaction.recipient.as_str(), "buyer"),
        Order::Payment(_) => panic!("record replaced"),
    }
    assert_eq!(store.len(), 1);
}

#[test]
fn payment_then_asset_settles() {
    let mut store = HashMap::new();
    run(&mut store, payment("buyer", "seller", 150, 10, 150), true);
    let (reply, exchanges) = run(&mut store, asset("seller", "buyer", 10, 10, 150), true);
    assert_eq!(reply.status, EnclaveStatus::Success);
    assert_eq!(exchanges, 2);
    check_settlement(reply.response.as_ref().unwrap(), "seller", "150", "buyer", "10");
    assert_eq!(store.len(), 1);
}

#[test]
fn asset_then_payment_settles() {
    let mut store = HashMap::new();
    run(&mut store, asset("seller", "buyer", 10, 10, 150), true);
    let (reply, _) = run(&mut store, payment("buyer", "seller", 150, 10, 150), true);
    assert_eq!(reply.status, EnclaveStatus::Success);
    check_settlement(reply.response.as_ref().unwrap(), "seller", "150", "buyer", "10");
}

#[test]
fn settlement_amounts_come_from_the_agreed_terms() {
    // Asset second: the price is the asset's agreed price, the tokens the
    // payment's agreed amount.
    let mut store = HashMap::new();
    run(&mut store, payment("buyer", "seller", 150, 10, 999), true);
    let (reply, _) = run(&mut store, asset("seller", "buyer", 10, 888, 150), true);
    check_settlement(reply.response.as_ref().unwrap(), "seller", "150", "buyer", "10");

    // Payment second: the price is the payment's agreed price, the tokens the
    // asset's agreed amount.
    let mut store = HashMap::new();
    run(&mut store, asset("seller", "buyer", 10, 888, 150), true);
    let (reply, _) = run(&mut store, payment("buyer", "seller", 150, 10, 999), true);
    check_settlement(reply.response.as_ref().unwrap(), "seller", "999", "buyer", "888");
}

#[test]
fn negative_amounts_are_written_with_a_sign() {
    let mut store = HashMap::new();
    run(&mut store, payment("buyer", "seller", -20, -3, 5), true);
    let (reply, _) = run(&mut store, asset("seller", "buyer", -3, 4, -20), true);
    check_settlement(reply.response.as_ref().unwrap(), "seller", "-20", "buyer", "-3");
}

#[test]
fn disagreeing_amounts_get_no_reply() {
    let mut store = HashMap::new();
    run(&mut store, payment("buyer", "seller", 149, 10, 150), true);
    let (reply, exchanges) = run(&mut store, asset("seller", "buyer", 10, 10, 150), true);
    assert_eq!(reply.status, EnclaveStatus::Success);
    assert!(reply.response.is_none());
    assert_eq!(exchanges, 2);

    let mut store = HashMap::new();
    run(&mut store, asset("seller", "buyer", 9, 10, 150), true);
    let (reply, _) = run(&mut store, payment("buyer", "seller", 150, 10, 150), true);
    assert!(reply.response.is_none());
}

#[test]
fn counterpart_that_does_not_name_the_sender_gets_no_reply() {
    let mut store = HashMap::new();
    // The payment pays someone else than the asset's sender.
    run(&mut store, payment("buyer", "elsewhere", 150, 10, 150), true);
    let (reply, _) = run(&mut store, asset("seller", "buyer", 10, 10, 150), true);
    assert_eq!(reply.status, EnclaveStatus::Success);
    assert!(reply.response.is_none());
}

#[test]
fn unreadable_counterpart_is_an_error() {
    let mut store = HashMap::new();
    // The recipient's record is an asset transaction: it does not load as a payment.
    run(&mut store, asset("buyer", "x", 1, 1, 1), true);
    let (reply, _) = run(&mut store, asset("seller", "buyer", 10, 10, 150), true);
    assert_eq!(reply.status, EnclaveStatus::Unexpected);
    assert!(reply.response.is_none());
}

#[test]
fn failed_recording_is_an_error() {
    let mut store = HashMap::new();
    let (reply, _) = run(&mut store, asset("seller", "buyer", 10, 10, 150), false);
    assert_eq!(reply.status, EnclaveStatus::Unexpected);
    assert!(reply.response.is_none());
    assert!(store.is_empty());
}

#[test]
fn machine_takes_only_the_answer_it_asked_for() {
    let (machine, action) = Settlement::new(asset("seller", "buyer", 10, 10, 150));
    match action {
        Action::CheckRecord(name) => assert_eq!(name.as_str(), "buyer"),
        _ => panic!("expected a record check"),
    }
    assert_eq!(machine.phase(), Phase::AwaitingRecipient);
    assert!(!machine.accepts(&Event::Stored(true)));
    assert!(!machine.accepts(&Event::Loaded(None)));
    assert!(machine.accepts(&Event::RecordChecked(true)));
    let (machine, action) = machine.step(Event::RecordChecked(true));
    match action {
        Action::LoadRecord(name) => assert_eq!(name.as_str(), "buyer"),
        _ => panic!("expected a load"),
    }
    assert_eq!(machine.phase(), Phase::AwaitingCounterpart);
    // An asset record is not the counterpart of an asset transaction.
    assert!(!machine.accepts(&Event::Loaded(Some(asset("buyer", "seller", 1, 1, 1)))));
    assert!(machine.accepts(&Event::Loaded(Some(payment("buyer", "seller", 1, 1, 1)))));
    let (machine, _) = machine.step(Event::Loaded(None));
    assert_eq!(machine.phase(), Phase::Finished);
    assert!(!machine.accepts(&Event::RecordChecked(false)));
}

#[test]
fn success_match_reply_fields() {
    let r = ReturnDVPTransactions::success_match(&text("alice"), 1234567, &text("bob"), 0);
    check_settlement(&r, "alice", "1234567", "bob", "0");
    let r = ReturnDVPTransactions::success_match(&text("a"), i32::MIN, &text("b"), i32::MAX);
    check_settlement(&r, "a", "-2147483648", "b", "2147483647");
}

#[test]
fn notices_carry_only_a_message() {
    let d = ReturnDVPTransactions::duplicate_notice();
    assert_eq!(d.message.as_str(), "DuplicateTransactionExists");
    assert!(d.transaction_1.is_none() && d.transaction_2.is_none());
    let a = ReturnDVPTransactions::added_notice();
    assert_eq!(a.message.as_str(), "SuccessfullyAddedNewTransaction");
    assert!(a.transaction_1.is_none() && a.transaction_2.is_none());
}

#[test]
fn order_accessors() {
    let o = payment("buyer", "seller", 1, 2, 3);
    assert_eq!(o.sender().as_str(), "buyer");
    assert_eq!(o.recipient().as_str(), "seller");
    assert!(!o.is_asset());
    assert!(asset("s", "r", 1, 1, 1).is_asset());
}
