//! The whole handling of one incoming transaction against a record store,
//! and what it promises across calls.
use vstd::prelude::*;

use crate::records::{IncomingAssetView, IncomingPaymentView};
use crate::replies::{added_message, duplicate_message, notice_view, settlement_view};
use crate::settlement::{
    accepts, answered, begin, failure, judge, silent, transition, ActionView, EnclaveStatus,
    EventView, OrderView, ReplyView, SettlementView,
};

verus! {

/// What loading `record` as the counterpart kind of `order` gives: the record
/// itself when it is of the other kind, and nothing when it is of the same
/// kind (a record of one kind does not parse as the other).
pub open spec fn load_counterpart(order: OrderView, record: OrderView) -> Option<OrderView> {
    if record.is_asset() != order.is_asset() {
        Some(record)
    } else {
        None
    }
}

/// The handling of `order` against the record store `store` (pending
/// transactions by the name of their sender): the store afterwards and the
/// reply. `store_ok` says whether recording a new transaction succeeds.
pub open spec fn settle(
    store: Map<Seq<char>, OrderView>,
    order: OrderView,
    store_ok: bool,
) -> (Map<Seq<char>, OrderView>, ReplyView) {
    if store.contains_key(order.recipient()) {
        match load_counterpart(order, store[order.recipient()]) {
            Some(c) => (store, judge(order, c)),
            None => (store, failure()),
        }
    } else if store.contains_key(order.sender()) {
        (store, answered(notice_view(duplicate_message())))
    } else if store_ok {
        (store.insert(order.sender(), order), answered(notice_view(added_message())))
    } else {
        (store, failure())
    }
}

/// How the store answers the action `a` of the machine in state `s`: the
/// store afterwards and the event handed back.
pub open spec fn respond(
    store: Map<Seq<char>, OrderView>,
    s: SettlementView,
    a: ActionView,
    store_ok: bool,
) -> (Map<Seq<char>, OrderView>, EventView) {
    match a {
        ActionView::CheckRecord(k) => (store, EventView::RecordChecked(store.contains_key(k))),
        ActionView::LoadRecord(k) => (
            store,
            EventView::Loaded(
                if store.contains_key(k) {
                    load_counterpart(s.order, store[k])
                } else {
                    None
                },
            ),
        ),
        ActionView::StoreRecord(k) => if store.contains_key(k) {
            (store, EventView::Stored(true))
        } else if store_ok {
            (store.insert(k, s.order), EventView::Stored(true))
        } else {
            (store, EventView::Stored(false))
        },
        ActionView::Finish(_) => (store, EventView::Stored(false)),
    }
}

/// Runs the machine from state `s` and action `a` against `store`, for at
/// most `fuel` exchanges: the store and the reply when it finishes, nothing
/// when it runs out of fuel or is handed an event it does not take.
pub open spec fn drive(
    s: SettlementView,
    a: ActionView,
    store: Map<Seq<char>, OrderView>,
    store_ok: bool,
    fuel: nat,
) -> Option<(Map<Seq<char>, OrderView>, ReplyView)>
    decreases fuel,
{
    match a {
        ActionView::Finish(reply) => Some((store, reply)),
        _ => if fuel == 0 {
            None
        } else {
            let (next_store, e) = respond(store, s, a, store_ok);
            if accepts(s, e) {
                let (next, action) = transition(s, e);
                drive(next, action, next_store, store_ok, (fuel - 1) as nat)
            } else {
                None
            }
        },
    }
}

/// The state machine handles a transaction as `settle` says: answering its
/// actions from a record store, it takes every event handed back, finishes
/// after at most three exchanges, and leaves the store and gives the reply of
/// `settle`.
pub proof fn lemma_machine_follows_settle(
    store: Map<Seq<char>, OrderView>,
    order: OrderView,
    store_ok: bool,
)
    ensures
        drive(begin(order).0, begin(order).1, store, store_ok, 3) == Some(
            settle(store, order, store_ok),
        ),
{
    reveal_with_fuel(drive, 4);
}

/// Records are never replaced or removed; the only change to the store is
/// the recording of the incoming transaction under its sender, which happens
/// only when neither its recipient nor its sender had a record, and always
/// comes with the reply that says so.
pub proof fn lemma_records_are_kept(
    store: Map<Seq<char>, OrderView>,
    order: OrderView,
    store_ok: bool,
)
    ensures
        forall|k: Seq<char>|
            #![trigger settle(store, order, store_ok).0[k]]
            store.contains_key(k) ==> settle(store, order, store_ok).0.contains_key(k)
                && settle(store, order, store_ok).0[k] == store[k],
        settle(store, order, store_ok).0 == store || {
            &&& !store.contains_key(order.recipient())
            &&& !store.contains_key(order.sender())
            &&& settle(store, order, store_ok).0 == store.insert(order.sender(), order)
            &&& settle(store, order, store_ok).1 == answered(notice_view(added_message()))
        },
{
}

/// A transaction whose recipient has no record while its sender has one is
/// answered as a duplicate, and changes nothing.
pub proof fn lemma_duplicate_changes_nothing(
    store: Map<Seq<char>, OrderView>,
    order: OrderView,
    store_ok: bool,
)
    requires
        !store.contains_key(order.recipient()),
        store.contains_key(order.sender()),
    ensures
        settle(store, order, store_ok) == (store, answered(notice_view(duplicate_message()))),
        settle(store, order, store_ok).0 == store,
        settle(store, order, store_ok).1.status == EnclaveStatus::Success,
        settle(store, order, store_ok).1.response matches Some(r) && {
            &&& r.message == "DuplicateTransactionExists"@
            &&& r.transaction_1 is None
            &&& r.transaction_2 is None
        },
{
}

/// When the recipient has a record, that record alone decides the answer:
/// two stores holding the same record under the recipient give the same
/// reply, whatever else they hold (the sender's record included) and whether
/// or not recording would succeed, and neither store changes. The reply is
/// the judgement of the transaction against that record when it is of the
/// other kind, and a failure with nothing handed back otherwise.
pub proof fn lemma_recipient_record_decides(
    store1: Map<Seq<char>, OrderView>,
    store2: Map<Seq<char>, OrderView>,
    order: OrderView,
    store_ok1: bool,
    store_ok2: bool,
)
    requires
        store1.contains_key(order.recipient()),
        store2.contains_key(order.recipient()),
        store1[order.recipient()] == store2[order.recipient()],
    ensures
        settle(store1, order, store_ok1).1 == settle(store2, order, store_ok2).1,
        settle(store1, order, store_ok1).0 == store1,
        settle(store2, order, store_ok2).0 == store2,
        store1[order.recipient()].is_asset() != order.is_asset() ==> settle(
            store1,
            order,
            store_ok1,
        ).1 == judge(order, store1[order.recipient()]),
        store1[order.recipient()].is_asset() == order.is_asset() ==> {
            &&& settle(store1, order, store_ok1).1.status == EnclaveStatus::Unexpected
            &&& settle(store1, order, store_ok1).1.response is None
        },
{
}

/// A transaction whose recipient and sender both have no record is recorded
/// under its sender and answered as added when recording succeeds; when
/// recording fails nothing changes and the call fails with nothing handed
/// back.
pub proof fn lemma_fresh_transaction_is_recorded(
    store: Map<Seq<char>, OrderView>,
    order: OrderView,
    store_ok: bool,
)
    requires
        !store.contains_key(order.recipient()),
        !store.contains_key(order.sender()),
    ensures
        store_ok ==> settle(store, order, store_ok).0 == store.insert(order.sender(), order),
        store_ok ==> settle(store, order, store_ok).1 == answered(notice_view(added_message())),
        store_ok ==> settle(store, order, store_ok).0[order.sender()] == order,
        store_ok ==> settle(store, order, store_ok).1.status == EnclaveStatus::Success,
        store_ok ==> (settle(store, order, store_ok).1.response matches Some(r) && {
            &&& r.message == "SuccessfullyAddedNewTransaction"@
            &&& r.transaction_1 is None
            &&& r.transaction_2 is None
        }),
        !store_ok ==> settle(store, order, store_ok).0 == store,
        !store_ok ==> settle(store, order, store_ok).1.status == EnclaveStatus::Unexpected,
        !store_ok ==> settle(store, order, store_ok).1.response is None,
{
}

/// The asset half `a` and the payment half `p` agree on amounts: `a` delivers
/// the token amount that `p` agreed to, and `p` pays the price that `a`
/// agreed to.
pub open spec fn terms_agree(a: IncomingAssetView, p: IncomingPaymentView) -> bool {
    &&& a.transaction.token_amount == p.agreed_token_amount
    &&& p.transaction.payment_amount == a.agreed_trade_price
}

/// Two halves of a trade that name each other's sender as recipient settle
/// whichever arrives first. Starting from a store that holds neither sender,
/// the first is recorded; the second is answered with the settlement when
/// the halves agree on amounts, and with nothing otherwise. The settlement
/// pays the asset sender and delivers the tokens to the payment sender; when
/// both halves agreed to the same price and token amount, it is the same in
/// either order.
pub proof fn lemma_halves_settle_in_either_order(
    store: Map<Seq<char>, OrderView>,
    a: IncomingAssetView,
    p: IncomingPaymentView,
    store_ok: bool,
)
    requires
        a.transaction.recipient == p.transaction.sender,
        p.transaction.recipient == a.transaction.sender,
        !store.contains_key(a.transaction.sender),
        !store.contains_key(p.transaction.sender),
    ensures
        settle(store, OrderView::Asset(a), true).1 == answered(notice_view(added_message())),
        settle(store, OrderView::Payment(p), true).1 == answered(notice_view(added_message())),
        settle(settle(store, OrderView::Asset(a), true).0, OrderView::Payment(p), store_ok).1 == (
        if terms_agree(a, p) {
            answered(
                settlement_view(
                    a.transaction.sender,
                    p.agreed_trade_price,
                    p.transaction.sender,
                    a.agreed_token_amount,
                ),
            )
        } else {
            silent()
        }),
        settle(settle(store, OrderView::Payment(p), true).0, OrderView::Asset(a), store_ok).1 == (
        if terms_agree(a, p) {
            answered(
                settlement_view(
                    a.transaction.sender,
                    a.agreed_trade_price,
                    p.transaction.sender,
                    p.agreed_token_amount,
                ),
            )
        } else {
            silent()
        }),
        a.agreed_trade_price == p.agreed_trade_price && a.agreed_token_amount
            == p.agreed_token_amount ==> settle(
            settle(store, OrderView::Asset(a), true).0,
            OrderView::Payment(p),
            store_ok,
        ).1 == settle(settle(store, OrderView::Payment(p), true).0, OrderView::Asset(a), store_ok).1,
{
}

} // verus!
