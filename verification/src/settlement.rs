//! How the enclave handles one incoming transaction.
//!
//! Pending transactions are kept in a record store, one record per sender,
//! named by the sender. Handling a transaction alternates between looking at
//! that store and deciding, so it is written as a state machine: the caller
//! performs each [`Action`] on the store and hands back what it found as an
//! [`Event`], until the machine answers with [`Action::Finish`].
//!
//! The decisions, in order:
//! - if the recipient of the incoming transaction has a record, it is loaded
//!   as the counterpart kind (a payment for an asset transaction and the other
//!   way round); the two settle when they agree, and otherwise nothing is
//!   answered; a record that cannot be loaded is an error;
//! - otherwise, if the sender already has a record, the transaction is a
//!   duplicate;
//! - otherwise the transaction is recorded under its sender.
use vstd::prelude::*;

use crate::records::{
    AssetTransactionView, IncomingAssetTransaction, IncomingAssetView,
    IncomingPaymentTransaction, IncomingPaymentView, PaymentTransactionView,
    ReturnDVPTransactions, ReturnDvpView, ReturnTransactionView,
};
use crate::replies::{
    added_message, asset_settles_with, duplicate_message, notice_view, payment_settles_with,
    settlement_view,
};
use crate::text::{decimal_text, text_clone, text_eq, text_of, Text};

verus! {

/// An incoming transaction: one half of a delivery-versus-payment trade.
pub enum Order {
    Asset(IncomingAssetTransaction),
    Payment(IncomingPaymentTransaction),
}

/// The model of an [`Order`].
pub enum OrderView {
    Asset(IncomingAssetView),
    Payment(IncomingPaymentView),
}

impl View for Order {
    type V = OrderView;

    open spec fn view(&self) -> OrderView {
        match self {
            Order::Asset(a) => OrderView::Asset(a@),
            Order::Payment(p) => OrderView::Payment(p@),
        }
    }
}

impl OrderView {
    /// The sender of the transaction: the name its record is stored under.
    pub open spec fn sender(self) -> Seq<char> {
        match self {
            OrderView::Asset(a) => a.transaction.sender,
            OrderView::Payment(p) => p.transaction.sender,
        }
    }

    /// The recipient of the transaction: the name under which its
    /// counterpart is looked for.
    pub open spec fn recipient(self) -> Seq<char> {
        match self {
            OrderView::Asset(a) => a.transaction.recipient,
            OrderView::Payment(p) => p.transaction.recipient,
        }
    }

    /// True for an asset transaction.
    pub open spec fn is_asset(self) -> bool {
        self is Asset
    }
}

impl Order {
    /// The sender of the transaction.
    pub fn sender(&self) -> (r: &Text)
        ensures
            text_of(*r) == self@.sender(),
    {
        match self {
            Order::Asset(a) => &a.transaction.sender,
            Order::Payment(p) => &p.transaction.sender,
        }
    }

    /// The recipient of the transaction.
    pub fn recipient(&self) -> (r: &Text)
        ensures
            text_of(*r) == self@.recipient(),
    {
        match self {
            Order::Asset(a) => &a.transaction.recipient,
            Order::Payment(p) => &p.transaction.recipient,
        }
    }

    /// True for an asset transaction, whose counterpart is a payment.
    pub fn is_asset(&self) -> (r: bool)
        ensures
            r == self@.is_asset(),
    {
        match self {
            Order::Asset(_) => true,
            Order::Payment(_) => false,
        }
    }
}

/// Whether the enclave call succeeded.
#[derive(Clone, Copy, Debug, PartialEq, Eq, Structural)]
pub enum EnclaveStatus {
    Success,
    Unexpected,
}

/// The enclave's final answer: a status, and the reply handed back to the
/// caller, if any.
pub struct Reply {
    pub status: EnclaveStatus,
    pub response: Option<ReturnDVPTransactions>,
}

/// The model of a [`Reply`].
pub struct ReplyView {
    pub status: EnclaveStatus,
    pub response: Option<ReturnDvpView>,
}

impl View for Reply {
    type V = ReplyView;

    open spec fn view(&self) -> ReplyView {
        ReplyView {
            status: self.status,
            response: match self.response {
                Some(r) => Some(r@),
                None => None,
            },
        }
    }
}

/// A successful call that hands back `response`.
pub open spec fn answered(response: ReturnDvpView) -> ReplyView {
    ReplyView { status: EnclaveStatus::Success, response: Some(response) }
}

/// A successful call that hands back nothing.
pub open spec fn silent() -> ReplyView {
    ReplyView { status: EnclaveStatus::Success, response: None }
}

/// A failed call that hands back nothing.
pub open spec fn failure() -> ReplyView {
    ReplyView { status: EnclaveStatus::Unexpected, response: None }
}

/// The answer to `order` once `counterpart`, of the other kind, was loaded
/// from the record of its recipient.
pub open spec fn judge(order: OrderView, counterpart: OrderView) -> ReplyView {
    match (order, counterpart) {
        (OrderView::Asset(a), OrderView::Payment(p)) => if asset_settles_with(a, p) {
            answered(
                settlement_view(
                    a.transaction.sender,
                    a.agreed_trade_price,
                    p.transaction.sender,
                    p.agreed_token_amount,
                ),
            )
        } else {
            silent()
        },
        (OrderView::Payment(p), OrderView::Asset(a)) => if payment_settles_with(p, a) {
            answered(
                settlement_view(
                    a.transaction.sender,
                    p.agreed_trade_price,
                    p.transaction.sender,
                    a.agreed_token_amount,
                ),
            )
        } else {
            silent()
        },
        _ => failure(),
    }
}

/// An incoming asset transaction `a` against a loaded payment `p` always
/// succeeds, and settles exactly when `p` pays the sender of `a`, pays the
/// price `a` agreed to, and `a` delivers the tokens `p` agreed to. Otherwise
/// (in particular whenever `p` pays someone else than the sender of `a`) no
/// reply is given. A settlement pays the agreed price of `a` in XRP to the
/// sender of `a` and delivers the agreed token amount of `p` in Foo to the
/// sender of `p`, both from the enclave wallet.
pub proof fn lemma_asset_meets_payment(a: IncomingAssetView, p: IncomingPaymentView)
    ensures
        judge(OrderView::Asset(a), OrderView::Payment(p)).status == EnclaveStatus::Success,
        judge(OrderView::Asset(a), OrderView::Payment(p)).response is Some <==> {
            &&& p.transaction.recipient == a.transaction.sender
            &&& p.transaction.payment_amount == a.agreed_trade_price
            &&& a.transaction.token_amount == p.agreed_token_amount
        },
        p.transaction.recipient != a.transaction.sender ==> judge(
            OrderView::Asset(a),
            OrderView::Payment(p),
        ).response is None,
        judge(OrderView::Asset(a), OrderView::Payment(p)).response matches Some(r) ==> {
            &&& r.message == "SuccessMatch"@
            &&& r.transaction_1 == Some(
                ReturnTransactionView {
                    transaction_type: "Payment"@,
                    sender: "enclave wallet address"@,
                    recipient: a.transaction.sender,
                    token_id: "XRP"@,
                    amount: decimal_text(a.agreed_trade_price as int),
                },
            )
            &&& r.transaction_2 == Some(
                ReturnTransactionView {
                    transaction_type: "TokenTransfer"@,
                    sender: "enclave wallet address"@,
                    recipient: p.transaction.sender,
                    token_id: "Foo"@,
                    amount: decimal_text(p.agreed_token_amount as int),
                },
            )
        },
{
}

/// An incoming payment `p` against a loaded asset transaction `a` always
/// succeeds, and settles exactly when `a` delivers to the sender of `p`,
/// delivers the tokens `p` agreed to, and `p` pays the price `a` agreed to.
/// Otherwise (in particular whenever `a` is addressed to someone else than
/// the sender of `p`, whatever the recipient of `p`) no reply is given. A
/// settlement pays the agreed price of `p` in XRP to the sender of `a` and
/// delivers the agreed token amount of `a` in Foo to the sender of `p`.
pub proof fn lemma_payment_meets_asset(p: IncomingPaymentView, a: IncomingAssetView)
    ensures
        judge(OrderView::Payment(p), OrderView::Asset(a)).status == EnclaveStatus::Success,
        judge(OrderView::Payment(p), OrderView::Asset(a)).response is Some <==> {
            &&& a.transaction.recipient == p.transaction.sender
            &&& a.transaction.token_amount == p.agreed_token_amount
            &&& p.transaction.payment_amount == a.agreed_trade_price
        },
        a.transaction.recipient != p.transaction.sender ==> judge(
            OrderView::Payment(p),
            OrderView::Asset(a),
        ).response is None,
        judge(OrderView::Payment(p), OrderView::Asset(a)).response matches Some(r) ==> {
            &&& r.message == "SuccessMatch"@
            &&& r.transaction_1 == Some(
                ReturnTransactionView {
                    transaction_type: "Payment"@,
                    sender: "enclave wallet address"@,
                    recipient: a.transaction.sender,
                    token_id: "XRP"@,
                    amount: decimal_text(p.agreed_trade_price as int),
                },
            )
            &&& r.transaction_2 == Some(
                ReturnTransactionView {
                    transaction_type: "TokenTransfer"@,
                    sender: "enclave wallet address"@,
                    recipient: p.transaction.sender,
                    token_id: "Foo"@,
                    amount: decimal_text(a.agreed_token_amount as int),
                },
            )
        },
{
}

/// The asset transaction `a` with its id replaced by `id`.
pub open spec fn asset_with_id(a: IncomingAssetView, id: Seq<char>) -> IncomingAssetView {
    IncomingAssetView {
        transaction: AssetTransactionView {
            transaction_id: id,
            sender: a.transaction.sender,
            recipient: a.transaction.recipient,
            token_amount: a.transaction.token_amount,
        },
        agreed_token_amount: a.agreed_token_amount,
        agreed_trade_price: a.agreed_trade_price,
    }
}

/// The payment `p` with its id replaced by `id`.
pub open spec fn payment_with_id(p: IncomingPaymentView, id: Seq<char>) -> IncomingPaymentView {
    IncomingPaymentView {
        transaction: PaymentTransactionView {
            transaction_id: id,
            sender: p.transaction.sender,
            recipient: p.transaction.recipient,
            payment_amount: p.transaction.payment_amount,
        },
        agreed_token_amount: p.agreed_token_amount,
        agreed_trade_price: p.agreed_trade_price,
    }
}

/// Transaction ids play no part in matching: changing the id of either half
/// changes no answer, in either direction.
pub proof fn lemma_judge_ignores_ids(
    a: IncomingAssetView,
    p: IncomingPaymentView,
    a_id: Seq<char>,
    p_id: Seq<char>,
)
    ensures
        judge(OrderView::Asset(a), OrderView::Payment(p)) == judge(
            OrderView::Asset(asset_with_id(a, a_id)),
            OrderView::Payment(payment_with_id(p, p_id)),
        ),
        judge(OrderView::Payment(p), OrderView::Asset(a)) == judge(
            OrderView::Payment(payment_with_id(p, p_id)),
            OrderView::Asset(asset_with_id(a, a_id)),
        ),
{
}

/// Where the handling of a transaction stands.
#[derive(Clone, Copy, Debug, PartialEq, Eq, Structural)]
pub enum Phase {
    /// Waiting to learn whether the recipient has a record.
    AwaitingRecipient,
    /// Waiting for the recipient's record, loaded as the counterpart kind.
    AwaitingCounterpart,
    /// Waiting to learn whether the sender has a record.
    AwaitingSender,
    /// Waiting for the transaction to be recorded under its sender.
    AwaitingStore,
    /// Answered.
    Finished,
}

/// What the caller must do next.
pub enum Action {
    /// Find out whether a record exists under this name.
    CheckRecord(Text),
    /// Load the record under this name as the counterpart kind of the order.
    LoadRecord(Text),
    /// Record the order under this name unless a record already exists there.
    StoreRecord(Text),
    /// Answer the enclave call with this reply.
    Finish(Reply),
}

/// The model of an [`Action`].
pub enum ActionView {
    CheckRecord(Seq<char>),
    LoadRecord(Seq<char>),
    StoreRecord(Seq<char>),
    Finish(ReplyView),
}

impl View for Action {
    type V = ActionView;

    open spec fn view(&self) -> ActionView {
        match self {
            Action::CheckRecord(n) => ActionView::CheckRecord(text_of(*n)),
            Action::LoadRecord(n) => ActionView::LoadRecord(text_of(*n)),
            Action::StoreRecord(n) => ActionView::StoreRecord(text_of(*n)),
            Action::Finish(r) => ActionView::Finish(r@),
        }
    }
}

/// What the caller found when it performed an [`Action`].
pub enum Event {
    /// Whether a record exists under the name that was checked.
    RecordChecked(bool),
    /// The loaded record, or `None` when it could not be read or parsed.
    Loaded(Option<Order>),
    /// Whether a record now exists under the name (stored, or already there).
    Stored(bool),
}

/// The model of an [`Event`].
pub enum EventView {
    RecordChecked(bool),
    Loaded(Option<OrderView>),
    Stored(bool),
}

impl View for Event {
    type V = EventView;

    open spec fn view(&self) -> EventView {
        match self {
            Event::RecordChecked(b) => EventView::RecordChecked(*b),
            Event::Loaded(Some(o)) => EventView::Loaded(Some(o@)),
            Event::Loaded(None) => EventView::Loaded(None),
            Event::Stored(b) => EventView::Stored(*b),
        }
    }
}

/// The handling of one incoming transaction.
pub struct Settlement {
    order: Order,
    phase: Phase,
}

/// The model of a [`Settlement`].
pub struct SettlementView {
    pub order: OrderView,
    pub phase: Phase,
}

impl View for Settlement {
    type V = SettlementView;

    closed spec fn view(&self) -> SettlementView {
        SettlementView { order: self.order@, phase: self.phase }
    }
}

/// The first state and action for `order`: look for its recipient's record.
pub open spec fn begin(order: OrderView) -> (SettlementView, ActionView) {
    (
        SettlementView { order, phase: Phase::AwaitingRecipient },
        ActionView::CheckRecord(order.recipient()),
    )
}

/// Whether the machine in state `s` takes the event `e`: the event answers
/// the action last asked for, and a loaded record is of the counterpart kind.
pub open spec fn accepts(s: SettlementView, e: EventView) -> bool {
    match s.phase {
        Phase::AwaitingRecipient => e is RecordChecked,
        Phase::AwaitingCounterpart => match e {
            EventView::Loaded(Some(c)) => c.is_asset() != s.order.is_asset(),
            EventView::Loaded(None) => true,
            _ => false,
        },
        Phase::AwaitingSender => e is RecordChecked,
        Phase::AwaitingStore => e is Stored,
        Phase::Finished => false,
    }
}

/// The next state and action of the machine in state `s` on the event `e`.
pub open spec fn transition(s: SettlementView, e: EventView) -> (SettlementView, ActionView) {
    let order = s.order;
    let done = SettlementView { order, phase: Phase::Finished };
    match (s.phase, e) {
        (Phase::AwaitingRecipient, EventView::RecordChecked(true)) => (
            SettlementView { order, phase: Phase::AwaitingCounterpart },
            ActionView::LoadRecord(order.recipient()),
        ),
        (Phase::AwaitingRecipient, EventView::RecordChecked(false)) => (
            SettlementView { order, phase: Phase::AwaitingSender },
            ActionView::CheckRecord(order.sender()),
        ),
        (Phase::AwaitingCounterpart, EventView::Loaded(Some(c))) => (
            done,
            ActionView::Finish(judge(order, c)),
        ),
        (Phase::AwaitingSender, EventView::RecordChecked(true)) => (
            done,
            ActionView::Finish(answered(notice_view(duplicate_message()))),
        ),
        (Phase::AwaitingSender, EventView::RecordChecked(false)) => (
            SettlementView { order, phase: Phase::AwaitingStore },
            ActionView::StoreRecord(order.sender()),
        ),
        (Phase::AwaitingStore, EventView::Stored(true)) => (
            done,
            ActionView::Finish(answered(notice_view(added_message()))),
        ),
        _ => (done, ActionView::Finish(failure())),
    }
}

/// Decides on an order once its counterpart is loaded.
fn decide(order: &Order, counterpart: &Order) -> (r: Reply)
    requires
        order@.is_asset() != counterpart@.is_asset(),
    ensures
        r@ == judge(order@, counterpart@),
{
    match (order, counterpart) {
        (Order::Asset(a), Order::Payment(p)) => {
            if text_eq(&p.transaction.recipient, &a.transaction.sender)
                && p.transaction.payment_amount == a.agreed_trade_price
                && a.transaction.token_amount == p.agreed_token_amount {
                let response = ReturnDVPTransactions::success_match(
                    &a.transaction.sender,
                    a.agreed_trade_price,
                    &p.transaction.sender,
                    p.agreed_token_amount,
                );
                Reply { status: EnclaveStatus::Success, response: Some(response) }
            } else {
                Reply { status: EnclaveStatus::Success, response: None }
            }
        },
        (Order::Payment(p), Order::Asset(a)) => {
            if text_eq(&a.transaction.recipient, &p.transaction.sender)
                && a.transaction.token_amount == p.agreed_token_amount
                && p.transaction.payment_amount == a.agreed_trade_price {
                let response = ReturnDVPTransactions::success_match(
                    &a.transaction.sender,
                    p.agreed_trade_price,
                    &p.transaction.sender,
                    a.agreed_token_amount,
                );
                Reply { status: EnclaveStatus::Success, response: Some(response) }
            } else {
                Reply { status: EnclaveStatus::Success, response: None }
            }
        },
        _ => Reply { status: EnclaveStatus::Unexpected, response: None },
    }
}

impl Settlement {
    /// Starts handling `order`: the first action looks for the record of its
    /// recipient.
    pub fn new(order: Order) -> (r: (Settlement, Action))
        ensures
            r.0@ == begin(order@).0,
            r.1@ == begin(order@).1,
    {
        let name = text_clone(order.recipient());
        (Settlement { order, phase: Phase::AwaitingRecipient }, Action::CheckRecord(name))
    }

    /// The order being handled.
    pub fn order(&self) -> (r: &Order)
        ensures
            r@ == self@.order,
    {
        &self.order
    }

    /// Where the handling stands.
    pub fn phase(&self) -> (r: Phase)
        ensures
            r == self@.phase,
    {
        self.phase
    }

    /// Whether the machine takes `event` now.
    pub fn accepts(&self, event: &Event) -> (r: bool)
        ensures
            r == accepts(self@, event@),
    {
        match (self.phase, event) {
            (Phase::AwaitingRecipient, Event::RecordChecked(_)) => true,
            (Phase::AwaitingCounterpart, Event::Loaded(Some(c))) => c.is_asset()
                != self.order.is_asset(),
            (Phase::AwaitingCounterpart, Event::Loaded(None)) => true,
            (Phase::AwaitingSender, Event::RecordChecked(_)) => true,
            (Phase::AwaitingStore, Event::Stored(_)) => true,
            _ => false,
        }
    }

    /// Takes the event that answers the last action, and gives the next
    /// state and action.
    pub fn step(self, event: Event) -> (r: (Settlement, Action))
        requires
            accepts(self@, event@),
        ensures
            r.0@ == transition(self@, event@).0,
            r.1@ == transition(self@, event@).1,
    {
        let Settlement { order, phase } = self;
        match (phase, event) {
            (Phase::AwaitingRecipient, Event::RecordChecked(true)) => {
                let name = text_clone(order.recipient());
                (Settlement { order, phase: Phase::AwaitingCounterpart }, Action::LoadRecord(name))
            },
            (Phase::AwaitingRecipient, Event::RecordChecked(false)) => {
                let name = text_clone(order.sender());
                (Settlement { order, phase: Phase::AwaitingSender }, Action::CheckRecord(name))
            },
            (Phase::AwaitingCounterpart, Event::Loaded(Some(c))) => {
                let reply = decide(&order, &c);
                (Settlement { order, phase: Phase::Finished }, Action::Finish(reply))
            },
            (Phase::AwaitingSender, Event::RecordChecked(true)) => {
                let reply = Reply {
                    status: EnclaveStatus::Success,
                    response: Some(ReturnDVPTransactions::duplicate_notice()),
                };
                (Settlement { order, phase: Phase::Finished }, Action::Finish(reply))
            },
            (Phase::AwaitingSender, Event::RecordChecked(false)) => {
                let name = text_clone(order.sender());
                (Settlement { order, phase: Phase::AwaitingStore }, Action::StoreRecord(name))
            },
            (Phase::AwaitingStore, Event::Stored(true)) => {
                let reply = Reply {
                    status: EnclaveStatus::Success,
                    response: Some(ReturnDVPTransactions::added_notice()),
                };
                (Settlement { order, phase: Phase::Finished }, Action::Finish(reply))
            },
            _ => {
                let reply = Reply { status: EnclaveStatus::Unexpected, response: None };
                (Settlement { order, phase: Phase::Finished }, Action::Finish(reply))
            },
        }
    }
}

} // verus!
