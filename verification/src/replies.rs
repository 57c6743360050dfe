//! The answers that the enclave gives, and the conditions under which an
//! asset transaction and a payment transaction settle each other.
use vstd::prelude::*;
use vstd::string::is_ascii_spec_bytes;

use crate::records::{
    IncomingAssetView, IncomingPaymentView, ReturnDVPTransactions, ReturnDvpView,
    ReturnTransaction, ReturnTransactionView,
};
use crate::text::{decimal_text, lemma_decimal_text_reads_back, read_decimal, text_clone, text_from_i32, text_from_str, text_of, Text};

verus! {

/// The message of a reply that settles two transactions.
pub open spec fn success_message() -> Seq<char> {
    "SuccessMatch"@
}

/// The message of a reply to a transaction whose sender already has a
/// pending one.
pub open spec fn duplicate_message() -> Seq<char> {
    "DuplicateTransactionExists"@
}

/// The message of a reply to a transaction that was recorded to wait for its
/// counterpart.
pub open spec fn added_message() -> Seq<char> {
    "SuccessfullyAddedNewTransaction"@
}

/// The account from which the enclave executes both transfers of a settlement.
pub open spec fn enclave_wallet() -> Seq<char> {
    "enclave wallet address"@
}

/// A reply that carries only a message.
pub open spec fn notice_view(message: Seq<char>) -> ReturnDvpView {
    ReturnDvpView { message, transaction_1: None, transaction_2: None }
}

/// The reply that settles a trade: the enclave pays `price` in XRP to the
/// seller and transfers `tokens` Foo tokens to the buyer.
pub open spec fn settlement_view(
    seller: Seq<char>,
    price: i32,
    buyer: Seq<char>,
    tokens: i32,
) -> ReturnDvpView {
    ReturnDvpView {
        message: success_message(),
        transaction_1: Some(
            ReturnTransactionView {
                transaction_type: "Payment"@,
                sender: enclave_wallet(),
                recipient: seller,
                token_id: "XRP"@,
                amount: decimal_text(price as int),
            },
        ),
        transaction_2: Some(
            ReturnTransactionView {
                transaction_type: "TokenTransfer"@,
                sender: enclave_wallet(),
                recipient: buyer,
                token_id: "Foo"@,
                amount: decimal_text(tokens as int),
            },
        ),
    }
}

/// A settlement reply pays the seller the price and delivers the tokens to
/// the buyer: the first transfer is a payment in XRP to `seller` whose amount
/// reads back as `price`, the second a transfer of Foo to `buyer` whose
/// amount reads back as `tokens`, both from the enclave wallet.
pub proof fn lemma_settlement_pays_price_and_delivers_tokens(
    seller: Seq<char>,
    price: i32,
    buyer: Seq<char>,
    tokens: i32,
)
    ensures
        settlement_view(seller, price, buyer, tokens).message == "SuccessMatch"@,
        settlement_view(seller, price, buyer, tokens).transaction_1 matches Some(t) && {
            &&& t.transaction_type == "Payment"@
            &&& t.sender == "enclave wallet address"@
            &&& t.recipient == seller
            &&& t.token_id == "XRP"@
            &&& t.amount == decimal_text(price as int)
            &&& read_decimal(t.amount) == price
        },
        settlement_view(seller, price, buyer, tokens).transaction_2 matches Some(t) && {
            &&& t.transaction_type == "TokenTransfer"@
            &&& t.sender == "enclave wallet address"@
            &&& t.recipient == buyer
            &&& t.token_id == "Foo"@
            &&& t.amount == decimal_text(tokens as int)
            &&& read_decimal(t.amount) == tokens
        },
{
    lemma_decimal_text_reads_back(price as int);
    lemma_decimal_text_reads_back(tokens as int);
}

/// An incoming asset transaction `a` is settled by a recorded payment `p`:
/// `p` pays the sender of `a`, pays the price that `a` agreed to, and `a`
/// delivers the token amount that `p` agreed to.
pub open spec fn asset_settles_with(a: IncomingAssetView, p: IncomingPaymentView) -> bool {
    &&& p.transaction.recipient == a.transaction.sender
    &&& p.transaction.payment_amount == a.agreed_trade_price
    &&& a.transaction.token_amount == p.agreed_token_amount
}

/// An incoming payment transaction `p` is settled by a recorded asset
/// transaction `a`: `a` delivers to the sender of `p`, delivers the token
/// amount that `p` agreed to, and `p` pays the price that `a` agreed to.
pub open spec fn payment_settles_with(p: IncomingPaymentView, a: IncomingAssetView) -> bool {
    &&& a.transaction.recipient == p.transaction.sender
    &&& a.transaction.token_amount == p.agreed_token_amount
    &&& p.transaction.payment_amount == a.agreed_trade_price
}

/// A text from a short ASCII literal.
fn literal_text(s: &str) -> (r: Text)
    requires
        vstd::string::is_ascii(s),
        s@.len() <= 64,
    ensures
        text_of(r) == s@,
{
    proof {
        broadcast use is_ascii_spec_bytes;
    }
    text_from_str(s)
}

impl ReturnDVPTransactions {
    /// The reply that settles a trade: a payment of `price` XRP from the
    /// enclave wallet to `seller`, and a transfer of `tokens` Foo from the
    /// enclave wallet to `buyer`.
    pub fn success_match(seller: &Text, price: i32, buyer: &Text, tokens: i32) -> (r: Self)
        ensures
            r@ == settlement_view(text_of(*seller), price, text_of(*buyer), tokens),
            text_of(r.message) == "SuccessMatch"@,
            r.transaction_1 is Some,
            r.transaction_2 is Some,
            text_of(r.transaction_1.unwrap().transaction_type) == "Payment"@,
            text_of(r.transaction_1.unwrap().sender) == "enclave wallet address"@,
            text_of(r.transaction_1.unwrap().recipient) == text_of(*seller),
            text_of(r.transaction_1.unwrap().token_id) == "XRP"@,
            text_of(r.transaction_1.unwrap().amount) == decimal_text(price as int),
            text_of(r.transaction_2.unwrap().transaction_type) == "TokenTransfer"@,
            text_of(r.transaction_2.unwrap().sender) == "enclave wallet address"@,
            text_of(r.transaction_2.unwrap().recipient) == text_of(*buyer),
            text_of(r.transaction_2.unwrap().token_id) == "Foo"@,
            text_of(r.transaction_2.unwrap().amount) == decimal_text(tokens as int),
    {
        proof {
            reveal_strlit("Payment");
            reveal_strlit("enclave wallet address");
            reveal_strlit("XRP");
            reveal_strlit("TokenTransfer");
            reveal_strlit("Foo");
            reveal_strlit("SuccessMatch");
            assert(vstd::string::is_ascii("Payment"));
            assert(vstd::string::is_ascii("enclave wallet address"));
            assert(vstd::string::is_ascii("XRP"));
            assert(vstd::string::is_ascii("TokenTransfer"));
            assert(vstd::string::is_ascii("Foo"));
            assert(vstd::string::is_ascii("SuccessMatch"));
        }
        let payment = ReturnTransaction {
            transaction_type: literal_text("Payment"),
            sender: literal_text("enclave wallet address"),
            recipient: text_clone(seller),
            token_id: literal_text("XRP"),
            amount: text_from_i32(price),
        };
        let transfer = ReturnTransaction {
            transaction_type: literal_text("TokenTransfer"),
            sender: literal_text("enclave wallet address"),
            recipient: text_clone(buyer),
            token_id: literal_text("Foo"),
            amount: text_from_i32(tokens),
        };
        ReturnDVPTransactions {
            message: literal_text("SuccessMatch"),
            transaction_1: Some(payment),
            transaction_2: Some(transfer),
        }
    }

    /// The reply to a transaction whose sender already has one pending.
    pub fn duplicate_notice() -> (r: Self)
        ensures
            r@ == notice_view(duplicate_message()),
            text_of(r.message) == "DuplicateTransactionExists"@,
            r.transaction_1 is None,
            r.transaction_2 is None,
    {
        proof {
            reveal_strlit("DuplicateTransactionExists");
            assert(vstd::string::is_ascii("DuplicateTransactionExists"));
        }
        ReturnDVPTransactions {
            message: literal_text("DuplicateTransactionExists"),
            transaction_1: None,
            transaction_2: None,
        }
    }

    /// The reply to a transaction that was recorded to wait for its counterpart.
    pub fn added_notice() -> (r: Self)
        ensures
            r@ == notice_view(added_message()),
            text_of(r.message) == "SuccessfullyAddedNewTransaction"@,
            r.transaction_1 is None,
            r.transaction_2 is None,
    {
        proof {
            reveal_strlit("SuccessfullyAddedNewTransaction");
            assert(vstd::string::is_ascii("SuccessfullyAddedNewTransaction"));
        }
        ReturnDVPTransactions {
            message: literal_text("SuccessfullyAddedNewTransaction"),
            transaction_1: None,
            transaction_2: None,
        }
    }
}

} // verus!
