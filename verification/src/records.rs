//! The records that the enclave receives, stores and answers with.
use vstd::prelude::*;

use crate::text::{text_of, Text};

verus! {

/// Represents an asset transaction: `sender` gives `token_amount` tokens to
/// `recipient`.
#[derive(Debug, PartialEq, Eq)]
pub struct AssetTransaction {
    pub transaction_id: Text,
    pub sender: Text,
    pub recipient: Text,
    pub token_amount: i32,
}

/// Represents a payment transaction: `sender` pays `payment_amount` to
/// `recipient`.
#[derive(Debug, PartialEq, Eq)]
pub struct PaymentTransaction {
    pub transaction_id: Text,
    pub sender: Text,
    pub recipient: Text,
    pub payment_amount: i32,
}

/// Represents an incoming asset transaction with the terms its sender agreed to.
#[derive(Debug, PartialEq, Eq)]
pub struct IncomingAssetTransaction {
    pub transaction: AssetTransaction,
    pub agreed_token_amount: i32,
    pub agreed_trade_price: i32,
}

/// Represents an incoming payment transaction with the terms its sender agreed to.
#[derive(Debug, PartialEq, Eq)]
pub struct IncomingPaymentTransaction {
    pub transaction: PaymentTransaction,
    pub agreed_token_amount: i32,
    pub agreed_trade_price: i32,
}

/// One transfer that the enclave hands back to be executed.
#[derive(Debug, PartialEq, Eq)]
pub struct ReturnTransaction {
    pub transaction_type: Text,
    pub sender: Text,
    pub recipient: Text,
    pub token_id: Text,
    pub amount: Text,
}

/// The enclave's answer to an incoming transaction.
#[derive(Debug, PartialEq, Eq)]
pub struct ReturnDVPTransactions {
    pub message: Text,
    pub transaction_1: Option<ReturnTransaction>,
    pub transaction_2: Option<ReturnTransaction>,
}

/// The model of an [`AssetTransaction`]: its texts as character sequences.
pub struct AssetTransactionView {
    pub transaction_id: Seq<char>,
    pub sender: Seq<char>,
    pub recipient: Seq<char>,
    pub token_amount: i32,
}

/// The model of a [`PaymentTransaction`].
pub struct PaymentTransactionView {
    pub transaction_id: Seq<char>,
    pub sender: Seq<char>,
    pub recipient: Seq<char>,
    pub payment_amount: i32,
}

/// The model of an [`IncomingAssetTransaction`].
pub struct IncomingAssetView {
    pub transaction: AssetTransactionView,
    pub agreed_token_amount: i32,
    pub agreed_trade_price: i32,
}

/// The model of an [`IncomingPaymentTransaction`].
pub struct IncomingPaymentView {
    pub transaction: PaymentTransactionView,
    pub agreed_token_amount: i32,
    pub agreed_trade_price: i32,
}

/// The model of a [`ReturnTransaction`].
pub struct ReturnTransactionView {
    pub transaction_type: Seq<char>,
    pub sender: Seq<char>,
    pub recipient: Seq<char>,
    pub token_id: Seq<char>,
    pub amount: Seq<char>,
}

/// The model of a [`ReturnDVPTransactions`].
pub struct ReturnDvpView {
    pub message: Seq<char>,
    pub transaction_1: Option<ReturnTransactionView>,
    pub transaction_2: Option<ReturnTransactionView>,
}

impl View for AssetTransaction {
    type V = AssetTransactionView;

    open spec fn view(&self) -> AssetTransactionView {
        AssetTransactionView {
            transaction_id: text_of(self.transaction_id),
            sender: text_of(self.sender),
            recipient: text_of(self.recipient),
            token_amount: self.token_amount,
        }
    }
}

impl View for PaymentTransaction {
    type V = PaymentTransactionView;

    open spec fn view(&self) -> PaymentTransactionView {
        PaymentTransactionView {
            transaction_id: text_of(self.transaction_id),
            sender: text_of(self.sender),
            recipient: text_of(self.recipient),
            payment_amount: self.payment_amount,
        }
    }
}

impl View for IncomingAssetTransaction {
    type V = IncomingAssetView;

    open spec fn view(&self) -> IncomingAssetView {
        IncomingAssetView {
            transaction: self.transaction@,
            agreed_token_amount: self.agreed_token_amount,
            agreed_trade_price: self.agreed_trade_price,
        }
    }
}

impl View for IncomingPaymentTransaction {
    type V = IncomingPaymentView;

    open spec fn view(&self) -> IncomingPaymentView {
        IncomingPaymentView {
            transaction: self.transaction@,
            agreed_token_amount: self.agreed_token_amount,
            agreed_trade_price: self.agreed_trade_price,
        }
    }
}

impl View for ReturnTransaction {
    type V = ReturnTransactionView;

    open spec fn view(&self) -> ReturnTransactionView {
        ReturnTransactionView {
            transaction_type: text_of(self.transaction_type),
            sender: text_of(self.sender),
            recipient: text_of(self.recipient),
            token_id: text_of(self.token_id),
            amount: text_of(self.amount),
        }
    }
}

/// The model of an optional transfer.
pub open spec fn transfer_view(t: Option<ReturnTransaction>) -> Option<ReturnTransactionView> {
    match t {
        Some(t) => Some(t@),
        None => None,
    }
}

impl View for ReturnDVPTransactions {
    type V = ReturnDvpView;

    open spec fn view(&self) -> ReturnDvpView {
        ReturnDvpView {
            message: text_of(self.message),
            transaction_1: transfer_view(self.transaction_1),
            transaction_2: transfer_view(self.transaction_2),
        }
    }
}

} // verus!
