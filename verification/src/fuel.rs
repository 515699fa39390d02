//! Record type enums of the Fuel data domain.

use vstd::prelude::*;

verus! {

use crate::error::Error;

/// Kinds of Fuel transactions.
#[derive(Clone, Copy, Debug, Default, Hash, PartialEq, Eq, Structural)]
pub enum TransactionType {
    #[default]
    Unknown,
    Script,
    Create,
    Mint,
    Upgrade,
    Upload,
}

/// Query-string name of a transaction type.
pub open spec fn spec_transaction_type_name(t: TransactionType) -> Seq<char> {
    match t {
        TransactionType::Unknown => "unknown"@,
        TransactionType::Script => "script"@,
        TransactionType::Create => "create"@,
        TransactionType::Mint => "mint"@,
        TransactionType::Upgrade => "upgrade"@,
        TransactionType::Upload => "upload"@,
    }
}

/// Numeric code of a transaction type.
pub open spec fn spec_transaction_type_num(t: TransactionType) -> i32 {
    match t {
        TransactionType::Unknown => 0,
        TransactionType::Script => 1,
        TransactionType::Create => 2,
        TransactionType::Mint => 3,
        TransactionType::Upgrade => 4,
        TransactionType::Upload => 5,
    }
}

impl TransactionType {
    /// Query-string name of this transaction type.
    pub fn as_str(&self) -> (r: &'static str)
        ensures
            r@ == spec_transaction_type_name(*self),
    {
        match self {
            TransactionType::Unknown => "unknown",
            TransactionType::Script => "script",
            TransactionType::Create => "create",
            TransactionType::Mint => "mint",
            TransactionType::Upgrade => "upgrade",
            TransactionType::Upload => "upload",
        }
    }

    /// The transaction type a numeric code names; the unknown-code error
    /// exactly otherwise.
    pub fn try_from(v: i32) -> (r: Result<TransactionType, Error>)
        ensures
            r matches Ok(t) ==> spec_transaction_type_num(t) == v,
            r is Err <==> !(0 <= v <= 5),
            r matches Err(e) ==> e == Error::UnknownTransactionType(v),
    {
        match v {
            0 => Ok(TransactionType::Unknown),
            1 => Ok(TransactionType::Script),
            2 => Ok(TransactionType::Create),
            3 => Ok(TransactionType::Mint),
            4 => Ok(TransactionType::Upgrade),
            5 => Ok(TransactionType::Upload),
            _ => Err(Error::UnknownTransactionType(v)),
        }
    }
}

/// State changes of a Spark order.
#[derive(Clone, Copy, Debug, Default, Hash, PartialEq, Eq, Structural)]
pub enum OrderChangeType {
    #[default]
    Open,
    Cancel,
    Match,
}

/// Sides of a Spark order.
#[derive(Clone, Copy, Debug, Default, Hash, PartialEq, Eq, Structural)]
pub enum OrderType {
    #[default]
    Buy,
    Sell,
}

/// Numeric code of an order change.
pub open spec fn spec_order_change_type_num(t: OrderChangeType) -> i32 {
    match t {
        OrderChangeType::Open => 0,
        OrderChangeType::Cancel => 1,
        OrderChangeType::Match => 2,
    }
}

/// Numeric code of an order side.
pub open spec fn spec_order_type_num(t: OrderType) -> i32 {
    match t {
        OrderType::Buy => 0,
        OrderType::Sell => 1,
    }
}

/// Kinds of Fuel receipts.
#[derive(Clone, Copy, Debug, Default, Hash, PartialEq, Eq, Structural)]
pub enum ReceiptType {
    #[default]
    Call,
    Return,
    ReturnData,
    Panic,
    Revert,
    Log,
    LogData,
    Transfer,
    TransferOut,
    ScriptResult,
    MessageOut,
    Mint,
    Burn,
}

/// Numeric code of a receipt type.
pub open spec fn spec_receipt_type_num(t: ReceiptType) -> i32 {
    match t {
        ReceiptType::Call => 0,
        ReceiptType::Return => 1,
        ReceiptType::ReturnData => 2,
        ReceiptType::Panic => 3,
        ReceiptType::Revert => 4,
        ReceiptType::Log => 5,
        ReceiptType::LogData => 6,
        ReceiptType::Transfer => 7,
        ReceiptType::TransferOut => 8,
        ReceiptType::ScriptResult => 9,
        ReceiptType::MessageOut => 10,
        ReceiptType::Mint => 11,
        ReceiptType::Burn => 12,
    }
}

/// Query-string name of a receipt type.
pub open spec fn spec_receipt_type_name(t: ReceiptType) -> Seq<char> {
    match t {
        ReceiptType::Call => "Call"@,
        ReceiptType::Return => "Return"@,
        ReceiptType::ReturnData => "ReturnData"@,
        ReceiptType::Panic => "Panic"@,
        ReceiptType::Revert => "Revert"@,
        ReceiptType::Log => "Log"@,
        ReceiptType::LogData => "LogData"@,
        ReceiptType::Transfer => "Transfer"@,
        ReceiptType::TransferOut => "TransferOut"@,
        ReceiptType::ScriptResult => "ScriptResult"@,
        ReceiptType::MessageOut => "MessageOut"@,
        ReceiptType::Mint => "Mint"@,
        ReceiptType::Burn => "Burn"@,
    }
}

impl ReceiptType {
    /// Query-string name of this receipt type.
    pub fn as_str(&self) -> (r: &'static str)
        ensures
            r@ == spec_receipt_type_name(*self),
    {
        match self {
            ReceiptType::Call => "Call",
            ReceiptType::Return => "Return",
            ReceiptType::ReturnData => "ReturnData",
            ReceiptType::Panic => "Panic",
            ReceiptType::Revert => "Revert",
            ReceiptType::Log => "Log",
            ReceiptType::LogData => "LogData",
            ReceiptType::Transfer => "Transfer",
            ReceiptType::TransferOut => "TransferOut",
            ReceiptType::ScriptResult => "ScriptResult",
            ReceiptType::MessageOut => "MessageOut",
            ReceiptType::Mint => "Mint",
            ReceiptType::Burn => "Burn",
        }
    }
}

} // verus!
