//! The transaction schema and its semantic check.
//!
//! A transaction payload's `data` field must carry a complete, typed
//! transaction: non-empty type, sender, receiver, denomination, data and
//! metadata fields, a sender key of exactly 64 characters, and a
//! non-zero amount and fee. Every violation collapses to `false`; the
//! check never fails past its boundary.

use vstd::prelude::*;

verus! {

/// A fully-typed transaction, as carried in a payload's `data` field.
#[derive(Debug)]
pub struct TransactionData {
    pub transaction_type: String,
    pub sender: String,
    pub private_key: String,
    pub receiver: String,
    pub amount: u64,
    pub denom: String,
    pub fee: u64,
    pub flags: u64,
    pub data_type: String,
    pub data: DataField,
    pub metadata: Metadata,
    pub model_type: String,
}

/// The transaction's opaque data content.
#[derive(Debug)]
pub struct DataField {
    pub data: String,
}

/// The transaction's metadata envelope.
#[derive(Debug)]
pub struct Metadata {
    pub meta: Meta,
}

/// The innermost metadata value.
#[derive(Debug)]
pub struct Meta {
    pub value: String,
}

impl Clone for Meta {
    fn clone(&self) -> (r: Self)
        ensures
            r == *self,
    {
        Meta { value: self.value.clone() }
    }
}

impl Clone for Metadata {
    fn clone(&self) -> (r: Self)
        ensures
            r == *self,
    {
        Metadata { meta: self.meta.clone() }
    }
}

impl Clone for DataField {
    fn clone(&self) -> (r: Self)
        ensures
            r == *self,
    {
        DataField { data: self.data.clone() }
    }
}

impl Clone for TransactionData {
    fn clone(&self) -> (r: Self)
        ensures
            r == *self,
    {
        TransactionData {
            transaction_type: self.transaction_type.clone(),
            sender: self.sender.clone(),
            private_key: self.private_key.clone(),
            receiver: self.receiver.clone(),
            amount: self.amount,
            denom: self.denom.clone(),
            fee: self.fee,
            flags: self.flags,
            data_type: self.data_type.clone(),
            data: self.data.clone(),
            metadata: self.metadata.clone(),
            model_type: self.model_type.clone(),
        }
    }
}

/// Exactly when a transaction passes the schema and semantic check.
pub open spec fn spec_valid_transaction(t: TransactionData) -> bool {
    &&& t.transaction_type@.len() > 0
    &&& t.sender@.len() > 0
    &&& t.receiver@.len() > 0
    &&& t.private_key@.len() == 64
    &&& t.amount > 0
    &&& t.denom@.len() > 0
    &&& t.fee > 0
    &&& t.data.data@.len() > 0
    &&& t.metadata.meta.value@.len() > 0
}

/// The per-peer validation predicate: every peer "vote" in a quorum
/// round derives from this same local check of the transaction against
/// the schema. Returns `false` on any violation, never an error.
pub fn validate_data(t: &TransactionData) -> (r: bool)
    ensures
        r == spec_valid_transaction(*t),
{
    if t.transaction_type.as_str().is_empty() {
        return false;
    }
    if t.sender.as_str().is_empty() {
        return false;
    }
    if t.receiver.as_str().is_empty() {
        return false;
    }
    if t.private_key.as_str().unicode_len() != 64 {
        return false;
    }
    if t.amount == 0 {
        return false;
    }
    if t.denom.as_str().is_empty() {
        return false;
    }
    if t.fee == 0 {
        return false;
    }
    if t.data.data.as_str().is_empty() {
        return false;
    }
    if t.metadata.meta.value.as_str().is_empty() {
        return false;
    }
    true
}

} // verus!
