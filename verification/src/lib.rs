//! Verified core of a key-value store write client: an update-expression
//! assembler that compiles `SET`/`ADD`/`REMOVE`/`DELETE` fragments into a
//! single expression string with placeholder substitution maps, and a
//! retry-governed transactional write runner.

pub mod assoc;
pub mod errors;
pub mod expression;
pub mod numerals;
pub mod retry;
pub mod transaction;
pub mod update;
pub mod values;
