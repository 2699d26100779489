//! Replays the instructions that touch non-fungible tokens: a partitioner that
//! picks them out of transactions and groups them by token, and an assembler
//! that folds each group into the token's current state.

pub mod assemble;
pub mod fetch;
pub mod instruction;
pub mod key;
pub mod lifecycle;
pub mod metadata;
pub mod order;
pub mod partition;
pub mod search;
pub mod token;
pub mod transaction;
pub mod views;
