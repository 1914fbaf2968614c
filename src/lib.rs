//! Ownership, moves, borrowing and scope-based release, stated as contracts.
//!
//! `transfer` holds the operations on owned text buffers (construct, move
//! through a function, clone, borrow, mutate through a borrow), each with a
//! contract that says what the caller holds afterwards. `lifecycle` models the
//! access state of one buffer (owned, shared or exclusive borrows, moved-from,
//! released) as a checked state machine, and proves the exclusivity rules.
pub mod lifecycle;
pub mod transfer;
