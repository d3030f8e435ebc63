//! Small verified lessons on ownership, borrowing, traits and generics, and the
//! control logic of a runner that drives one deferred computation to completion.
pub mod animals;
pub mod collections;
pub mod generics;
pub mod lifetimes;
pub mod ownership;
pub mod person;
pub mod pointers;
pub mod runner;
