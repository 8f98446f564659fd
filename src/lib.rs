//! Concurrency building blocks (an ordered multi-producer message queue, a
//! counter handed out under mutual exclusion, and a join coordinator for
//! workers), each as a verified state machine, together with a handful of
//! small verified everyday routines.
pub mod arith;
pub mod channel;
pub mod counter;
mod front_of_house;
pub mod generics;
pub mod gui;
pub mod matching;
pub mod rectangle;
pub mod restaurant;
pub mod shoes;
pub mod summary;
pub mod text;
pub mod user;
pub mod worker;

pub use crate::front_of_house::hosting;
