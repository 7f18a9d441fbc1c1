//! A single-producer, single-consumer channel between threads and coroutines.
//!
//! The two halves of a channel share an [`InnerQueue`](inner::InnerQueue): the
//! messages, who waits for the next one, and whether the halves are still there.
//! Every operation on it is a value that says what is to be done next
//! ([`send`], [`recv`], [`timeout`], [`park`]); a step of it is one access to the
//! shared state. What lies outside that state is not done here: the operation
//! says whom to wake or how to wait, and goes on when it is told how that ended.
//! [`channel`] offers the operations as single calls, for when nobody else is at
//! the channel.
//!
//! [`step_laws`] says of each call and step what it does to a channel.
//! [`system`] lets everybody act at once, in any order, and [`laws`] proves what
//! holds whatever that order is. Each access is taken to be seen by everybody
//! before the next one.
pub mod blocker;
pub mod channel;
pub mod error;
pub mod fifo;
pub mod inner;
pub mod laws;
pub mod park;
pub mod recv;
pub mod send;
pub mod slot;
pub mod step_laws;
pub mod system;
pub mod timeout;
