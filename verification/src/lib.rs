//! Market-data connectors: the exchange capability matrix, the subscription
//! handshake, and the normalisation of exchange messages into market events.

pub mod event;
pub mod exchange;
pub mod number;
pub mod integration;
pub mod subscriber;
pub mod subscription;
pub mod time;
pub mod transformer;
pub mod wire;

use vstd::prelude::*;

verus! {

/// What can tell under which identifier it belongs.
pub trait Identifier<T> {
    fn id(&self) -> T;
}

} // verus!
