//! Trusted declarations for the broadcast channel that a download
//! episode uses to fan its terminal outcome out to every waiter.
//!
//! The channel is a single-producer, multi-consumer watch channel: every
//! receiver observes the latest value stored through the sender.  What a
//! particular receiver observes, and when, depends on scheduling, so
//! nothing is promised of the values here; the verified single-flight
//! logic is stated entirely over which slot holds a sender.

use vstd::prelude::*;

verus! {

#[verifier::external_type_specification]
#[verifier::external_body]
#[verifier::reject_recursive_types(T)]
pub struct ExWatchSender<T>(tokio::sync::watch::Sender<T>);

#[verifier::external_type_specification]
#[verifier::external_body]
#[verifier::reject_recursive_types(T)]
pub struct ExWatchReceiver<T>(tokio::sync::watch::Receiver<T>);

/// Relies on tokio::sync::watch::channel: creates a channel holding
/// `init`, returning its sender and one receiver.
pub assume_specification<T>[ tokio::sync::watch::channel::<T> ](init: T) -> (
    tokio::sync::watch::Sender<T>,
    tokio::sync::watch::Receiver<T>,
);

/// Relies on tokio::sync::watch::Sender::subscribe: creates one more
/// receiver observing the same channel.
pub assume_specification<T>[ tokio::sync::watch::Sender::<T>::subscribe ](
    s: &tokio::sync::watch::Sender<T>,
) -> tokio::sync::watch::Receiver<T>;

/// Relies on tokio::sync::watch::Sender::send_replace: stores `value` in
/// the channel unconditionally, notifying every receiver, and returns
/// the value it replaced.
pub assume_specification<T>[ tokio::sync::watch::Sender::<T>::send_replace ](
    s: &tokio::sync::watch::Sender<T>,
    value: T,
) -> T;

} // verus!
