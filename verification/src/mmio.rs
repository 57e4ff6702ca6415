//! Declarations for the channel endpoints that carry memory-mapped I/O
//! traffic between the memory controller and its peripherals. A request is
//! `(folded_address, Option<u32>)`: `Some(v)` is a write of `v`, `None` is a
//! read; the response channel carries the word answering a read.
//!
//! The endpoints come from `std::sync::mpsc`. Nothing is assumed of what
//! travels on a channel: a send may fail when the peer is gone, and a
//! receive yields whatever the peer sent, so every contract downstream
//! states only what holds of any outcome.

use vstd::prelude::*;

verus! {

/// Relies on `std::sync::mpsc::Sender`: the sending half of a channel.
#[verifier::external_type_specification]
#[verifier::external_body]
#[verifier::reject_recursive_types(T)]
pub struct ExSender<T>(std::sync::mpsc::Sender<T>);

/// Relies on `std::sync::mpsc::Receiver`: the receiving half of a channel.
#[verifier::external_type_specification]
#[verifier::external_body]
#[verifier::reject_recursive_types(T)]
pub struct ExReceiver<T>(std::sync::mpsc::Receiver<T>);

/// Relies on `std::sync::mpsc::SendError`: the error of a send on a channel
/// whose receiver is gone, carrying the value back.
#[verifier::external_type_specification]
#[verifier::external_body]
#[verifier::reject_recursive_types(T)]
pub struct ExSendError<T>(std::sync::mpsc::SendError<T>);

/// Relies on `std::sync::mpsc::RecvError`: the error of a receive on a
/// channel whose sender is gone.
#[verifier::external_type_specification]
#[verifier::external_body]
pub struct ExRecvError(std::sync::mpsc::RecvError);

/// Relies on `std::sync::mpsc::channel`: creates a connected sender and
/// receiver pair.
pub assume_specification<T>[ std::sync::mpsc::channel ]() -> (r: (
    std::sync::mpsc::Sender<T>,
    std::sync::mpsc::Receiver<T>,
));

/// Relies on `std::sync::mpsc::Sender::send`: delivers a value to the peer,
/// or fails when the peer is gone. Nothing can be promised of the effect.
pub assume_specification<T>[ std::sync::mpsc::Sender::<T>::send ](
    sender: &std::sync::mpsc::Sender<T>,
    t: T,
) -> (r: Result<(), std::sync::mpsc::SendError<T>>);

/// Relies on `std::sync::mpsc::Receiver::recv`: blocks until the peer sends
/// a value, or fails when the peer is gone. The value received depends on
/// the peer alone, so nothing can be promised of it.
pub assume_specification<T>[ std::sync::mpsc::Receiver::<T>::recv ](
    receiver: &std::sync::mpsc::Receiver<T>,
) -> (r: Result<T, std::sync::mpsc::RecvError>);

} // verus!
