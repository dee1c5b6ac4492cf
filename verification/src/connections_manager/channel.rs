//! The outside types that a connection carries: the two halves of its watch
//! channel and the instants at which its packets were seen.
//!
//! A handle of a watch channel is opaque here: equal `Sender` values are
//! handles of one channel. What the channel holds changes behind shared
//! references and is not modelled.
use std::collections::HashMap;

use tokio::sync::watch::{channel, Receiver, Sender};
use vstd::prelude::*;

use crate::connections_manager::nat_table::NatEntry;
use crate::connections_manager::tcp_state::TcpUpdateState;

verus! {

/// Declares `tokio::sync::watch::Sender`.
#[verifier::external_type_specification]
#[verifier::external_body]
#[verifier::reject_recursive_types(T)]
pub struct ExSender<T>(Sender<T>);

/// Declares `tokio::sync::watch::Receiver`.
#[verifier::external_type_specification]
#[verifier::external_body]
#[verifier::reject_recursive_types(T)]
pub struct ExReceiver<T>(Receiver<T>);

/// Declares `tokio::time::Instant`.
#[verifier::external_type_specification]
#[verifier::external_body]
pub struct ExInstant(tokio::time::Instant);

/// The value with which the channel of `tx` was opened.
pub uninterp spec fn initial_update(tx: Sender<TcpUpdateState>) -> TcpUpdateState;

/// The sending half of the channel that `rx` listens to.
pub uninterp spec fn sending_half(rx: Receiver<TcpUpdateState>) -> Sender<TcpUpdateState>;

/// Calls `tokio::sync::watch::channel` and keeps the sending half: the handle
/// of a channel that was opened with `init`. Each call makes a state of its
/// own, so that the channel is none of those that the connections in `_live`
/// hold.
#[verifier::external_body]
pub(crate) fn open_channel(
    init: TcpUpdateState,
    _live: &HashMap<u16, NatEntry>,
) -> (tx: Sender<TcpUpdateState>)
    ensures
        initial_update(tx) == init,
        forall|port: u16| #[trigger]
            _live@.contains_key(port) ==> _live@[port].tx_flag != tx,
{
    channel(init).0
}

/// Calls `tokio::sync::watch::Sender::clone`: the clone shares the state of
/// `tx`, so it is a handle of the same channel.
#[verifier::external_body]
pub(crate) fn clone_sender(tx: &Sender<TcpUpdateState>) -> (copy: Sender<TcpUpdateState>)
    ensures
        copy == *tx,
{
    tx.clone()
}

/// Calls `tokio::sync::watch::Sender::subscribe`: the receiver listens to the
/// channel of `tx`.
#[verifier::external_body]
pub(crate) fn subscribe(tx: &Sender<TcpUpdateState>) -> (rx: Receiver<TcpUpdateState>)
    ensures
        sending_half(rx) == *tx,
{
    tx.subscribe()
}

/// Calls `tokio::sync::watch::Receiver::clone`: the clone shares the state of
/// `rx` and has seen the same values, so it is the same receiver to a reader.
#[verifier::external_body]
pub(crate) fn clone_receiver(rx: &Receiver<TcpUpdateState>) -> (copy: Receiver<TcpUpdateState>)
    ensures
        copy == *rx,
{
    rx.clone()
}

} // verus!
