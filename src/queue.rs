//! A multi-producer, single-consumer queue with one item of lookahead, so that
//! the worker can see that a newer request has come without taking it.
use std::sync::mpsc::{Receiver, RecvError, TryRecvError};
use vstd::prelude::*;

verus! {

/// std's `mpsc::Receiver`, carried opaquely: the requests of every handle arrive through it.
#[verifier::external_type_specification]
#[verifier::external_body]
#[verifier::reject_recursive_types(T)]
pub struct ExReceiver<T>(Receiver<T>);

/// std's `mpsc::RecvError`, carried opaquely: every sender is gone.
#[verifier::external_type_specification]
#[verifier::external_body]
pub struct ExRecvError(RecvError);

/// std's `mpsc::TryRecvError`, carried opaquely: nothing queued, or every sender gone.
#[verifier::external_type_specification]
#[verifier::external_body]
pub struct ExTryRecvError(TryRecvError);

/// Relies on Receiver::try_recv: takes a queued value without blocking. What
/// comes back depends on the other threads, so nothing is stated of it.
#[verifier::external_body]
fn poll_channel<T>(rx: &Receiver<T>) -> (r: Result<T, TryRecvError>) {
    rx.try_recv()
}

/// Relies on Receiver::recv: blocks until a value comes, or fails once every
/// sender is gone. What comes back depends on the other threads, so nothing is
/// stated of it.
#[verifier::external_body]
fn wait_channel<T>(rx: &Receiver<T>) -> (r: Result<T, RecvError>) {
    rx.recv()
}

/// The receiving end of a channel, holding at most one value taken ahead of time.
#[verifier::reject_recursive_types(T)]
pub struct PeekableReceiver<T> {
    rx: Receiver<T>,
    peeked: Option<T>,
}

impl<T> PeekableReceiver<T> {
    /// The value taken ahead of time, which the next receive hands out first.
    pub closed spec fn held(&self) -> Option<T> {
        self.peeked
    }

    /// Wraps the receiving end of a channel, with nothing held.
    pub fn new(rx: Receiver<T>) -> (r: PeekableReceiver<T>)
        ensures
            r.held() is None,
    {
        PeekableReceiver { rx, peeked: None }
    }

    /// Keeps what a poll of the channel gave, where nothing is held yet: a
    /// value becomes the held one and is returned; an error leaves nothing held.
    pub fn hold_polled(&mut self, polled: Result<T, TryRecvError>) -> (r: Option<&T>)
        requires
            old(self).held() is None,
        ensures
            match polled {
                Ok(v) => final(self).held() == Some(v) && r is Some && *r->Some_0 == v,
                Err(_) => r is None && final(self).held() is None,
            },
    {
        match polled {
            Ok(value) => {
                self.peeked = Some(value);
                self.peeked.as_ref()
            },
            Err(_) => None,
        }
    }

    /// The next value, without removing it from the queue: the held one if
    /// there is one, else the result of polling the channel without blocking,
    /// kept by `hold_polled`. `None` where the channel has nothing queued.
    pub fn peek(&mut self) -> (r: Option<&T>)
        ensures
            old(self).held() is Some ==> final(self).held() == old(self).held() && r is Some
                && *r->Some_0 == old(self).held()->Some_0,
            old(self).held() is None ==> match r {
                Some(v) => final(self).held() == Some(*v),
                None => final(self).held() is None,
            },
    {
        if self.peeked.is_some() {
            return self.peeked.as_ref();
        }
        let polled = poll_channel(&self.rx);
        self.hold_polled(polled)
    }

    /// Takes the next value without blocking: the held one first, else one
    /// from the channel.
    pub fn try_recv(&mut self) -> (r: Result<T, TryRecvError>)
        ensures
            final(self).held() is None,
            old(self).held() is Some ==> r == Ok::<T, TryRecvError>(old(self).held()->Some_0),
    {
        match self.peeked.take() {
            Some(value) => Ok(value),
            None => poll_channel(&self.rx),
        }
    }

    /// Takes the next value, blocking until one comes: the held one first,
    /// else one from the channel. Fails once the channel is empty and every
    /// sender is gone.
    pub fn recv(&mut self) -> (r: Result<T, RecvError>)
        ensures
            final(self).held() is None,
            old(self).held() is Some ==> r == Ok::<T, RecvError>(old(self).held()->Some_0),
    {
        match self.peeked.take() {
            Some(value) => Ok(value),
            None => wait_channel(&self.rx),
        }
    }
}

} // verus!
