//! The context handed to plugin code on every audio-processing call.

use crate::context::{Identity, PluginApi};
use vstd::prelude::*;

verus! {

/// A time signature, such as 3/4.
#[derive(Debug, Clone, Copy, PartialEq, Eq, Structural)]
pub struct TimeSignature {
    pub numerator: u32,
    pub denominator: u32,
}

/// The host's transport at the start of a processing block. A value the host
/// did not supply is `None`.
#[derive(Debug, Clone, Copy, PartialEq, Eq, Structural)]
pub struct Transport {
    /// Whether the transport is running.
    pub playing: bool,
    /// The tempo in thousandths of a beat per minute.
    pub tempo_millibpm: Option<u32>,
    /// The time signature.
    pub time_signature: Option<TimeSignature>,
}

/// What a processing call leaves for the wrapper to forward to the host once
/// the call has returned.
#[derive(Debug)]
pub struct ProcessOutcome<E> {
    /// Whether the plugin asked for processing to be restarted.
    pub restart: bool,
    /// Whether the plugin asked for a parameter flush.
    pub flush: bool,
    /// The output events of this block, oldest first.
    pub events: Vec<E>,
}

/// What a [`ProcessContext`] holds.
pub struct ProcessView<E> {
    pub api: PluginApi,
    pub transport: Transport,
    pub restart: bool,
    pub flush: bool,
    pub events: Seq<E>,
    pub capacity: nat,
}

/// The handle for one processing call, with output events of type `E`.
///
/// The call runs under a real-time deadline. Nothing here waits for the host:
/// a restart or a flush is noted and carried out after the call, and the
/// output events go into a queue of fixed capacity. An event that finds the
/// queue full is dropped.
#[derive(Debug)]
pub struct ProcessContext<'a, E> {
    identity: &'a Identity,
    transport: Transport,
    restart: bool,
    flush: bool,
    events: Vec<E>,
    capacity: usize,
}

impl<'a, E> View for ProcessContext<'a, E> {
    type V = ProcessView<E>;

    closed spec fn view(&self) -> ProcessView<E> {
        ProcessView {
            api: self.identity.api(),
            transport: self.transport,
            restart: self.restart,
            flush: self.flush,
            events: self.events@,
            capacity: self.capacity as nat,
        }
    }
}

impl<'a, E> ProcessContext<'a, E> {
    #[verifier::type_invariant]
    spec fn within_capacity(&self) -> bool {
        self.events@.len() <= self.capacity
    }

    /// Makes the context for one processing call: nothing requested, no event
    /// queued, room for `capacity` events.
    pub fn new(identity: &'a Identity, transport: Transport, capacity: usize) -> (context: Self)
        ensures
            context@ == (ProcessView {
                api: identity.api(),
                transport,
                restart: false,
                flush: false,
                events: Seq::<E>::empty(),
                capacity: capacity as nat,
            }),
    {
        ProcessContext {
            identity,
            transport,
            restart: false,
            flush: false,
            events: Vec::new(),
            capacity,
        }
    }

    /// The protocol the plugin runs under.
    pub fn plugin_api(&self) -> (api: PluginApi)
        ensures
            api == self@.api,
    {
        self.identity.plugin_api()
    }

    /// The transport as it was when the block began.
    pub fn transport(&self) -> (transport: Transport)
        ensures
            transport == self@.transport,
    {
        self.transport
    }

    /// Notes that the host is to restart processing once this call has
    /// returned. Doing so again changes nothing.
    pub fn defer_restart(&mut self)
        ensures
            final(self)@ == (ProcessView { restart: true, ..old(self)@ }),
    {
        proof {
            use_type_invariant(&*self);
        }
        self.restart = true;
    }

    /// Notes that the host is to flush the parameter values once this call
    /// has returned. Doing so again changes nothing.
    pub fn defer_flush(&mut self)
        ensures
            final(self)@ == (ProcessView { flush: true, ..old(self)@ }),
    {
        proof {
            use_type_invariant(&*self);
        }
        self.flush = true;
    }

    /// Queues an output event for the current block, behind those queued
    /// before. Returns whether there was room; if not, the event is dropped
    /// and nothing changes.
    pub fn send_event(&mut self, event: E) -> (queued: bool)
        ensures
            queued == (old(self)@.events.len() < old(self)@.capacity),
            queued ==> final(self)@ == (ProcessView {
                events: old(self)@.events.push(event),
                ..old(self)@
            }),
            !queued ==> final(self)@ == old(self)@,
            final(self)@.events.len() <= final(self)@.capacity,
    {
        proof {
            use_type_invariant(&*self);
        }
        if self.events.len() < self.capacity {
            let mut events: Vec<E> = Vec::new();
            std::mem::swap(&mut events, &mut self.events);
            events.push(event);
            self.events = events;
            true
        } else {
            false
        }
    }

    /// The number of events in the queue, which is never above the capacity.
    pub fn queued_events(&self) -> (count: usize)
        ensures
            count == self@.events.len(),
            count <= self@.capacity,
    {
        proof {
            use_type_invariant(self);
        }
        self.events.len()
    }

    /// Ends the call and hands what was requested to the wrapper.
    pub fn finish(self) -> (outcome: ProcessOutcome<E>)
        ensures
            outcome.restart == self@.restart,
            outcome.flush == self@.flush,
            outcome.events@ == self@.events,
            outcome.events@.len() <= self@.capacity,
    {
        proof {
            use_type_invariant(&self);
        }
        ProcessOutcome { restart: self.restart, flush: self.flush, events: self.events }
    }
}

} // verus!
