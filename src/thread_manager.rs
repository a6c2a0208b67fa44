//! Supervision of the daemon's threads over the channel web: each thread holds a `Context`, and
//! the main thread broadcasts an abort to the others when one of them stops.

use vstd::prelude::*;

use std::sync::mpsc::Receiver;

use crate::channels::{ChannelKey, DispatchBox};

verus! {

/// The threads of the daemon, each reachable on its own channel.
#[derive(Debug, Clone, Copy, PartialEq, Eq, Hash, Structural)]
pub enum ChannelId {
    ClockErrorBoundPoller,
    MainThread,
    ShmWriter,
}

/// The messages the threads exchange about their lifecycle.
#[derive(Debug, Clone, Copy, PartialEq, Eq, Structural)]
pub enum Message {
    /// Ask a thread to stop.
    ThreadAbort,
    /// A thread panicked.
    ThreadPanic(ChannelId),
    /// A thread terminated.
    ThreadTerminate(ChannelId),
}

/// The byte that identifies a channel id.
pub open spec fn channel_code(id: ChannelId) -> u8 {
    match id {
        ChannelId::ClockErrorBoundPoller => 0,
        ChannelId::MainThread => 1,
        ChannelId::ShmWriter => 2,
    }
}

impl ChannelKey for ChannelId {
    open spec fn key(&self) -> Seq<u8> {
        seq![channel_code(*self)]
    }

    fn same_channel(&self, other: &Self) -> (r: bool) {
        let r = match (self, other) {
            (ChannelId::ClockErrorBoundPoller, ChannelId::ClockErrorBoundPoller) => true,
            (ChannelId::MainThread, ChannelId::MainThread) => true,
            (ChannelId::ShmWriter, ChannelId::ShmWriter) => true,
            _ => false,
        };
        assert(r == (channel_code(*self) == channel_code(*other)));
        assert(seq![channel_code(*self)][0] == channel_code(*self));
        assert(seq![channel_code(*other)][0] == channel_code(*other));
        r
    }

    fn copy_key(&self) -> (r: Self) {
        *self
    }
}

/// What a thread of the daemon holds: its id, its receiving half, and the dispatch box.
pub struct Context {
    pub channel_id: ChannelId,
    pub mbox: Receiver<Message>,
    pub dbox: DispatchBox<ChannelId, Message>,
}

/// The channels to abort: every one but the main thread's, in order.
pub fn abort_targets(ids: &Vec<ChannelId>) -> (r: Vec<ChannelId>)
    ensures
        r@ == ids@.filter(|c: ChannelId| c != ChannelId::MainThread),
{
    let mut out: Vec<ChannelId> = Vec::new();
    let mut i: usize = 0;
    while i < ids.len()
        invariant
            0 <= i <= ids@.len(),
            out@ == ids@.subrange(0, i as int).filter(|c: ChannelId| c != ChannelId::MainThread),
        decreases ids@.len() - i,
    {
        let c = ids[i];
        proof {
            let f = |c: ChannelId| c != ChannelId::MainThread;
            assert(ids@.subrange(0, i + 1) == ids@.subrange(0, i as int).push(c));
            ids@.subrange(0, i as int).lemma_filter_push(c, f);
        }
        match c {
            ChannelId::MainThread => {},
            _ => out.push(c),
        }
        i = i + 1;
    }
    assert(ids@.subrange(0, ids@.len() as int) == ids@);
    out
}

/// Send an abort to every thread but the main one.
pub fn broadcast_abort(dispatchbox: DispatchBox<ChannelId, Message>) {
    let keys = dispatchbox.keys();
    let targets = abort_targets(&keys);
    let mut i: usize = 0;
    while i < targets.len()
        invariant
            0 <= i <= targets@.len(),
        decreases targets@.len() - i,
    {
        let _ = dispatchbox.send(&targets[i], Message::ThreadAbort);
        i = i + 1;
    }
}

} // verus!
