//! A web of in-process channels, one per channel id: the receiving halves are collected in a
//! `MailBox`, from which each thread takes its own once, and the sending halves in a
//! `DispatchBox`, through which any thread can reach any other.

use vstd::prelude::*;
use vstd::string::StringSliceAdditionalSpecFns;

use std::sync::mpsc::{Receiver, SendError, Sender};

use crate::status::bytes_equal;

verus! {

#[verifier::external_type_specification]
#[verifier::external_body]
#[verifier::reject_recursive_types(T)]
pub struct ExSender<T>(std::sync::mpsc::Sender<T>);

#[verifier::external_type_specification]
#[verifier::external_body]
#[verifier::reject_recursive_types(T)]
pub struct ExReceiver<T>(std::sync::mpsc::Receiver<T>);

#[verifier::external_type_specification]
#[verifier::external_body]
#[verifier::reject_recursive_types(T)]
pub struct ExSendError<T>(std::sync::mpsc::SendError<T>);

/// Relies on `std::sync::mpsc::channel`: a new channel, as its sending and receiving halves.
#[verifier::external_body]
fn new_channel<M>() -> (Sender<M>, Receiver<M>) {
    std::sync::mpsc::channel()
}

/// Relies on `std::sync::mpsc::Sender::send`: hands the message to the channel, or gives it
/// back in the error if the receiving half is gone.
#[verifier::external_body]
fn send_on<M>(sender: &Sender<M>, message: M) -> Result<(), SendError<M>> {
    sender.send(message)
}

/// Relies on `std::sync::mpsc::SendError`: the error of a message that could not be sent.
#[verifier::external_body]
fn unsent<M>(message: M) -> SendError<M> {
    SendError(message)
}

/// The identifier of a channel.
pub trait ChannelKey: Sized {
    /// The identity of the channel, as bytes.
    spec fn key(&self) -> Seq<u8>;

    /// Whether two ids name the same channel.
    fn same_channel(&self, other: &Self) -> (r: bool)
        ensures
            r == (self.key() == other.key()),
    ;

    /// A copy of the id.
    fn copy_key(&self) -> (r: Self)
        ensures
            r.key() == self.key(),
    ;
}

impl<'a> ChannelKey for &'a str {
    open spec fn key(&self) -> Seq<u8> {
        (*self).spec_bytes()
    }

    fn same_channel(&self, other: &Self) -> (r: bool) {
        bytes_equal((*self).as_bytes(), (*other).as_bytes())
    }

    fn copy_key(&self) -> (r: Self) {
        *self
    }
}

/// The receiving halves of the channels, by channel id.
#[verifier::reject_recursive_types(M)]
pub struct MailBox<K: ChannelKey, M> {
    channels: Vec<(K, Receiver<M>)>,
}

/// The sending halves of the channels, by channel id.
#[verifier::reject_recursive_types(M)]
pub struct DispatchBox<K: ChannelKey, M> {
    channels: Vec<(K, Sender<M>)>,
}

/// The keys of the ids in `ids`.
pub open spec fn keys_of<K: ChannelKey>(ids: Seq<K>) -> Seq<Seq<u8>> {
    ids.map_values(|k: K| k.key())
}

impl<K: ChannelKey, M> MailBox<K, M> {
    /// The ids of the channels whose receiving half is still in the mailbox.
    pub closed spec fn ids(&self) -> Seq<Seq<u8>> {
        keys_of(self.channels@.map_values(|p: (K, Receiver<M>)| p.0))
    }

    /// Each channel is in the mailbox at most once.
    pub open spec fn wf(&self) -> bool {
        self.ids().no_duplicates()
    }

    fn position(&self, channel_id: &K) -> (r: Option<usize>)
        ensures
            r is Some ==> r->Some_0 < self.ids().len() && self.ids()[r->Some_0 as int]
                == channel_id.key(),
            r is None ==> !self.ids().contains(channel_id.key()),
    {
        let mut i: usize = 0;
        while i < self.channels.len()
            invariant
                0 <= i <= self.channels@.len(),
                self.ids().len() == self.channels@.len(),
                forall|j: int| 0 <= j < i ==> self.ids()[j] != channel_id.key(),
            decreases self.channels@.len() - i,
        {
            if self.channels[i].0.same_channel(channel_id) {
                return Some(i);
            }
            i = i + 1;
        }
        None
    }

    /// Take the receiving half of a channel out of the mailbox: it is handed out once.
    pub fn get_mailbox(&mut self, channel_id: &K) -> (r: Option<Receiver<M>>)
        requires
            old(self).wf(),
        ensures
            final(self).wf(),
            r is Some <==> old(self).ids().contains(channel_id.key()),
            final(self).ids().to_set() == old(self).ids().to_set().remove(channel_id.key()),
    {
        match self.position(channel_id) {
            Some(i) => {
                let (_, receiver) = self.channels.remove(i);
                proof {
                    let old_ids = old(self).ids();
                    assert(self.ids() == old_ids.remove(i as int));
                    assert(self.ids().no_duplicates()) by {
                        assert forall|a: int, b: int| 0 <= a < b < self.ids().len() implies self.ids()[a] != self.ids()[b] by {
                            let oa = if a < i { a } else { a + 1 };
                            let ob = if b < i { b } else { b + 1 };
                            assert(self.ids()[a] == old_ids[oa]);
                            assert(self.ids()[b] == old_ids[ob]);
                        }
                    }
                    assert(self.ids().to_set() =~= old_ids.to_set().remove(channel_id.key())) by {
                        assert forall|k: Seq<u8>| #[trigger] self.ids().contains(k) <==> (old_ids.contains(k) && k != channel_id.key()) by {
                            if old_ids.contains(k) && k != channel_id.key() {
                                let j = choose|j: int| 0 <= j < old_ids.len() && old_ids[j] == k;
                                if j < i {
                                    assert(self.ids()[j] == k);
                                } else {
                                    assert(self.ids()[j - 1] == k);
                                }
                            }
                        }
                    }
                }
                Some(receiver)
            },
            None => {
                assert(self.ids().to_set() =~= old(self).ids().to_set().remove(channel_id.key()));
                None
            },
        }
    }

    /// The number of channels whose receiving half is still in the mailbox.
    pub fn len(&self) -> (r: usize)
        ensures
            r == self.ids().len(),
    {
        self.channels.len()
    }
}

impl<K: ChannelKey, M> DispatchBox<K, M> {
    /// The ids of the channels that can be sent to.
    pub closed spec fn ids(&self) -> Seq<Seq<u8>> {
        keys_of(self.channels@.map_values(|p: (K, Sender<M>)| p.0))
    }

    /// Each channel is in the dispatch box at most once.
    pub open spec fn wf(&self) -> bool {
        self.ids().no_duplicates()
    }

    fn position(&self, channel_id: &K) -> (r: Option<usize>)
        ensures
            r is Some ==> r->Some_0 < self.ids().len() && self.ids()[r->Some_0 as int]
                == channel_id.key(),
            r is None ==> !self.ids().contains(channel_id.key()),
    {
        let mut i: usize = 0;
        while i < self.channels.len()
            invariant
                0 <= i <= self.channels@.len(),
                self.ids().len() == self.channels@.len(),
                forall|j: int| 0 <= j < i ==> self.ids()[j] != channel_id.key(),
            decreases self.channels@.len() - i,
        {
            if self.channels[i].0.same_channel(channel_id) {
                return Some(i);
            }
            i = i + 1;
        }
        None
    }

    /// Send a message on a channel. A channel id that is not in the box fails, handing the
    /// message back.
    pub fn send(&self, channel_id: &K, message: M) -> (r: Result<(), SendError<M>>)
        ensures
            !self.ids().contains(channel_id.key()) ==> r is Err,
    {
        match self.position(channel_id) {
            Some(i) => send_on(&self.channels[i].1, message),
            None => Err(unsent(message)),
        }
    }

    /// The ids of the channels that can be sent to.
    pub fn keys(&self) -> (r: Vec<K>)
        ensures
            keys_of(r@) == self.ids(),
    {
        let mut out: Vec<K> = Vec::new();
        let mut i: usize = 0;
        while i < self.channels.len()
            invariant
                0 <= i <= self.channels@.len(),
                self.ids().len() == self.channels@.len(),
                keys_of(out@) == self.ids().subrange(0, i as int),
            decreases self.channels@.len() - i,
        {
            let k = self.channels[i].0.copy_key();
            out.push(k);
            assert(self.ids().subrange(0, i + 1) == self.ids().subrange(0, i as int).push(self.ids()[i as int]));
            assert(keys_of(out@) =~= keys_of(out@.drop_last()).push(k.key()));
            i = i + 1;
        }
        assert(self.ids().subrange(0, self.ids().len() as int) == self.ids());
        out
    }

    /// The number of channels that can be sent to.
    pub fn len(&self) -> (r: usize)
        ensures
            r == self.ids().len(),
    {
        self.channels.len()
    }
}

/// Create one channel per distinct id: the mailbox holds the receiving halves and the dispatch
/// box the sending halves, both under the same ids, each id once.
pub fn new_channel_web<K: ChannelKey, M>(channel_ids: Vec<K>) -> (r: (MailBox<K, M>, DispatchBox<K, M>))
    ensures
        r.0.wf(),
        r.1.wf(),
        r.0.ids() == r.1.ids(),
        r.0.ids().to_set() == keys_of(channel_ids@).to_set(),
{
    let mut mailbox: MailBox<K, M> = MailBox { channels: Vec::new() };
    let mut dispatchbox: DispatchBox<K, M> = DispatchBox { channels: Vec::new() };
    let mut i: usize = 0;
    while i < channel_ids.len()
        invariant
            0 <= i <= channel_ids@.len(),
            mailbox.wf(),
            mailbox.ids() == dispatchbox.ids(),
            mailbox.ids().to_set() == keys_of(channel_ids@.subrange(0, i as int)).to_set(),
        decreases channel_ids@.len() - i,
    {
        let id = &channel_ids[i];
        let ghost prefix = keys_of(channel_ids@.subrange(0, i as int));
        let ghost next = keys_of(channel_ids@.subrange(0, i + 1));
        assert(channel_ids@.subrange(0, i + 1) == channel_ids@.subrange(0, i as int).push(channel_ids@[i as int]));
        assert(next =~= prefix.push(id.key()));
        assert(next.to_set() =~= prefix.to_set().insert(id.key())) by {
            prefix.lemma_push_to_set_commute(id.key());
        }
        if mailbox.position(id).is_none() {
            let (sender, receiver) = new_channel();
            let ghost before = mailbox.ids();
            mailbox.channels.push((id.copy_key(), receiver));
            dispatchbox.channels.push((id.copy_key(), sender));
            proof {
                assert(mailbox.ids() =~= before.push(id.key()));
                assert(dispatchbox.ids() =~= before.push(id.key()));
                before.lemma_push_to_set_commute(id.key());
                assert(mailbox.ids().no_duplicates()) by {
                    assert forall|a: int, b: int| 0 <= a < b < mailbox.ids().len() implies mailbox.ids()[a] != mailbox.ids()[b] by {
                        if b == before.len() {
                            assert(before.contains(before[a]));
                        }
                    }
                }
            }
        } else {
            assert(mailbox.ids().to_set() =~= next.to_set());
        }
        i = i + 1;
    }
    assert(channel_ids@.subrange(0, channel_ids@.len() as int) == channel_ids@);
    (mailbox, dispatchbox)
}

} // verus!
