//! Signals as a node is given them and as a system reaches them.

use vstd::prelude::*;
use std::marker::PhantomData;
use crate::signals::object::AsObject;
use crate::signals::pool::{SignalPool, after_broadcast, after_read, read_value, written};
use crate::signals::channel::{SignalId, SignalMapper, Signals, SignalsModel, TypedSignal};

verus! {

/// The signals of a node, if it has any, seen as the place to send the signal
/// `T` from.
pub struct SignalSenderItem<'a, T: SignalId> {
    /// The signals of the node.
    pub signals: Option<&'a mut Signals>,
    /// The signal.
    pub p: PhantomData<T>,
}

impl<'a, T: SignalId> SignalSenderItem<'a, T> {
    /// Whether the node sends the signal.
    pub fn sender_exists(&self) -> (r: bool)
        ensures
            r == (self.signals matches Some(s) && s@.senders.contains_key(T::spec_key())),
    {
        match &self.signals {
            Some(s) => s.has_sender::<T>(),
            None => false,
        }
    }

    /// Sends `item` through the signal; the node can poll it from this sender.
    pub fn send(&self, pool: &mut SignalPool, item: T::Data)
        ensures
            final(pool)@ == if self.signals matches Some(s) && s@.senders.contains_key(
                T::spec_key(),
            ) {
                written(
                    old(pool)@,
                    self.signals->0@.senders[T::spec_key()].slot as int,
                    item.spec_to_object(),
                )
            } else {
                old(pool)@
            },
    {
        match &self.signals {
            Some(signals) => {
                signals.send::<T>(pool, item);
            },
            None => {},
        }
    }
}

impl<'a, T: SignalId> SignalSenderItem<'a, T> {
    /// Sends `item` through the signal; the node cannot poll it from this
    /// sender.
    pub fn broadcast(&mut self, pool: &mut SignalPool, item: T::Data)
        ensures
            old(self).signals is None ==> final(self).signals is None && final(pool)@ == old(
                pool,
            )@,
            old(self).signals is Some ==> final(self).signals is Some
                && *final(final(self).signals->0) == *final(old(self).signals->0),
            old(self).signals is Some ==> ({
                let before = old(self).signals->0@;
                let key = T::spec_key();
                &&& final(self).signals is Some
                &&& final(self).signals->0@.receivers == before.receivers
                &&& final(self).signals->0@.adaptors == before.adaptors
                &&& before.senders.contains_key(key) ==> {
                    &&& final(pool)@ == written(
                        old(pool)@,
                        before.senders[key].slot as int,
                        item.spec_to_object(),
                    )
                    &&& final(self).signals->0@.senders == before.senders.insert(
                        key,
                        after_broadcast(old(pool)@, before.senders[key]),
                    )
                }
                &&& !before.senders.contains_key(key) ==> {
                    &&& final(pool)@ == old(pool)@
                    &&& final(self).signals->0@.senders == before.senders
                }
            }),
    {
        match &mut self.signals {
            Some(signals) => {
                signals.broadcast::<T>(pool, item);
            },
            None => {},
        }
    }
}

impl<'a, T: SignalId> SignalSenderItem<'a, T> {
    /// Polls the node's own sender of the signal: the value, taken as the
    /// payload type, if the node sends the signal and something was written
    /// since the sender last saw it.
    pub fn poll_sender(&mut self, pool: &SignalPool) -> (r: Option<T::Data>)
        ensures
            old(self).signals is None ==> final(self).signals is None && r is None,
            old(self).signals is Some ==> final(self).signals is Some
                && *final(final(self).signals->0) == *final(old(self).signals->0),
            old(self).signals is Some ==> ({
                let before = old(self).signals->0@;
                let key = T::spec_key();
                &&& final(self).signals is Some
                &&& final(self).signals->0@.receivers == before.receivers
                &&& final(self).signals->0@.adaptors == before.adaptors
                &&& before.senders.contains_key(key) ==> {
                    &&& r == match read_value(pool@, before.senders[key]) {
                        Some(obj) => T::Data::spec_from_object(obj),
                        None => None,
                    }
                    &&& final(self).signals->0@.senders == before.senders.insert(
                        key,
                        after_read(pool@, before.senders[key]),
                    )
                }
                &&& !before.senders.contains_key(key) ==> {
                    &&& r is None
                    &&& final(self).signals->0@.senders == before.senders
                }
            }),
    {
        match &mut self.signals {
            Some(signals) => signals.poll_sender_once::<T>(pool),
            None => None,
        }
    }
}

/// The signals of a node, if it has any, seen as the place to receive the
/// signal `T` at.
pub struct SignalReceiverItem<'a, T: SignalId> {
    /// The signals of the node.
    pub signals: Option<&'a mut Signals>,
    /// The signal.
    pub p: PhantomData<T>,
}

impl<'a, T: SignalId> SignalReceiverItem<'a, T> {
    /// Polls the signal once: nothing for a node without signals, and
    /// otherwise what [`Signals::poll_once`] gives.
    pub fn poll_once(&mut self, pool: &SignalPool) -> (r: Option<T::Data>)
        requires
            old(self).signals matches Some(s) ==> s@.ready(),
        ensures
            old(self).signals is None ==> final(self).signals is None && r is None,
            old(self).signals is Some ==> final(self).signals is Some
                && *final(final(self).signals->0) == *final(old(self).signals->0),
            old(self).signals is Some ==> ({
                let before = old(self).signals->0@;
                let key = T::spec_key();
                &&& final(self).signals is Some
                &&& before.poll_result::<T::Data>(pool@, key, r)
                &&& final(self).signals->0@.receivers == before.receivers_after_poll(pool@, key)
                &&& final(self).signals->0@.senders == before.senders
                &&& final(self).signals->0@.adaptors == before.adaptors
            }),
    {
        match &mut self.signals {
            Some(sig) => sig.poll_once::<T>(pool),
            None => None,
        }
    }

    /// Polls the signal once and tells whether a value came; the value is
    /// dropped.
    pub fn poll_any(&mut self, pool: &SignalPool) -> (r: bool)
        requires
            old(self).signals matches Some(s) ==> s@.ready(),
        ensures
            old(self).signals is None ==> final(self).signals is None && !r,
            old(self).signals is Some ==> final(self).signals is Some
                && *final(final(self).signals->0) == *final(old(self).signals->0),
            old(self).signals is Some ==> ({
                let before = old(self).signals->0@;
                let key = T::spec_key();
                &&& final(self).signals is Some
                &&& exists|v: Option<T::Data>|
                    before.poll_result::<T::Data>(pool@, key, v) && r == (v is Some)
                &&& final(self).signals->0@.receivers == before.receivers_after_poll(pool@, key)
                &&& final(self).signals->0@.senders == before.senders
                &&& final(self).signals->0@.adaptors == before.adaptors
            }),
    {
        match self.poll_once(pool) {
            Some(_) => true,
            None => false,
        }
    }
}

/// A signal together with the part it plays on a node.
pub enum RoleSignal<T: SignalId> {
    /// The node sends the signal.
    Sender(TypedSignal<T::Data>),
    /// The node receives the signal.
    Receiver(TypedSignal<T::Data>),
    /// The node derives the signal from the received signal of the given key.
    Adaptor(u64, SignalMapper),
}

impl<T: SignalId> RoleSignal<T> {
    /// The signals that consist of this one.
    pub open spec fn model(self) -> SignalsModel {
        self.added_to(SignalsModel::empty())
    }

    /// The signals `base` with this one added.
    pub open spec fn added_to(self, base: SignalsModel) -> SignalsModel {
        match self {
            RoleSignal::Sender(s) => SignalsModel {
                senders: base.senders.insert(T::spec_key(), s.inner),
                ..base
            },
            RoleSignal::Receiver(r) => SignalsModel {
                receivers: base.receivers.insert(T::spec_key(), r.inner),
                ..base
            },
            RoleSignal::Adaptor(t, a) => SignalsModel {
                adaptors: base.adaptors.insert(T::spec_key(), (t, a)),
                ..base
            },
        }
    }

    /// This signal and `other` on one node.
    pub fn and<A: SignalId>(self, other: RoleSignal<A>) -> (r: Signals)
        ensures
            r@ == other.added_to(self.model()),
    {
        let base = self.into_signals();
        base.and(other)
    }

    /// The signals that consist of this one.
    pub fn into_signals(self) -> (r: Signals)
        ensures
            r@ == self.model(),
    {
        match self {
            RoleSignal::Sender(s) => Signals::from_sender::<T>(s),
            RoleSignal::Receiver(r) => Signals::from_receiver::<T>(r),
            RoleSignal::Adaptor(t, a) => {
                let mut s = Signals::new();
                s.add_adaptor::<T>(t, a);
                s
            },
        }
    }
}

impl Signals {
    /// These signals and `other` on one node.
    pub fn and<A: SignalId>(self, other: RoleSignal<A>) -> (r: Signals)
        ensures
            r@ == other.added_to(self@),
    {
        match other {
            RoleSignal::Sender(s) => self.with_sender::<A>(s),
            RoleSignal::Receiver(r) => self.with_receiver::<A>(r),
            RoleSignal::Adaptor(t, a) => self.with_adaptor::<A>(t, a),
        }
    }

    /// The signals themselves.
    pub fn into_signals(self) -> (r: Signals)
        ensures
            r == self,
    {
        self
    }
}

/// The signal `sig` as one that the node sends.
pub fn sender<T: SignalId>(sig: TypedSignal<T::Data>) -> (r: RoleSignal<T>)
    ensures
        r == RoleSignal::<T>::Sender(sig),
{
    RoleSignal::Sender(sig)
}

/// The signal `sig` as one that the node receives.
pub fn receiver<T: SignalId>(sig: TypedSignal<T::Data>) -> (r: RoleSignal<T>)
    ensures
        r == RoleSignal::<T>::Receiver(sig),
{
    RoleSignal::Receiver(sig)
}

/// An adaptor that gives the signal `To` by applying `f` to what the signal
/// `From` receives. It serves polls only.
pub fn adaptor<From: SignalId, To: SignalId, F: Fn(From::Data) -> To::Data + Send + Sync
    + 'static>(f: F) -> (r: RoleSignal<To>)
    requires
        forall|item: From::Data| f.requires((item,)),
    ensures
        r matches RoleSignal::Adaptor(ty, mapper) && ty == From::spec_key() && mapper.ready()
            && forall|before: crate::signals::object::Object, after: crate::signals::object::Object|
            mapper.maps(before, after) <==> match From::Data::spec_from_object(before) {
                Some(item) => exists|out: To::Data|
                    f.ensures((item,), out) && after == out.spec_to_object(),
                None => after == before,
            },
{
    RoleSignal::Adaptor(From::key(), SignalMapper::new::<From, To, F>(f))
}

} // verus!
