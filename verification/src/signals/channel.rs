//! Signals by role: the senders, receivers and adaptors that a node holds.

use vstd::prelude::*;
use std::marker::PhantomData;
use crate::signals::object::{AsObject, Object};
use crate::signals::pool::{Signal, SignalData, SignalPool, after_broadcast, after_read,
    read_value, written};
use crate::signals::table::{AdaptorTable, HandleTable, adaptor_table_get, adaptor_table_insert,
    adaptor_table_new, adaptor_table_remove, handle_table_contains_key, handle_table_get,
    handle_table_insert, handle_table_is_empty, handle_table_new, handle_table_remove};

verus! {

/// A marker type that names a signal: its key and the type of its payload.
pub trait SignalId: Sized + Send + Sync + 'static {
    /// The type of value the signal carries.
    type Data: AsObject;

    /// The key that tells this signal from every other.
    spec fn spec_key() -> u64;

    /// The key that tells this signal from every other.
    fn key() -> (r: u64)
        ensures
            r == Self::spec_key(),
    ;
}

/// A handle that carries objects, together with the payload type `T` that it
/// is meant for.
#[derive(Debug)]
pub struct TypedSignal<T: AsObject> {
    /// The handle.
    pub inner: Signal,
    /// The payload type.
    pub p: PhantomData<T>,
}

impl<T: AsObject> TypedSignal<T> {
    /// A handle to a new slot of `pool`.
    pub fn new(pool: &mut SignalPool) -> (r: TypedSignal<T>)
        ensures
            final(pool)@ == old(pool)@.push(SignalData { value: None, version: 0 }),
            r.inner == (Signal { slot: old(pool)@.len() as usize, seen: 0 }),
    {
        TypedSignal { inner: pool.create(), p: PhantomData }
    }

    /// The handle `inner`, meant for `T`.
    pub fn from_inner(inner: Signal) -> (r: TypedSignal<T>)
        ensures
            r.inner == inner,
    {
        TypedSignal { inner, p: PhantomData }
    }

    /// The handle without its payload type.
    pub fn into_inner(self) -> (r: Signal)
        ensures
            r == self.inner,
    {
        self.inner
    }

    /// The same handle, meant for objects of any type.
    pub fn type_erase(self) -> (r: TypedSignal<Object>)
        ensures
            r.inner == self.inner,
    {
        TypedSignal { inner: self.inner, p: PhantomData }
    }
}

impl TypedSignal<Object> {
    /// The same handle, meant for `T`.
    pub fn of_type<T: AsObject>(self) -> (r: TypedSignal<T>)
        ensures
            r.inner == self.inner,
    {
        TypedSignal { inner: self.inner, p: PhantomData }
    }
}

/// A way to turn the object of one signal into the object of another.
pub trait SignalMapperTrait: Send + Sync {
    /// Whether the mapping can be applied to every object.
    spec fn ready(&self) -> bool;

    /// Whether the mapping may turn `before` into `after`.
    spec fn maps(&self, before: Object, after: Object) -> bool;

    /// Applies the mapping to `obj` in place.
    fn map(&self, obj: &mut Object)
        requires
            self.ready(),
        ensures
            self.maps(*old(obj), *final(obj)),
    ;
}

/// The mapping that applies `f` to an object that holds a payload of the
/// signal `A` and wraps the result as a payload of the signal `B`. Any other
/// object is left as it is.
pub struct FnMapper<A: SignalId, B: SignalId, F: Fn(A::Data) -> B::Data + Send + Sync> {
    /// The function.
    pub f: F,
    /// The two signals.
    pub p: PhantomData<(A, B)>,
}

impl<A: SignalId, B: SignalId, F: Fn(A::Data) -> B::Data + Send + Sync> SignalMapperTrait for FnMapper<
    A,
    B,
    F,
> {
    open spec fn ready(&self) -> bool {
        forall|item: A::Data| self.f.requires((item,))
    }

    open spec fn maps(&self, before: Object, after: Object) -> bool {
        match A::Data::spec_from_object(before) {
            Some(item) => exists|out: B::Data|
                self.f.ensures((item,), out) && after == out.spec_to_object(),
            None => after == before,
        }
    }

    fn map(&self, obj: &mut Object) {
        match A::Data::from_object(*obj) {
            Some(item) => {
                let out = (self.f)(item);
                let wrapped = out.to_object();
                *obj = wrapped;
            },
            None => {},
        }
    }
}

/// A function that maps the value of one signal to a value of another.
pub struct SignalMapper(pub Box<dyn SignalMapperTrait>);

impl SignalMapper {
    /// Whether the mapper can be applied to every object.
    pub open spec fn ready(&self) -> bool {
        self.0.ready()
    }

    /// Whether the mapper may turn `before` into `after`.
    pub open spec fn maps(&self, before: Object, after: Object) -> bool {
        self.0.maps(before, after)
    }

    /// The mapper that applies `f` to the payloads of the signal `A` and gives
    /// payloads of the signal `B`; see [`FnMapper`].
    pub fn new<A: SignalId, B: SignalId, F: Fn(A::Data) -> B::Data + Send + Sync + 'static>(
        f: F,
    ) -> (r: SignalMapper)
        requires
            forall|item: A::Data| f.requires((item,)),
        ensures
            r.ready(),
            forall|before: Object, after: Object|
                r.maps(before, after) <==> match A::Data::spec_from_object(before) {
                    Some(item) => exists|out: B::Data|
                        f.ensures((item,), out) && after == out.spec_to_object(),
                    None => after == before,
                },
    {
        let mapper: FnMapper<A, B, F> = FnMapper { f, p: PhantomData };
        SignalMapper(Box::new(mapper))
    }

    /// Maps `obj` and takes the result as a `T`: nothing if the mapped object
    /// is of another type.
    pub fn map<T: AsObject>(&self, obj: Object) -> (r: Option<T>)
        requires
            self.ready(),
        ensures
            exists|after: Object| self.maps(obj, after) && r == T::spec_from_object(after),
    {
        let mut obj = obj;
        self.0.map(&mut obj);
        T::from_object(obj)
    }
}

/// The signals of one node as mathematical maps from signal keys.
pub struct SignalsModel {
    /// The handles the node sends through.
    pub senders: Map<u64, Signal>,
    /// The handles the node receives through.
    pub receivers: Map<u64, Signal>,
    /// For a signal the node has no receiver of: the received signal to take
    /// its value from, and the mapper to apply.
    pub adaptors: Map<u64, (u64, SignalMapper)>,
}

/// The signals of one node: the handles it sends through, the handles it
/// receives through, and adaptors that derive one signal from another.
pub struct Signals {
    /// The handles the node sends through, by signal key.
    pub senders: HandleTable,
    /// The handles the node receives through, by signal key.
    pub receivers: HandleTable,
    /// Adaptors by the key of the signal they provide.
    pub adaptors: AdaptorTable,
}

impl View for Signals {
    type V = SignalsModel;

    open spec fn view(&self) -> SignalsModel {
        SignalsModel {
            senders: self.senders@,
            receivers: self.receivers@,
            adaptors: self.adaptors@,
        }
    }
}

impl SignalsModel {
    /// No signals.
    pub open spec fn empty() -> SignalsModel {
        SignalsModel { senders: Map::empty(), receivers: Map::empty(), adaptors: Map::empty() }
    }

    /// Whether every adaptor can be applied to every object.
    pub open spec fn ready(self) -> bool {
        forall|k: u64| self.adaptors.contains_key(k) ==> (#[trigger] self.adaptors[k]).1.ready()
    }

    /// The key of the receiver that a poll for the signal `key` reads: the
    /// receiver of that signal, or else the receiver an adaptor for it names.
    pub open spec fn source_of(self, key: u64) -> Option<u64> {
        if self.receivers.contains_key(key) {
            Some(key)
        } else if self.adaptors.contains_key(key) && self.receivers.contains_key(
            self.adaptors[key].0,
        ) {
            Some(self.adaptors[key].0)
        } else {
            None
        }
    }

    /// The receivers after a poll for the signal `key` on `pool`: the handle
    /// that was read has seen the latest write.
    pub open spec fn receivers_after_poll(self, pool: Seq<SignalData>, key: u64) -> Map<
        u64,
        Signal,
    > {
        match self.source_of(key) {
            Some(src) => self.receivers.insert(src, after_read(pool, self.receivers[src])),
            None => self.receivers,
        }
    }

    /// Whether `result` is what a poll for the signal `key` with payload type
    /// `D` may return on `pool`.
    ///
    /// With a receiver of the signal, it is the value read, taken as a `D`.
    /// With an adaptor instead, it is the value read from the receiver the
    /// adaptor names, mapped and taken as a `D`. In every other case, and
    /// where nothing new was written, it is nothing.
    pub open spec fn poll_result<D: AsObject>(
        self,
        pool: Seq<SignalData>,
        key: u64,
        result: Option<D>,
    ) -> bool {
        match self.source_of(key) {
            Some(src) => match read_value(pool, self.receivers[src]) {
                Some(obj) => if src == key && self.receivers.contains_key(key) {
                    result == D::spec_from_object(obj)
                } else {
                    exists|after: Object|
                        self.adaptors[key].1.maps(obj, after) && result == D::spec_from_object(
                            after,
                        )
                },
                None => result is None,
            },
            None => result is None,
        }
    }
}

impl Signals {
    /// No signals.
    pub fn new() -> (r: Signals)
        ensures
            r@ == SignalsModel::empty(),
    {
        Signals {
            senders: handle_table_new(),
            receivers: handle_table_new(),
            adaptors: adaptor_table_new(),
        }
    }

    /// Whether the node neither sends nor receives.
    pub fn is_empty(&self) -> (r: bool)
        ensures
            r == (self@.senders =~= Map::empty() && self@.receivers =~= Map::empty()),
    {
        handle_table_is_empty(&self.senders) && handle_table_is_empty(&self.receivers)
    }

    /// The signals that consist of one sender.
    pub fn from_sender<T: SignalId>(signal: TypedSignal<T::Data>) -> (r: Signals)
        ensures
            r@ == (SignalsModel {
                senders: Map::empty().insert(T::spec_key(), signal.inner),
                ..SignalsModel::empty()
            }),
    {
        let mut this = Self::new();
        this.add_sender::<T>(signal);
        this
    }

    /// The signals that consist of one receiver.
    pub fn from_receiver<T: SignalId>(signal: TypedSignal<T::Data>) -> (r: Signals)
        ensures
            r@ == (SignalsModel {
                receivers: Map::empty().insert(T::spec_key(), signal.inner),
                ..SignalsModel::empty()
            }),
    {
        let mut this = Self::new();
        this.add_receiver::<T>(signal);
        this
    }

    /// The signals that consist of one adaptor.
    pub fn from_adaptor<T: SignalId>(ty: u64, mapper: SignalMapper) -> (r: Signals)
        ensures
            r@ == (SignalsModel {
                adaptors: Map::empty().insert(T::spec_key(), (ty, mapper)),
                ..SignalsModel::empty()
            }),
    {
        let mut this = Self::new();
        this.add_adaptor::<T>(ty, mapper);
        this
    }

    /// These signals and a sender.
    pub fn with_sender<T: SignalId>(self, signal: TypedSignal<T::Data>) -> (r: Signals)
        ensures
            r@ == (SignalsModel {
                senders: self@.senders.insert(T::spec_key(), signal.inner),
                ..self@
            }),
    {
        let mut this = self;
        this.add_sender::<T>(signal);
        this
    }

    /// These signals and a receiver.
    pub fn with_receiver<T: SignalId>(self, signal: TypedSignal<T::Data>) -> (r: Signals)
        ensures
            r@ == (SignalsModel {
                receivers: self@.receivers.insert(T::spec_key(), signal.inner),
                ..self@
            }),
    {
        let mut this = self;
        this.add_receiver::<T>(signal);
        this
    }

    /// These signals and an adaptor.
    pub fn with_adaptor<T: SignalId>(self, ty: u64, mapper: SignalMapper) -> (r: Signals)
        ensures
            r@ == (SignalsModel {
                adaptors: self@.adaptors.insert(T::spec_key(), (ty, mapper)),
                ..self@
            }),
    {
        let mut this = self;
        this.add_adaptor::<T>(ty, mapper);
        this
    }

    /// Writes `item` to the signal `T`, if the node sends it. The node can
    /// poll the value from its own sender afterwards.
    pub fn send<T: SignalId>(&self, pool: &mut SignalPool, item: T::Data)
        ensures
            final(pool)@ == if self@.senders.contains_key(T::spec_key()) {
                written(
                    old(pool)@,
                    self@.senders[T::spec_key()].slot as int,
                    item.spec_to_object(),
                )
            } else {
                old(pool)@
            },
    {
        let key = T::key();
        match handle_table_get(&self.senders, key) {
            Some(x) => {
                pool.write(&x, Object::new(item));
            },
            None => {},
        }
    }

    /// Writes `item` to the signal `T`, if the node sends it. The node cannot
    /// poll the value from its own sender afterwards.
    pub fn broadcast<T: SignalId>(&mut self, pool: &mut SignalPool, item: T::Data)
        ensures
            final(pool)@ == if old(self)@.senders.contains_key(T::spec_key()) {
                written(
                    old(pool)@,
                    old(self)@.senders[T::spec_key()].slot as int,
                    item.spec_to_object(),
                )
            } else {
                old(pool)@
            },
            final(self)@.senders == if old(self)@.senders.contains_key(T::spec_key()) {
                old(self)@.senders.insert(
                    T::spec_key(),
                    after_broadcast(old(pool)@, old(self)@.senders[T::spec_key()]),
                )
            } else {
                old(self)@.senders
            },
            final(self)@.receivers == old(self)@.receivers,
            final(self)@.adaptors == old(self)@.adaptors,
    {
        let key = T::key();
        let found = handle_table_get(&self.senders, key);
        match found {
            Some(sig) => {
                let mut sig = sig;
                pool.broadcast(&mut sig, Object::new(item));
                handle_table_insert(&mut self.senders, key, sig);
            },
            None => {},
        }
    }

    /// Polls the signal `T` once; see [`SignalsModel::poll_result`] for what
    /// comes back. The handle that was read has then seen the latest write.
    pub fn poll_once<T: SignalId>(&mut self, pool: &SignalPool) -> (r: Option<T::Data>)
        requires
            old(self)@.ready(),
        ensures
            old(self)@.poll_result::<T::Data>(pool@, T::spec_key(), r),
            final(self)@.receivers == old(self)@.receivers_after_poll(pool@, T::spec_key()),
            final(self)@.senders == old(self)@.senders,
            final(self)@.adaptors == old(self)@.adaptors,
    {
        let key = T::key();
        let direct = handle_table_get(&self.receivers, key);
        match direct {
            Some(sig) => {
                let mut sig = sig;
                let read = pool.try_read(&mut sig);
                handle_table_insert(&mut self.receivers, key, sig);
                match read {
                    Some(obj) => obj.get(),
                    None => None,
                }
            },
            None => {
                let src = match adaptor_table_get(&self.adaptors, key) {
                    Some(entry) => Some(entry.0),
                    None => None,
                };
                match src {
                    Some(ty) => {
                        let found = handle_table_get(&self.receivers, ty);
                        match found {
                            Some(sig) => {
                                let mut sig = sig;
                                let read = pool.try_read(&mut sig);
                                handle_table_insert(&mut self.receivers, ty, sig);
                                match read {
                                    Some(obj) => match adaptor_table_get(&self.adaptors, key) {
                                        Some(entry) => {
                                            assert(old(self)@.adaptors[key] == *entry);
                                            entry.1.map(obj)
                                        },
                                        None => None,
                                    },
                                    None => None,
                                }
                            },
                            None => None,
                        }
                    },
                    None => None,
                }
            },
        }
    }

    /// Polls the node's own sender of the signal `T` once: the value, taken as
    /// the payload type, if the node sends the signal and something was
    /// written since the sender last saw it.
    pub fn poll_sender_once<T: SignalId>(&mut self, pool: &SignalPool) -> (r: Option<T::Data>)
        ensures
            r == if old(self)@.senders.contains_key(T::spec_key()) {
                match read_value(pool@, old(self)@.senders[T::spec_key()]) {
                    Some(obj) => T::Data::spec_from_object(obj),
                    None => None,
                }
            } else {
                None
            },
            final(self)@.senders == if old(self)@.senders.contains_key(T::spec_key()) {
                old(self)@.senders.insert(
                    T::spec_key(),
                    after_read(pool@, old(self)@.senders[T::spec_key()]),
                )
            } else {
                old(self)@.senders
            },
            final(self)@.receivers == old(self)@.receivers,
            final(self)@.adaptors == old(self)@.adaptors,
    {
        let key = T::key();
        let found = handle_table_get(&self.senders, key);
        match found {
            Some(sig) => {
                let mut sig = sig;
                let read = pool.try_read(&mut sig);
                handle_table_insert(&mut self.senders, key, sig);
                match read {
                    Some(obj) => obj.get(),
                    None => None,
                }
            },
            None => None,
        }
    }

    /// The handle the node sends the signal `T` through.
    pub fn borrow_sender<T: SignalId>(&self) -> (r: Option<Signal>)
        ensures
            r == if self@.senders.contains_key(T::spec_key()) {
                Some(self@.senders[T::spec_key()])
            } else {
                None
            },
    {
        let key = T::key();
        handle_table_get(&self.senders, key)
    }

    /// The handle the node receives the signal `T` through.
    pub fn borrow_receiver<T: SignalId>(&self) -> (r: Option<Signal>)
        ensures
            r == if self@.receivers.contains_key(T::spec_key()) {
                Some(self@.receivers[T::spec_key()])
            } else {
                None
            },
    {
        let key = T::key();
        handle_table_get(&self.receivers, key)
    }

    /// Makes the node send the signal `T` through `signal`.
    pub fn add_sender<T: SignalId>(&mut self, signal: TypedSignal<T::Data>)
        ensures
            final(self)@ == (SignalsModel {
                senders: old(self)@.senders.insert(T::spec_key(), signal.inner),
                ..old(self)@
            }),
    {
        handle_table_insert(&mut self.senders, T::key(), signal.inner);
    }

    /// Makes the node receive the signal `T` through `signal`.
    pub fn add_receiver<T: SignalId>(&mut self, signal: TypedSignal<T::Data>)
        ensures
            final(self)@ == (SignalsModel {
                receivers: old(self)@.receivers.insert(T::spec_key(), signal.inner),
                ..old(self)@
            }),
    {
        handle_table_insert(&mut self.receivers, T::key(), signal.inner);
    }

    /// Makes the node derive the signal `T` from the received signal `ty`
    /// through `mapper`.
    pub fn add_adaptor<T: SignalId>(&mut self, ty: u64, mapper: SignalMapper)
        ensures
            final(self)@ == (SignalsModel {
                adaptors: old(self)@.adaptors.insert(T::spec_key(), (ty, mapper)),
                ..old(self)@
            }),
    {
        adaptor_table_insert(&mut self.adaptors, T::key(), ty, mapper);
    }

    /// Stops the node sending the signal `T`.
    pub fn remove_sender<T: SignalId>(&mut self)
        ensures
            final(self)@ == (SignalsModel {
                senders: old(self)@.senders.remove(T::spec_key()),
                ..old(self)@
            }),
    {
        handle_table_remove(&mut self.senders, T::key());
    }

    /// Stops the node receiving the signal `T`.
    pub fn remove_receiver<T: SignalId>(&mut self)
        ensures
            final(self)@ == (SignalsModel {
                receivers: old(self)@.receivers.remove(T::spec_key()),
                ..old(self)@
            }),
    {
        handle_table_remove(&mut self.receivers, T::key());
    }

    /// Removes the adaptor for the signal `T`.
    pub fn remove_adaptor<T: SignalId>(&mut self)
        ensures
            final(self)@ == (SignalsModel {
                adaptors: old(self)@.adaptors.remove(T::spec_key()),
                ..old(self)@
            }),
    {
        adaptor_table_remove(&mut self.adaptors, T::key());
    }

    /// Whether the node sends the signal `T`.
    pub fn has_sender<T: SignalId>(&self) -> (r: bool)
        ensures
            r == self@.senders.contains_key(T::spec_key()),
    {
        handle_table_contains_key(&self.senders, T::key())
    }

    /// Whether the node receives the signal `T`.
    pub fn has_receiver<T: SignalId>(&self) -> (r: bool)
        ensures
            r == self@.receivers.contains_key(T::spec_key()),
    {
        handle_table_contains_key(&self.receivers, T::key())
    }
}

} // verus!
