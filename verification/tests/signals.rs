use rectray::fixed::Fixed;
use rectray::signals::channel::{SignalId, SignalMapper, Signals, TypedSignal};
use rectray::signals::ids::{ButtonClick, SharedPosition, ToggleChange};
use rectray::signals::object::{AsObject, Object};
use rectray::signals::pool::{Signal, SignalPool};
use rectray::signals::roles::{adaptor, receiver, sender, RoleSignal, SignalReceiverItem,
    SignalSenderItem};
use rectray::vec2::Vec2;
use std::marker::PhantomData;

fn signals_pair(pool: &mut SignalPool) -> (Signals, Signals) {
    let sig: TypedSignal<bool> = TypedSignal::new(pool);
    let handle = sig.into_inner();
    (
        Signals::from_sender::<ToggleChange>(TypedSignal::from_inner(handle)),
        Signals::from_receiver::<ToggleChange>(TypedSignal::from_inner(handle)),
    )
}

fn signals_flag_to_point(flag: bool) -> Vec2 {
    if flag {
        Vec2::from_ints(1, 1)
    } else {
        Vec2::zero()
    }
}

#[test]
fn objects_give_back_what_was_put_in() {
    assert_eq!(Object::new(true).get::<bool>(), Some(true));
    assert_eq!(Object::new(-5i64).get::<i64>(), Some(-5));
    assert_eq!(Object::new(Fixed::from_int(2)).get::<Fixed>(), Some(Fixed::from_int(2)));
    assert_eq!(Object::new(Vec2::from_ints(1, 2)).get::<Vec2>(), Some(Vec2::from_ints(1, 2)));
    assert_eq!(Object::new(()).get::<()>(), Some(()));
    assert_eq!(Object::new(true).get::<Object>(), Some(Object::Flag(true)));
    assert_eq!(Object::new(true).get::<i64>(), None);
    assert_eq!(Object::new(()).get::<bool>(), None);
    assert_eq!(true.to_object(), Object::Flag(true));
    assert_eq!(<Vec2 as AsObject>::from_object(Object::Unit), None);
}

#[test]
fn value_sent_is_received_once() {
    let mut pool = SignalPool::new();
    let (sender, mut receiver) = signals_pair(&mut pool);
    assert_eq!(receiver.poll_once::<ToggleChange>(&pool), None);
    sender.send::<ToggleChange>(&mut pool, true);
    assert_eq!(receiver.poll_once::<ToggleChange>(&pool), Some(true));
    assert_eq!(receiver.poll_once::<ToggleChange>(&pool), None);
}

#[test]
fn only_the_latest_value_is_kept() {
    let mut pool = SignalPool::new();
    let (sender, mut receiver) = signals_pair(&mut pool);
    sender.send::<ToggleChange>(&mut pool, true);
    sender.send::<ToggleChange>(&mut pool, false);
    assert_eq!(receiver.poll_once::<ToggleChange>(&pool), Some(false));
    assert_eq!(receiver.poll_once::<ToggleChange>(&pool), None);
}

#[test]
fn every_receiver_gets_the_value() {
    let mut pool = SignalPool::new();
    let (sender, mut first) = signals_pair(&mut pool);
    let handle = first.borrow_receiver::<ToggleChange>().unwrap();
    let mut second = Signals::from_receiver::<ToggleChange>(TypedSignal::from_inner(handle));
    sender.send::<ToggleChange>(&mut pool, true);
    assert_eq!(first.poll_once::<ToggleChange>(&pool), Some(true));
    assert_eq!(second.poll_once::<ToggleChange>(&pool), Some(true));
}

#[test]
fn sender_polls_what_it_sent_but_not_what_it_broadcast() {
    let mut pool = SignalPool::new();
    let (mut sender, mut receiver) = signals_pair(&mut pool);
    sender.send::<ToggleChange>(&mut pool, true);
    assert_eq!(sender.poll_sender_once::<ToggleChange>(&pool), Some(true));
    assert_eq!(sender.poll_sender_once::<ToggleChange>(&pool), None);
    sender.broadcast::<ToggleChange>(&mut pool, false);
    assert_eq!(sender.poll_sender_once::<ToggleChange>(&pool), None);
    assert_eq!(receiver.poll_once::<ToggleChange>(&pool), Some(false));
}

#[test]
fn sending_without_a_sender_does_nothing() {
    let mut pool = SignalPool::new();
    let (_, mut receiver) = signals_pair(&mut pool);
    let mut nobody = Signals::new();
    nobody.send::<ToggleChange>(&mut pool, true);
    nobody.broadcast::<ToggleChange>(&mut pool, true);
    assert_eq!(receiver.poll_once::<ToggleChange>(&pool), None);
    assert_eq!(nobody.poll_once::<ToggleChange>(&pool), None);
    assert_eq!(nobody.poll_sender_once::<ToggleChange>(&pool), None);
    assert!(nobody.is_empty());
}

#[test]
fn adaptor_maps_the_value_of_another_signal() {
    let mut pool = SignalPool::new();
    let (sender, receiver) = signals_pair(&mut pool);
    let mapper = SignalMapper::new::<ToggleChange, SharedPosition, _>(signals_flag_to_point);
    let mut receiver = receiver.with_adaptor::<SharedPosition>(ToggleChange::key(), mapper);
    sender.send::<ToggleChange>(&mut pool, true);
    assert_eq!(receiver.poll_once::<SharedPosition>(&pool), Some(Vec2::from_ints(1, 1)));
    assert_eq!(receiver.poll_once::<SharedPosition>(&pool), None);
    assert_eq!(receiver.poll_once::<ToggleChange>(&pool), None);
    sender.send::<ToggleChange>(&mut pool, false);
    assert_eq!(receiver.poll_once::<ToggleChange>(&pool), Some(false));
}

#[test]
fn adaptor_without_its_source_gives_nothing() {
    let mut pool = SignalPool::new();
    let (sender, _) = signals_pair(&mut pool);
    let mapper = SignalMapper::new::<ToggleChange, SharedPosition, _>(signals_flag_to_point);
    let mut lonely = Signals::from_adaptor::<SharedPosition>(ToggleChange::key(), mapper);
    sender.send::<ToggleChange>(&mut pool, true);
    assert_eq!(lonely.poll_once::<SharedPosition>(&pool), None);
    assert!(lonely.is_empty());
}

#[test]
fn mapper_leaves_other_objects_alone() {
    let mapper = SignalMapper::new::<ToggleChange, SharedPosition, _>(signals_flag_to_point);
    assert_eq!(mapper.map::<Vec2>(Object::Flag(true)), Some(Vec2::from_ints(1, 1)));
    assert_eq!(mapper.map::<Vec2>(Object::Flag(false)), Some(Vec2::zero()));
    assert_eq!(mapper.map::<bool>(Object::Flag(true)), None);
    assert_eq!(mapper.map::<i64>(Object::Int(3)), Some(3));
    assert_eq!(mapper.map::<Vec2>(Object::Int(3)), None);
}

#[test]
fn value_of_another_type_is_not_received() {
    let mut pool = SignalPool::new();
    let (_, mut receiver) = signals_pair(&mut pool);
    let handle = receiver.borrow_receiver::<ToggleChange>().unwrap();
    let untyped = Signals::from_sender::<ButtonClick>(TypedSignal::from_inner(handle));
    untyped.send::<ButtonClick>(&mut pool, Object::Int(3));
    assert_eq!(receiver.poll_once::<ToggleChange>(&pool), None);
    untyped.send::<ButtonClick>(&mut pool, Object::Flag(true));
    assert_eq!(receiver.poll_once::<ToggleChange>(&pool), Some(true));
}

#[test]
fn closed_signal_neither_takes_nor_gives() {
    let mut pool = SignalPool::new();
    let mut gone = Signal { slot: 99, seen: 0 };
    assert!(!pool.is_open(&gone));
    pool.write(&gone, Object::Unit);
    pool.broadcast(&mut gone, Object::Unit);
    assert_eq!(pool.try_read(&mut gone), None);
    assert_eq!(gone, Signal { slot: 99, seen: 0 });
    let mut open = pool.create();
    assert!(pool.is_open(&open));
    assert_eq!(open, Signal { slot: 0, seen: 0 });
    assert_eq!(pool.try_read(&mut open), None);
    pool.write(&open, Object::Int(1));
    assert_eq!(pool.try_read(&mut open), Some(Object::Int(1)));
    assert_eq!(open.seen, 1);
    assert_eq!(pool.try_read(&mut open), None);
    pool.broadcast(&mut open, Object::Int(2));
    assert_eq!(open.seen, 2);
    assert_eq!(pool.try_read(&mut open), None);
}

#[test]
fn signals_are_added_and_removed_by_role() {
    let mut pool = SignalPool::new();
    let sig: TypedSignal<bool> = TypedSignal::new(&mut pool);
    let handle = sig.into_inner();
    let mut signals = Signals::new();
    assert!(signals.is_empty());
    signals.add_sender::<ToggleChange>(TypedSignal::from_inner(handle));
    assert!(signals.has_sender::<ToggleChange>());
    assert!(!signals.has_receiver::<ToggleChange>());
    assert!(!signals.has_sender::<SharedPosition>());
    assert_eq!(signals.borrow_sender::<ToggleChange>(), Some(handle));
    assert_eq!(signals.borrow_receiver::<ToggleChange>(), None);
    signals.add_receiver::<ToggleChange>(TypedSignal::from_inner(handle));
    assert!(signals.has_receiver::<ToggleChange>());
    signals.remove_sender::<ToggleChange>();
    assert!(!signals.has_sender::<ToggleChange>());
    assert!(!signals.is_empty());
    signals.remove_receiver::<ToggleChange>();
    assert!(signals.is_empty());
    signals.add_adaptor::<SharedPosition>(2, SignalMapper::new::<ToggleChange, SharedPosition, _>(signals_flag_to_point));
    signals.remove_adaptor::<SharedPosition>();
    let built = Signals::new()
        .with_sender::<ToggleChange>(TypedSignal::from_inner(handle))
        .with_receiver::<SharedPosition>(TypedSignal::from_inner(handle));
    assert!(built.has_sender::<ToggleChange>());
    assert!(built.has_receiver::<SharedPosition>());
}

#[test]
fn roles_compose_into_signals() {
    let mut pool = SignalPool::new();
    let a: TypedSignal<bool> = TypedSignal::new(&mut pool);
    let b: TypedSignal<Vec2> = TypedSignal::new(&mut pool);
    let slot_a = a.inner;
    let slot_b = b.inner;
    let signals = sender::<ToggleChange>(a).and(receiver::<SharedPosition>(b));
    assert_eq!(signals.borrow_sender::<ToggleChange>(), Some(slot_a));
    assert_eq!(signals.borrow_receiver::<SharedPosition>(), Some(slot_b));
    let more = signals.and(adaptor::<SharedPosition, ToggleChange, _>(|v: Vec2| v.x.raw > 0));
    let mut more = more.into_signals();
    pool.write(&slot_b, Object::Point(Vec2::from_ints(3, 0)));
    assert_eq!(more.poll_once::<ToggleChange>(&pool), Some(true));
    let single = RoleSignal::<ToggleChange>::Receiver(TypedSignal::from_inner(slot_a)).into_signals();
    assert!(single.has_receiver::<ToggleChange>());
    assert!(!single.has_sender::<ToggleChange>());
}

#[test]
fn typed_signals_keep_their_handle() {
    let mut pool = SignalPool::new();
    let sig: TypedSignal<bool> = TypedSignal::new(&mut pool);
    let handle = sig.inner;
    let erased = sig.type_erase();
    assert_eq!(erased.inner, handle);
    let typed: TypedSignal<Vec2> = erased.of_type();
    assert_eq!(typed.into_inner(), handle);
    assert_eq!(ToggleChange::key(), 2);
    assert_eq!(ButtonClick::key(), 1);
    assert_eq!(SharedPosition::key(), 3);
}

#[test]
fn items_reach_the_signals_of_a_node() {
    let mut pool = SignalPool::new();
    let (mut sending, mut receiving) = signals_pair(&mut pool);
    {
        let mut item: SignalSenderItem<ToggleChange> = SignalSenderItem { signals: Some(&mut sending), p: PhantomData };
        assert!(item.sender_exists());
        item.send(&mut pool, true);
        assert_eq!(item.poll_sender(&pool), Some(true));
        item.broadcast(&mut pool, false);
        assert_eq!(item.poll_sender(&pool), None);
    }
    {
        let mut item: SignalReceiverItem<ToggleChange> = SignalReceiverItem { signals: Some(&mut receiving), p: PhantomData };
        assert!(item.poll_any(&pool));
        assert!(!item.poll_any(&pool));
        assert_eq!(item.poll_once(&pool), None);
    }
    sending.send::<ToggleChange>(&mut pool, true);
    {
        let mut item: SignalReceiverItem<ToggleChange> = SignalReceiverItem { signals: Some(&mut receiving), p: PhantomData };
        assert_eq!(item.poll_once(&pool), Some(true));
    }
    {
        let mut item: SignalSenderItem<SharedPosition> = SignalSenderItem { signals: Some(&mut sending), p: PhantomData };
        assert!(!item.sender_exists());
        item.send(&mut pool, Vec2::zero());
    }
    assert_eq!(receiving.poll_once::<ToggleChange>(&pool), None);
}

#[test]
fn items_without_signals_do_nothing() {
    let mut pool = SignalPool::new();
    let (_, mut receiving) = signals_pair(&mut pool);
    let mut item: SignalSenderItem<ToggleChange> = SignalSenderItem { signals: None, p: PhantomData };
    assert!(!item.sender_exists());
    item.send(&mut pool, true);
    item.broadcast(&mut pool, true);
    assert_eq!(item.poll_sender(&pool), None);
    let mut other: SignalReceiverItem<ToggleChange> = SignalReceiverItem { signals: None, p: PhantomData };
    assert_eq!(other.poll_once(&pool), None);
    assert!(!other.poll_any(&pool));
    assert_eq!(receiving.poll_once::<ToggleChange>(&pool), None);
}

#[test]
fn removed_adaptor_no_longer_answers() {
    let mut pool = SignalPool::new();
    let (sender, receiver) = signals_pair(&mut pool);
    let mapper = SignalMapper::new::<ToggleChange, SharedPosition, _>(signals_flag_to_point);
    let mut receiver = receiver.with_adaptor::<SharedPosition>(ToggleChange::key(), mapper);
    sender.send::<ToggleChange>(&mut pool, true);
    receiver.remove_adaptor::<SharedPosition>();
    assert_eq!(receiver.poll_once::<SharedPosition>(&pool), None);
    assert_eq!(receiver.poll_once::<ToggleChange>(&pool), Some(true));
    receiver.remove_receiver::<ToggleChange>();
    sender.send::<ToggleChange>(&mut pool, false);
    assert_eq!(receiver.poll_once::<ToggleChange>(&pool), None);
    assert!(receiver.is_empty());
}
