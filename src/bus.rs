use crate::payload::MessageData;
use crate::request::{try_receive, Polled};
use std::sync::mpsc::{channel, Sender};
use vstd::prelude::*;

verus! {

#[verifier::external_type_specification]
#[verifier::external_body]
#[verifier::reject_recursive_types(T)]
pub struct ExSender<T>(Sender<T>);

/// Relies on std's `mpsc::channel`: a fresh unbounded channel, its sending
/// and receiving ends.
#[verifier::external_body]
fn new_channel<T>() -> (r: (Sender<T>, std::sync::mpsc::Receiver<T>)) {
    channel()
}

/// Relies on std's `Sender::clone`: another sending end of the same channel.
#[verifier::external_body]
fn clone_sender<T>(s: &Sender<T>) -> (r: Sender<T>) {
    s.clone()
}

/// A sending end of a channel, with a record of every value handed to it
/// and whether the channel took it.
#[verifier::reject_recursive_types(T)]
pub struct SystemSender<T> {
    sender: Sender<T>,
    log: Ghost<Seq<(T, bool)>>,
}

impl<T> SystemSender<T> {
    /// Every value handed to `send`, in order, with its outcome.
    pub closed spec fn handed(&self) -> Seq<(T, bool)> {
        self.log@
    }
}

fn wrap_sender<T>(sender: Sender<T>) -> (r: SystemSender<T>)
    ensures
        r.handed() == Seq::<(T, bool)>::empty(),
{
    SystemSender { sender, log: Ghost(Seq::empty()) }
}

/// Relies on std's `Sender::send`: the value is handed to the channel, and
/// the result is `true` when it was queued, `false` when the receiving end
/// is gone. Which of the two depends on another thread.
#[verifier::external_body]
fn send_value<T>(s: &mut SystemSender<T>, v: T) -> (r: bool)
    ensures
        final(s).handed() == old(s).handed().push((v, r)),
{
    s.sender.send(v).is_ok()
}

/// `b` is a copy of `a`: the same kind, the same path, and a payload slot
/// holding the same value.
pub open spec fn same_message<W, M, S>(a: Message<W, M, S>, b: Message<W, M, S>) -> bool {
    match (a, b) {
        (Message::Stop, Message::Stop) => true,
        (Message::RequestWindowResources, Message::RequestWindowResources) => true,
        (Message::RequestAsset(x), Message::RequestAsset(y)) => x@ == y@,
        (Message::WindowResourcesReady(x), Message::WindowResourcesReady(y)) => x.value() == y.value(),
        (Message::ModelReady(x), Message::ModelReady(y)) => x.value() == y.value(),
        (Message::SceneReady(x), Message::SceneReady(y)) => x.value() == y.value(),
        (Message::CurrentScene(x), Message::CurrentScene(y)) => x.value() == y.value(),
        _ => false,
    }
}

/// How many of the outcomes are failures.
pub open spec fn count_failed(outcomes: Seq<bool>) -> nat
    decreases outcomes.len(),
{
    if outcomes.len() == 0 {
        0
    } else {
        count_failed(outcomes.drop_last()) + if outcomes.last() {
            0nat
        } else {
            1nat
        }
    }
}

/// What the systems of the runtime tell each other: the resource payloads
/// are one-shot slots shared by every copy of the message.
#[verifier::reject_recursive_types(W)]
#[verifier::reject_recursive_types(M)]
#[verifier::reject_recursive_types(S)]
pub enum Message<W, M, S> {
    Stop,
    RequestWindowResources,
    RequestAsset(String),
    WindowResourcesReady(MessageData<W>),
    ModelReady(MessageData<M>),
    SceneReady(MessageData<S>),
    CurrentScene(MessageData<S>),
}

impl<W, M, S> Clone for Message<W, M, S> {
    /// A copy of the same kind; a path is copied, a payload slot is shared.
    fn clone(&self) -> (r: Message<W, M, S>)
        ensures
            same_message(*self, r),
    {
        match self {
            Message::Stop => Message::Stop,
            Message::RequestWindowResources => Message::RequestWindowResources,
            Message::RequestAsset(path) => Message::RequestAsset(path.clone()),
            Message::WindowResourcesReady(d) => Message::WindowResourcesReady(d.clone()),
            Message::ModelReady(d) => Message::ModelReady(d.clone()),
            Message::SceneReady(d) => Message::SceneReady(d.clone()),
            Message::CurrentScene(d) => Message::CurrentScene(d.clone()),
        }
    }
}

/// A message box after one poll of its channel: `Stop` and a closed
/// channel both close the box and deliver nothing; closing is for good.
pub open spec fn message_step<W, M, S>(should_close: bool, polled: Polled<Message<W, M, S>>) -> (bool, Option<Message<W, M, S>>) {
    match polled {
        Polled::Item(Message::Stop) => (true, None),
        Polled::Item(m) => (should_close, Some(m)),
        Polled::Empty => (should_close, None),
        Polled::Disconnected => (true, None),
    }
}

/// One system's end of the bus: it posts to the bus and receives what the
/// bus broadcasts.
#[verifier::reject_recursive_types(W)]
#[verifier::reject_recursive_types(M)]
#[verifier::reject_recursive_types(S)]
pub struct MessageBox<W, M, S> {
    bus_sender: SystemSender<Message<W, M, S>>,
    system_receiver: std::sync::mpsc::Receiver<Message<W, M, S>>,
    should_close: bool,
}

impl<W, M, S> MessageBox<W, M, S> {
    pub closed spec fn closing(&self) -> bool {
        self.should_close
    }

    /// Every message handed to the bus, in order, with whether the bus took it.
    pub closed spec fn posted(&self) -> Seq<(Message<W, M, S>, bool)> {
        self.bus_sender.handed()
    }

    /// Acts on one poll of the box's channel.
    pub fn on_message(&mut self, polled: Polled<Message<W, M, S>>) -> (r: Option<Message<W, M, S>>)
        ensures
            (final(self).closing(), r) == message_step(old(self).closing(), polled),
    {
        match polled {
            Polled::Item(message) => match message {
                Message::Stop => {
                    self.should_close = true;
                    None
                },
                _ => Some(message),
            },
            Polled::Empty => None,
            Polled::Disconnected => {
                self.should_close = true;
                None
            },
        }
    }

    /// Takes the next message without blocking. `Stop`, or a bus that went
    /// away, closes the box instead of delivering anything.
    pub fn check_messages(&mut self) -> (r: Option<Message<W, M, S>>)
        ensures
            exists|p: Polled<Message<W, M, S>>| (final(self).closing(), r) == message_step(old(self).closing(), p),
            old(self).closing() ==> final(self).closing(),
            r matches Some(m) ==> !(m is Stop) && final(self).closing() == old(self).closing(),
    {
        let p = try_receive(&self.system_receiver);
        let ghost gp = p;
        let r = self.on_message(p);
        assert((self.closing(), r) == message_step(old(self).closing(), gp));
        r
    }

    /// Hands `message` to the bus, unchanged; `false` when the bus is gone.
    pub fn post_message(&mut self, message: Message<W, M, S>) -> (r: bool)
        ensures
            final(self).posted() == old(self).posted().push((message, r)),
            final(self).closing() == old(self).closing(),
    {
        send_value(&mut self.bus_sender, message)
    }

    pub fn should_close(&self) -> (r: bool)
        ensures
            r == self.closing(),
    {
        self.should_close
    }
}

/// The hub that copies every posted message to every system.
#[verifier::reject_recursive_types(W)]
#[verifier::reject_recursive_types(M)]
#[verifier::reject_recursive_types(S)]
pub struct MessageBus<W, M, S> {
    bus_sender: Sender<Message<W, M, S>>,
    bus_receiver: std::sync::mpsc::Receiver<Message<W, M, S>>,
    system_senders: Vec<SystemSender<Message<W, M, S>>>,
}

/// `new` is `old` after `message` was handed once to each of its systems;
/// `failed` counts the systems whose receiving end was gone.
pub open spec fn broadcast_done<W, M, S>(
    old: MessageBus<W, M, S>,
    new: MessageBus<W, M, S>,
    message: Message<W, M, S>,
    failed: usize,
) -> bool {
    &&& new.systems() == old.systems()
    &&& forall|i: int|
        0 <= i < old.systems() ==> {
            &&& #[trigger] new.handed(i).len() == old.handed(i).len() + 1
            &&& new.handed(i).drop_last() == old.handed(i)
            &&& same_message(new.handed(i).last().0, message)
        }
    &&& failed == count_failed(Seq::new(old.systems(), |i: int| new.handed(i).last().1))
}

impl<W, M, S> MessageBus<W, M, S> {
    pub closed spec fn systems(&self) -> nat {
        self.system_senders@.len()
    }

    /// Every message handed to system `i`, in order, with its outcome.
    pub closed spec fn handed(&self, i: int) -> Seq<(Message<W, M, S>, bool)> {
        self.system_senders@[i].handed()
    }

    pub fn new() -> (r: MessageBus<W, M, S>)
        ensures
            r.systems() == 0,
    {
        let (bus_sender, bus_receiver) = new_channel();
        MessageBus { bus_sender, bus_receiver, system_senders: Vec::new() }
    }

    /// Registers one more system and hands it its message box, open.
    pub fn get_message_box(&mut self) -> (r: MessageBox<W, M, S>)
        ensures
            final(self).systems() == old(self).systems() + 1,
            forall|i: int| 0 <= i < old(self).systems() ==> #[trigger] final(self).handed(i) == old(self).handed(i),
            final(self).handed(old(self).systems() as int) == Seq::<(Message<W, M, S>, bool)>::empty(),
            !r.closing(),
            r.posted() == Seq::<(Message<W, M, S>, bool)>::empty(),
    {
        let bus_sender = wrap_sender(clone_sender(&self.bus_sender));
        let (system_sender, system_receiver) = new_channel();
        self.system_senders.push(wrap_sender(system_sender));
        MessageBox { bus_sender, system_receiver, should_close: false }
    }

    /// The receiving end of the bus, on which posted messages arrive.
    pub fn receiver(&self) -> (r: &std::sync::mpsc::Receiver<Message<W, M, S>>) {
        &self.bus_receiver
    }

    /// Hands a copy of `message` to every registered system, in order;
    /// returns how many of them were already gone.
    pub fn broadcast(&mut self, message: &Message<W, M, S>) -> (r: usize)
        ensures
            broadcast_done(*old(self), *final(self), *message, r),
    {
        let ghost pre = *self;
        let mut failed: usize = 0;
        let mut i: usize = 0;
        while i < self.system_senders.len()
            invariant
                self.system_senders@.len() == pre.systems(),
                i <= self.system_senders@.len(),
                forall|k: int|
                    0 <= k < i ==> {
                        &&& #[trigger] self.handed(k).len() == pre.handed(k).len() + 1
                        &&& self.handed(k).drop_last() == pre.handed(k)
                        &&& same_message(self.handed(k).last().0, *message)
                    },
                forall|k: int| i <= k < pre.systems() ==> #[trigger] self.handed(k) == pre.handed(k),
                failed == count_failed(Seq::new(i as nat, |k: int| self.handed(k).last().1)),
                failed <= i,
            decreases self.system_senders@.len() - i,
        {
            let ghost before = *self;
            let copy = message.clone();
            let ok = send_value(&mut self.system_senders[i], copy);
            proof {
                assert forall|k: int| 0 <= k < pre.systems() && k != i implies #[trigger] self.handed(k) == before.handed(k) by {
                    assert(self.system_senders@[k] == before.system_senders@[k]);
                }
                assert(self.handed(i as int) == before.handed(i as int).push((copy, ok)));
                assert(self.handed(i as int).drop_last() =~= before.handed(i as int));
                let s1 = Seq::new((i + 1) as nat, |k: int| self.handed(k).last().1);
                let s0 = Seq::new(i as nat, |k: int| before.handed(k).last().1);
                assert(s1.drop_last() =~= s0);
                assert(s1.last() == ok);
            }
            if !ok {
                failed = failed + 1;
            }
            i = i + 1;
        }
        proof {
            assert(Seq::new(i as nat, |k: int| self.handed(k).last().1) =~= Seq::new(pre.systems(), |k: int| self.handed(k).last().1));
        }
        failed
    }

    /// One turn of the bus loop, given what the blocking receive on the bus
    /// yielded (`None`: every poster is gone). A message is handed to every
    /// system; the result says whether the loop goes on, which it does not
    /// after `Stop` or once the bus is closed, and how many systems were gone.
    pub fn route(&mut self, received: Option<Message<W, M, S>>) -> (r: (bool, usize))
        ensures
            r.0 == (received matches Some(m) && !(m is Stop)),
            received is None ==> *final(self) == *old(self) && r.1 == 0,
            received matches Some(m) ==> broadcast_done(*old(self), *final(self), m, r.1),
    {
        match received {
            None => (false, 0),
            Some(message) => {
                let failed = self.broadcast(&message);
                let go_on = match message {
                    Message::Stop => false,
                    _ => true,
                };
                (go_on, failed)
            },
        }
    }
}

/// Polling idempotence of a message box: an empty poll changes nothing, and
/// a box once closed stays closed whatever arrives.
pub proof fn lemma_closing_is_sticky<W, M, S>(should_close: bool, p: Polled<Message<W, M, S>>)
    ensures
        message_step(should_close, Polled::<Message<W, M, S>>::Empty) == (should_close, None::<Message<W, M, S>>),
        should_close ==> message_step(should_close, p).0,
{
}

} // verus!
