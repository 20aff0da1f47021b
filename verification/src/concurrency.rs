use std::sync::atomic::AtomicBool;
use std::sync::mpsc::{Receiver, Sender};
use std::sync::Arc;
use vstd::prelude::*;

verus! {

#[verifier::external_type_specification]
#[verifier::external_body]
#[verifier::reject_recursive_types(T)]
pub struct ExSender<T>(Sender<T>);

#[verifier::external_type_specification]
#[verifier::external_body]
#[verifier::reject_recursive_types(T)]
pub struct ExReceiver<T>(Receiver<T>);

/// std's `mpsc::channel`: a new channel, its sending and its receiving half.
#[verifier::external_body]
fn new_channel<T>() -> (Sender<T>, Receiver<T>) {
    std::sync::mpsc::channel::<T>()
}

/// std's `Sender::send`: a value that could not be delivered (the receiver is
/// gone) comes back unchanged in `Err`. Whether it is delivered is not stated.
#[verifier::external_body]
fn channel_send<T>(sender: &Sender<T>, data: T) -> (r: Result<(), T>)
    ensures
        r matches Err(back) ==> back == data,
{
    sender.send(data).map_err(|e| e.0)
}

/// std's `Sender::clone`: another sending half of the same channel. That the two
/// halves share the channel is not stated.
#[verifier::external_body]
fn clone_sender<T>(sender: &Sender<T>) -> Sender<T> {
    sender.clone()
}

/// std's `Receiver::try_recv`, with any error read as "nothing there". What comes
/// back depends on other threads and is not stated.
#[verifier::external_body]
fn channel_try_recv<T>(receiver: &Receiver<T>) -> Option<T> {
    receiver.try_recv().ok()
}

/// Lets any thread ask the UI to be built again.
pub struct GlobalRebuildTrigger {
    rebuild_flag: Arc<AtomicBool>,
}

impl GlobalRebuildTrigger {
    /// A trigger that raises `rebuild_flag`.
    pub fn new(rebuild_flag: Arc<AtomicBool>) -> (r: Self)
        ensures
            r.flag() == rebuild_flag,
    {
        GlobalRebuildTrigger { rebuild_flag }
    }

    /// The flag this trigger raises.
    pub closed spec fn flag(&self) -> Arc<AtomicBool> {
        self.rebuild_flag
    }

    /// Raises the rebuild flag.
    pub fn trigger_rebuild(&self) {
        self.rebuild_flag.store(true, std::sync::atomic::Ordering::Relaxed);
    }
}

/// The channel through which background tasks send events to a reactive UI.
#[verifier::reject_recursive_types(E)]
pub struct ConcurrencyData<E> {
    receiver: Receiver<E>,
    sender: Sender<E>,
}

impl<E> ConcurrencyData<E> {
    /// A new, empty channel.
    pub fn new() -> Self {
        let (sender, receiver) = new_channel::<E>();
        Self { receiver, sender }
    }

    /// The next event sent by a task, if one is waiting.
    pub fn try_recv(&self) -> Option<E> {
        channel_try_recv(&self.receiver)
    }

    /// What a task needs to send events to this channel and have the UI rebuilt.
    pub fn task_arg(&self, glb_build: GlobalRebuildTrigger) -> (r: ConcurrentTaskArg<E>)
        ensures
            r.rebuild_trigger() == glb_build,
    {
        ConcurrentTaskArg { sender: clone_sender(&self.sender), glb_build }
    }
}

/// Handed to a background task: it sends events to its reactive UI.
#[verifier::reject_recursive_types(EventType)]
pub struct ConcurrentTaskArg<EventType> {
    sender: Sender<EventType>,
    glb_build: GlobalRebuildTrigger,
}

impl<T> ConcurrentTaskArg<T> {
    /// The trigger that `send` pulls.
    pub closed spec fn rebuild_trigger(&self) -> GlobalRebuildTrigger {
        self.glb_build
    }

    /// Sending data automatically triggers UI updates. A value that cannot be
    /// delivered because the UI is gone comes back in `Err`.
    pub fn send(&self, data: T) -> (r: Result<(), T>)
        ensures
            r matches Err(back) ==> back == data,
    {
        self.glb_build.trigger_rebuild();
        channel_send(&self.sender, data)
    }
}

} // verus!
