use vstd::prelude::*;

use crate::text::str_eq;

verus! {

/// The identity of a one-shot reply channel carried by a lifecycle event (the bits of its
/// UUID); the channel itself stays with the caller.
pub type HandleId = u128;

/// The events that steer the life of every node.
#[derive(Clone, Debug, PartialEq, Eq)]
pub enum Lifecycle {
    /// Start; the node replies on the given channel once it is ready.
    Init(HandleId),
    /// The configuration of the named module has changed and should be read again.
    ReadConfig(String),
    /// The user should be sent to this address; the code comes back on the given channel.
    Redirect(String, HandleId),
    /// Stop.
    Stop,
}

/// Why receiving from a broadcast channel failed.
#[derive(Clone, Copy, Debug, PartialEq, Eq)]
pub enum RecvFailure {
    /// Every sender is gone.
    Closed,
    /// The receiver fell behind and missed this many events.
    Lagged(u64),
}

pub open spec fn lifecycle_is_stop(l: Lifecycle) -> bool {
    l is Stop
}

pub open spec fn lifecycle_is_this(l: Lifecycle, module: Seq<char>) -> bool {
    match l {
        Lifecycle::ReadConfig(m) => m@ == module,
        _ => false,
    }
}

/// Something that may carry a lifecycle event.
pub trait LifecycleAware {
    /// Whether the event can be read at all (an error where a receive failed).
    spec fn readable(&self) -> bool;

    spec fn is_stop_spec(&self) -> bool;

    spec fn is_this_spec(&self, module: Seq<char>) -> bool;

    /// Whether this is the stop event.
    fn is_stop(&self) -> (r: bool)
        requires
            self.readable(),
        ensures
            r == self.is_stop_spec(),
    ;

    /// Whether this asks the module named `module` to read its configuration again.
    fn is_this(&self, module: &str) -> (r: bool)
        requires
            self.readable(),
        ensures
            r == self.is_this_spec(module@),
    ;
}

impl LifecycleAware for Lifecycle {
    open spec fn readable(&self) -> bool {
        true
    }

    open spec fn is_stop_spec(&self) -> bool {
        lifecycle_is_stop(*self)
    }

    open spec fn is_this_spec(&self, module: Seq<char>) -> bool {
        lifecycle_is_this(*self, module)
    }

    fn is_stop(&self) -> (r: bool) {
        match self {
            Lifecycle::Stop => true,
            _ => false,
        }
    }

    fn is_this(&self, module: &str) -> (r: bool) {
        match self {
            Lifecycle::ReadConfig(m) => str_eq(m.as_str(), module),
            _ => false,
        }
    }
}

impl LifecycleAware for Option<Lifecycle> {
    open spec fn readable(&self) -> bool {
        true
    }

    open spec fn is_stop_spec(&self) -> bool {
        match self {
            Some(l) => lifecycle_is_stop(*l),
            None => false,
        }
    }

    open spec fn is_this_spec(&self, module: Seq<char>) -> bool {
        match self {
            Some(l) => lifecycle_is_this(*l, module),
            None => false,
        }
    }

    fn is_stop(&self) -> (r: bool) {
        match self {
            Some(l) => l.is_stop(),
            None => false,
        }
    }

    fn is_this(&self, module: &str) -> (r: bool) {
        match self {
            Some(l) => l.is_this(module),
            None => false,
        }
    }
}

impl<E> LifecycleAware for Result<Lifecycle, E> {
    open spec fn readable(&self) -> bool {
        self is Ok
    }

    open spec fn is_stop_spec(&self) -> bool {
        match self {
            Ok(l) => lifecycle_is_stop(*l),
            Err(_) => false,
        }
    }

    open spec fn is_this_spec(&self, module: Seq<char>) -> bool {
        match self {
            Ok(l) => lifecycle_is_this(*l, module),
            Err(_) => false,
        }
    }

    fn is_stop(&self) -> (r: bool) {
        match self {
            Ok(l) => l.is_stop(),
            Err(_) => false,
        }
    }

    fn is_this(&self, module: &str) -> (r: bool) {
        match self {
            Ok(l) => l.is_this(module),
            Err(_) => false,
        }
    }
}

/// Something that answers a start event on its reply channel; the channel's owner
/// implements it.
pub trait InitReplier<T> {
    /// Sends `value` on the reply channel: `Err` where the channel is gone.
    fn send(&self, value: T) -> Result<(), ()>;

    /// Answers a start event with `value`. `sent_in` names the node that answers; a failed
    /// send is not passed on.
    fn reply_to_init_with(&self, value: T, sent_in: &str) {
        let _ = self.send(value);
    }
}

/// What a stop watcher does with an event it received.
#[derive(Clone, Copy, Debug, PartialEq, Eq)]
pub enum WatchAction {
    /// Reply to the start event on this channel, and keep watching.
    ReplyInit(HandleId),
    /// Abort the watched task, and stop watching.
    AbortTask,
    /// Keep watching.
    Ignore,
    /// Stop watching without aborting the task: the channel is closed.
    Exit,
}

pub open spec fn watch_action(event: Result<Lifecycle, RecvFailure>) -> WatchAction {
    match event {
        Ok(Lifecycle::Init(h)) => WatchAction::ReplyInit(h),
        Ok(Lifecycle::Stop) => WatchAction::AbortTask,
        Ok(_) => WatchAction::Ignore,
        Err(RecvFailure::Closed) => WatchAction::Exit,
        Err(RecvFailure::Lagged(_)) => WatchAction::Ignore,
    }
}

/// One turn of the watcher that aborts a task when the stop event comes: it replies to
/// start events, aborts on stop, ends when the channel closes, and otherwise keeps
/// watching.
pub fn abort_on_stop_step(event: &Result<Lifecycle, RecvFailure>) -> (r: WatchAction)
    ensures
        r == watch_action(*event),
        r is AbortTask <==> event.is_stop_spec(),
{
    match event {
        Ok(Lifecycle::Init(h)) => WatchAction::ReplyInit(*h),
        Ok(Lifecycle::Stop) => WatchAction::AbortTask,
        Ok(_) => WatchAction::Ignore,
        Err(RecvFailure::Closed) => WatchAction::Exit,
        Err(RecvFailure::Lagged(_)) => WatchAction::Ignore,
    }
}

/// Whether the task watched by a stop signal is aborted: only on a received `true`.
pub fn stop_signal_aborts(signal: Option<bool>) -> (r: bool)
    ensures
        r == (signal == Some(true)),
{
    match signal {
        Some(stop) => stop,
        None => false,
    }
}

} // verus!
