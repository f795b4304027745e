//! The progress channel and the cancellation flag.
//!
//! Progress updates are handed to a broadcast channel of `tokio`: every
//! subscriber gets every update sent after it subscribed, sending never
//! waits for a subscriber, and a subscriber that falls behind loses the
//! oldest updates. The flag is a plain boolean; whoever shares a manager
//! between tasks wraps it in a lock.

use crate::error::WowUsbError;
use crate::provision::{stage_message, stage_name, ProgressNotice};
use tokio::sync::broadcast::{Receiver, Sender};
use vstd::prelude::*;

verus! {

/// The sending half of a `tokio` broadcast channel.
#[verifier::external_type_specification]
#[verifier::external_body]
#[verifier::reject_recursive_types(T)]
pub struct ExSender<T>(Sender<T>);

/// The receiving half of a `tokio` broadcast channel.
#[verifier::external_type_specification]
#[verifier::external_body]
#[verifier::reject_recursive_types(T)]
pub struct ExReceiver<T>(Receiver<T>);

/// Number of updates that the channel keeps for a subscriber that lags.
pub const CHANNEL_CAPACITY: usize = 100;

/// One progress report as subscribers get it.
#[derive(Debug, Clone, PartialEq, Eq)]
pub struct ProgressUpdate {
    pub progress: u8,
    pub message: String,
    pub stage: String,
    /// When the update was made, in milliseconds since the Unix epoch, UTC.
    pub timestamp: i64,
}

pub struct UpdateView {
    pub progress: u8,
    pub message: Seq<char>,
    pub stage: Seq<char>,
    pub timestamp: i64,
}

impl View for ProgressUpdate {
    type V = UpdateView;

    open spec fn view(&self) -> UpdateView {
        UpdateView {
            progress: self.progress,
            message: self.message@,
            stage: self.stage@,
            timestamp: self.timestamp,
        }
    }
}

/// The number of updates that the channel of a sender was asked to keep
/// for a receiver that lags, when the channel was made. The channel may keep
/// more; it never keeps fewer.
pub uninterp spec fn channel_limit(sender: Sender<ProgressUpdate>) -> nat;

/// Calls `tokio::sync::broadcast::channel` and keeps the sender. The call
/// panics for a capacity of zero or above `usize::MAX / 2`, which `requires`
/// leaves out. The channel is made with the capacity that was asked for;
/// nothing else is claimed of it.
#[verifier::external_body]
fn open_channel(capacity: usize) -> (sender: Sender<ProgressUpdate>)
    requires
        0 < capacity <= usize::MAX / 2,
    ensures
        channel_limit(sender) == capacity,
{
    tokio::sync::broadcast::channel(capacity).0
}

/// Calls `Sender::send`. Whether it succeeds depends on whether a receiver
/// is subscribed at the moment of the call, which the sender does not show.
/// On success the channel says how many receivers are subscribed, which is
/// one at least; on failure it hands the value back untouched.
#[verifier::external_body]
fn send_update(sender: &Sender<ProgressUpdate>, update: ProgressUpdate) -> (r: Result<
    usize,
    ProgressUpdate,
>)
    ensures
        r matches Ok(receivers) ==> receivers >= 1,
        r matches Err(returned) ==> returned == update,
{
    sender.send(update).map_err(|e| e.0)
}

/// Calls `Sender::subscribe`. The receiver gets the values that are sent
/// after the call; nothing is claimed of it here. The channel panics when
/// a quarter of `usize::MAX` receivers are subscribed at once, which is
/// more than memory holds.
#[verifier::external_body]
fn subscribe_to(sender: &Sender<ProgressUpdate>) -> (receiver: Receiver<ProgressUpdate>) {
    sender.subscribe()
}

/// Reads the clock with `SystemTime::now` and writes it with chrono's
/// conversion from `SystemTime` and `DateTime::timestamp_millis`: the time
/// in milliseconds since the Unix epoch, negative for a clock that stands
/// before 1970. The result depends on the clock, so nothing is claimed of
/// it. The conversion gives up only on a time outside the years that
/// chrono can write, some 262,000 to either side of 1970, which no system
/// clock shows.
#[verifier::external_body]
fn now_millis() -> (millis: i64) {
    chrono::DateTime::<chrono::Utc>::from(std::time::SystemTime::now()).timestamp_millis()
}

/// Publishes progress and carries the cancellation flag.
pub struct ProgressManager {
    sender: Sender<ProgressUpdate>,
    cancelled: bool,
}

impl ProgressUpdate {
    /// The update with the given contents.
    pub fn new(progress: u8, message: String, stage: String, timestamp: i64) -> (update: Self)
        ensures
            update.progress == progress,
            update.message == message,
            update.stage == stage,
            update.timestamp == timestamp,
    {
        ProgressUpdate { progress, message, stage, timestamp }
    }

    /// The update that reports `notice` at time `timestamp`: its percentage,
    /// the name of the state and the sentence that describes it.
    pub fn from_notice(notice: ProgressNotice, timestamp: i64) -> (update: Self)
        ensures
            update@ == (UpdateView {
                progress: notice.percent,
                message: stage_message(notice.stage),
                stage: stage_name(notice.stage),
                timestamp,
            }),
    {
        ProgressUpdate {
            progress: notice.percent,
            message: notice.stage.message(),
            stage: notice.stage.name(),
            timestamp,
        }
    }
}

impl ProgressManager {
    /// Whether cancellation has been asked for and not reset since.
    pub closed spec fn spec_cancelled(&self) -> bool {
        self.cancelled
    }

    /// The number of updates that the channel keeps at least for a
    /// subscriber that lags, before the oldest is dropped.
    pub closed spec fn spec_capacity(&self) -> nat {
        channel_limit(self.sender)
    }

    /// A manager with the flag down and a new channel that is bounded by
    /// `CHANNEL_CAPACITY`.
    pub fn new() -> (manager: Self)
        ensures
            !manager.spec_cancelled(),
            manager.spec_capacity() == CHANNEL_CAPACITY,
    {
        ProgressManager { sender: open_channel(CHANNEL_CAPACITY), cancelled: false }
    }

    /// What `update` returns for what the channel reported. Publishing is
    /// fire-and-forget: it succeeds whether a subscriber was there to take
    /// the update or the channel handed it back because nobody was.
    pub fn delivery(sent: Result<usize, ProgressUpdate>) -> (r: Result<(), WowUsbError>)
        ensures
            r is Ok,
    {
        match sent {
            Ok(_) => Ok(()),
            Err(_) => Ok(()),
        }
    }

    /// Publishes one update, stamped with the current time, to all
    /// subscribers. Never waits and never fails, whether or not anybody is
    /// subscribed.
    pub fn update(&self, progress: u8, message: String, stage: String) -> (r: Result<
        (),
        WowUsbError,
    >)
        ensures
            r is Ok,
    {
        let update = ProgressUpdate::new(progress, message, stage, now_millis());
        Self::delivery(send_update(&self.sender, update))
    }

    /// Publishes the report of one state of a run. Never waits and never
    /// fails, whether or not anybody is subscribed.
    pub fn announce(&self, notice: ProgressNotice) -> (r: Result<(), WowUsbError>)
        ensures
            r is Ok,
    {
        let update = ProgressUpdate::from_notice(notice, now_millis());
        Self::delivery(send_update(&self.sender, update))
    }

    /// A new subscriber, which gets the updates published from now on.
    pub fn subscribe(&self) -> (receiver: Receiver<ProgressUpdate>) {
        subscribe_to(&self.sender)
    }

    /// Raises the flag. Returns `true`: cancellation is in effect from now
    /// until the next reset.
    pub fn cancel(&mut self) -> (accepted: bool)
        ensures
            accepted,
            final(self).spec_cancelled(),
            final(self).spec_capacity() == old(self).spec_capacity(),
    {
        self.cancelled = true;
        true
    }

    /// Whether cancellation has been asked for and not reset since.
    pub fn is_cancelled(&self) -> (cancelled: bool)
        ensures
            cancelled == self.spec_cancelled(),
    {
        self.cancelled
    }

    /// Lowers the flag, as is done before each run.
    pub fn reset(&mut self)
        ensures
            !final(self).spec_cancelled(),
            final(self).spec_capacity() == old(self).spec_capacity(),
    {
        self.cancelled = false;
    }
}

impl Default for ProgressManager {
    fn default() -> (manager: Self)
        ensures
            !manager.spec_cancelled(),
            manager.spec_capacity() == CHANNEL_CAPACITY,
    {
        Self::new()
    }
}

} // verus!
