//! The output-volume watcher: it announces the volume of the default output
//! device, as a whole percentage, whenever the volume has moved by more than
//! a threshold since the last announcement.
//!
//! A volume is held as a whole number of millionths of full scale, so that
//! the threshold and the rounding are exact.

use vstd::prelude::*;
use crate::channel::{deliver, Delivery};
use crate::connection::ConnectionWatch;
use crate::frame::Frame;

verus! {

/// Full scale, in millionths.
pub const FULL_SCALE: u32 = 1_000_000;

/// The least movement that counts as a change: five hundredths of full
/// scale. A smaller one is jitter.
pub const MIN_VOLUME_CHANGE: u32 = 50_000;

/// A percentage must exceed this to be worth announcing.
pub const MIN_VOLUME_SEND_THRESHOLD: u8 = 1;

/// How long the watcher waits between two ticks, in milliseconds.
pub const VOLUME_POLL_MILLIS: u64 = 1000;

/// A level as a whole percentage of full scale, halves rounded up.
pub open spec fn percentage_of(millionths: nat) -> nat {
    (millionths + 5_000) / 10_000
}

/// How far two levels are apart.
pub open spec fn distance(a: nat, b: nat) -> nat {
    if a >= b {
        (a - b) as nat
    } else {
        (b - a) as nat
    }
}

/// A volume level between silence and full scale.
#[derive(Clone, Copy, Debug, PartialEq, Eq, Structural)]
pub struct Volume {
    millionths: u32,
}

impl Volume {
    #[verifier::type_invariant]
    spec fn in_range(self) -> bool {
        self.millionths <= FULL_SCALE
    }

    /// The level in millionths of full scale.
    pub closed spec fn level(self) -> nat {
        self.millionths as nat
    }

    /// Silence.
    pub fn silent() -> (volume: Volume)
        ensures
            volume.level() == 0,
    {
        Volume { millionths: 0 }
    }

    /// The level of `millionths`, unless that is beyond full scale.
    pub fn from_millionths(millionths: u32) -> (volume: Option<Volume>)
        ensures
            match volume {
                Some(v) => millionths <= FULL_SCALE && v.level() == millionths,
                None => millionths > FULL_SCALE,
            },
    {
        if millionths <= FULL_SCALE {
            Some(Volume { millionths })
        } else {
            None
        }
    }

    pub fn millionths(self) -> (millionths: u32)
        ensures
            millionths == self.level(),
            millionths <= FULL_SCALE,
    {
        proof {
            use_type_invariant(&self);
        }
        self.millionths
    }

    /// The level as a whole percentage.
    pub fn percentage(self) -> (percentage: u8)
        ensures
            percentage == percentage_of(self.level()),
            percentage <= 100,
    {
        proof {
            use_type_invariant(&self);
        }
        ((self.millionths + 5_000) / 10_000) as u8
    }

    /// Whether this level is further from `last` than the threshold.
    pub fn moved_from(self, last: Volume) -> (moved: bool)
        ensures
            moved == (distance(self.level(), last.level()) > MIN_VOLUME_CHANGE),
    {
        let gap: u32 = if self.millionths >= last.millionths {
            self.millionths - last.millionths
        } else {
            last.millionths - self.millionths
        };
        gap > MIN_VOLUME_CHANGE
    }
}

/// Announces `volume` as a percentage if the percentage exceeds the floor:
/// the frame is then offered to the queue. At or under the floor nothing
/// happens.
pub fn send_data(volume: Volume, data_sender: &tokio::sync::mpsc::Sender<Vec<u8>>) -> (sent: Option<
    Delivery,
>)
    ensures
        percentage_of(volume.level()) > MIN_VOLUME_SEND_THRESHOLD ==> sent is Some
            && sent->0.frame.wire() == seq![2u8, percentage_of(volume.level()) as u8],
        percentage_of(volume.level()) <= MIN_VOLUME_SEND_THRESHOLD ==> sent is None,
{
    let volume_percentage = volume.percentage();
    if volume_percentage > MIN_VOLUME_SEND_THRESHOLD {
        Some(deliver(data_sender, Frame::volume(volume_percentage)))
    } else {
        None
    }
}

/// What one tick of the volume watcher came to.
#[derive(Clone, Copy, Debug, PartialEq, Eq, Structural)]
pub enum VolumeVerdict {
    /// The provider has been disconnected: it does nothing any more.
    Stopped,
    /// The device or its volume could not be read this time.
    NoReading,
    /// The volume is within the threshold of the one remembered.
    Steady,
    /// The volume has moved, but its percentage does not exceed the floor.
    BelowFloor,
    /// The volume has moved and was announced as this percentage.
    Emit(u8),
}

/// What the volume watcher decides on a tick, from whether it is connected,
/// the level it remembers and the level that was read, both in millionths.
pub open spec fn volume_verdict(connected: bool, last: nat, reading: Option<nat>) -> VolumeVerdict {
    if !connected {
        VolumeVerdict::Stopped
    } else {
        match reading {
            None => VolumeVerdict::NoReading,
            Some(level) => if distance(level, last) <= MIN_VOLUME_CHANGE {
                VolumeVerdict::Steady
            } else if percentage_of(level) <= MIN_VOLUME_SEND_THRESHOLD {
                VolumeVerdict::BelowFloor
            } else {
                VolumeVerdict::Emit(percentage_of(level) as u8)
            },
        }
    }
}

/// The level remembered after a tick: the level read, as it was read, if it
/// has moved beyond the threshold; the former one otherwise.
pub open spec fn volume_next(connected: bool, last: nat, reading: Option<nat>) -> nat {
    match volume_verdict(connected, last, reading) {
        VolumeVerdict::BelowFloor | VolumeVerdict::Emit(_) => reading->0,
        _ => last,
    }
}

/// What a reading holds, in millionths.
pub open spec fn reading_level(reading: Option<Volume>) -> Option<nat> {
    match reading {
        Some(volume) => Some(volume.level()),
        None => None,
    }
}

/// What the volume watcher remembers between ticks.
pub struct VolumeState {
    last_emitted: Volume,
}

impl VolumeState {
    /// The level against which the next reading is measured.
    pub closed spec fn last(&self) -> nat {
        self.last_emitted.level()
    }

    /// The state of a watcher that has seen nothing yet: it measures against
    /// silence.
    pub fn new() -> (state: VolumeState)
        ensures
            state.last() == 0,
    {
        VolumeState { last_emitted: Volume::silent() }
    }

    pub fn last_emitted(&self) -> (last: Volume)
        ensures
            last.level() == self.last(),
    {
        self.last_emitted
    }
}

/// What a tick of the volume watcher did.
#[derive(Debug)]
pub struct VolumeReport {
    pub verdict: VolumeVerdict,
    /// The frame that was offered to the queue, if the tick announced a level.
    pub delivery: Option<Delivery>,
}

/// The output-volume watcher.
pub struct VolumeProvider {
    data_sender: tokio::sync::mpsc::Sender<Vec<u8>>,
    connected_sender: tokio::sync::broadcast::Sender<bool>,
}

impl VolumeProvider {
    /// The output queue this watcher offers its frames to.
    pub closed spec fn queue(&self) -> tokio::sync::mpsc::Sender<Vec<u8>> {
        self.data_sender
    }

    /// The connection signal this watcher obeys.
    pub closed spec fn signal(&self) -> tokio::sync::broadcast::Sender<bool> {
        self.connected_sender
    }

    pub fn new(
        data_sender: tokio::sync::mpsc::Sender<Vec<u8>>,
        connected_sender: tokio::sync::broadcast::Sender<bool>,
    ) -> (provider: VolumeProvider)
        ensures
            provider.queue() == data_sender,
            provider.signal() == connected_sender,
    {
        VolumeProvider { data_sender, connected_sender }
    }

    /// The signal to subscribe to before the first tick.
    pub fn connected_sender(&self) -> (sender: &tokio::sync::broadcast::Sender<bool>)
        ensures
            *sender == self.signal(),
    {
        &self.connected_sender
    }

    /// One tick: given the volume that was read (`None` if the device or its
    /// volume could not be read), announces it if it has moved beyond the
    /// threshold and its percentage exceeds the floor, and remembers it as
    /// read if it has moved. A disconnected provider does nothing.
    pub fn tick(&self, watch: &ConnectionWatch, state: &mut VolumeState, reading: Option<Volume>) -> (report:
        VolumeReport)
        ensures
            report.verdict == volume_verdict(
                watch.is_connected(),
                old(state).last(),
                reading_level(reading),
            ),
            final(state).last() == volume_next(
                watch.is_connected(),
                old(state).last(),
                reading_level(reading),
            ),
            match report.verdict {
                VolumeVerdict::Emit(percentage) => percentage <= 100 && report.delivery is Some
                    && report.delivery->0.frame.wire() == seq![2u8, percentage],
                _ => report.delivery is None,
            },
    {
        if !watch.connected() {
            return VolumeReport { verdict: VolumeVerdict::Stopped, delivery: None };
        }
        let volume = match reading {
            Some(volume) => volume,
            None => {
                return VolumeReport { verdict: VolumeVerdict::NoReading, delivery: None };
            },
        };
        if !volume.moved_from(state.last_emitted) {
            return VolumeReport { verdict: VolumeVerdict::Steady, delivery: None };
        }
        state.last_emitted = volume;
        match send_data(volume, &self.data_sender) {
            Some(delivery) => VolumeReport {
                verdict: VolumeVerdict::Emit(volume.percentage()),
                delivery: Some(delivery),
            },
            None => VolumeReport { verdict: VolumeVerdict::BelowFloor, delivery: None },
        }
    }
}

/// Of two readings in a row that are within the threshold of each other, at
/// most the first is announced.
pub proof fn volume_jitter_is_silent(last: nat, first: nat, second: nat)
    requires
        distance(first, second) <= MIN_VOLUME_CHANGE,
    ensures
        volume_verdict(true, last, Some(first)) is Emit ==> volume_verdict(
            true,
            volume_next(true, last, Some(first)),
            Some(second),
        ) == VolumeVerdict::Steady,
{
}

/// A reading within the threshold of the level remembered is never
/// announced, and leaves that level remembered.
pub proof fn volume_within_threshold_is_silent(connected: bool, last: nat, reading: nat)
    requires
        distance(reading, last) <= MIN_VOLUME_CHANGE,
    ensures
        !(volume_verdict(connected, last, Some(reading)) is Emit),
        volume_next(connected, last, Some(reading)) == last,
{
}

/// A reading beyond the threshold whose percentage exceeds the floor is
/// announced, as that percentage.
pub proof fn volume_change_is_announced(last: nat, reading: nat)
    requires
        reading <= FULL_SCALE,
        distance(reading, last) > MIN_VOLUME_CHANGE,
        percentage_of(reading) > MIN_VOLUME_SEND_THRESHOLD,
    ensures
        percentage_of(reading) <= 100,
        volume_verdict(true, last, Some(reading)) == VolumeVerdict::Emit(
            percentage_of(reading) as u8,
        ),
        volume_next(true, last, Some(reading)) == reading,
{
}

/// A percentage of 0 or 1 is never announced, however far the volume moved.
pub proof fn volume_floor_is_silent(connected: bool, last: nat, reading: Option<nat>)
    requires
        reading is Some ==> percentage_of(reading->0) <= 1,
    ensures
        !(volume_verdict(connected, last, reading) is Emit),
{
}

/// A disconnected watcher announces nothing and changes nothing.
pub proof fn volume_stopped_is_silent(last: nat, reading: Option<nat>)
    ensures
        volume_verdict(false, last, reading) == VolumeVerdict::Stopped,
        volume_next(false, last, reading) == last,
{
}

} // verus!
