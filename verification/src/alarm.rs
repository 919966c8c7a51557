//! The alarm rule and the dispatcher that applies it.
//!
//! The dispatcher decides; it does not send. Where the alarm is due it hands
//! back the one request to make, a GET of the configured URL, and the caller
//! makes it in the background, outside any lock, without waiting for it and
//! without trying again. Nothing is remembered between two decisions: every
//! reading at or above the threshold calls for one request of its own.

use crate::reading::Reading;
use crate::store::StoreState;
use url::Url;
use vstd::prelude::*;

verus! {

/// The time, in seconds, after which an alarm request is given up.
pub const ALARM_TIMEOUT_SECS: u64 = 3;

/// The alarm rule: the alarm is due when the CO2 level of the reading is at
/// or above the threshold. A level below zero is below every threshold.
pub open spec fn alarm_due(reading: Reading, threshold: u64) -> bool {
    reading.co2 >= threshold
}

/// Holds the URL that an alarm is sent to.
pub struct AlarmDispatcher {
    alarm_url: Url,
}

impl AlarmDispatcher {
    /// The configured alarm URL.
    pub closed spec fn target(&self) -> Url {
        self.alarm_url
    }

    /// A dispatcher that sends alarms to `alarm_url`.
    pub fn new(alarm_url: Url) -> (dispatcher: AlarmDispatcher)
        ensures
            dispatcher.target() == alarm_url,
    {
        AlarmDispatcher { alarm_url }
    }

    /// The configured alarm URL.
    pub fn alarm_url(&self) -> (alarm_url: &Url)
        ensures
            *alarm_url == self.target(),
    {
        &self.alarm_url
    }

    /// Applies the alarm rule to `reading`: the URL to request, once, where
    /// the alarm is due, and `None` where it is not.
    pub fn maybe_notify(&self, reading: &Reading, threshold: u64) -> (request: Option<Url>)
        ensures
            request == if alarm_due(*reading, threshold) {
                Some(self.target())
            } else {
                None::<Url>
            },
    {
        if reading.co2 >= 0 && reading.co2 as u64 >= threshold {
            Some(self.alarm_url.clone())
        } else {
            None
        }
    }
}

/// The alarm is due exactly from the threshold upwards: a level equal to the
/// threshold already calls for it, the level just below does not.
pub proof fn lemma_alarm_due_from_threshold(reading: Reading, threshold: u64)
    ensures
        alarm_due(reading, threshold) <==> reading.co2 >= threshold,
        reading.co2 == threshold ==> alarm_due(reading, threshold),
        reading.co2 == threshold - 1 ==> !alarm_due(reading, threshold),
{
}

/// Once the threshold is zero, every reading installed afterwards, whose CO2
/// level is not below zero, calls for the alarm: installing readings leaves
/// the threshold at zero.
pub proof fn lemma_zero_threshold_always_alarms(
    start: StoreState,
    earlier: Seq<Reading>,
    reading: Reading,
)
    requires
        reading.co2 >= 0,
    ensures
        alarm_due(reading, start.set_threshold(0).replace_all(earlier).threshold),
{
    crate::store::lemma_threshold_outlives_installations(start.set_threshold(0), earlier);
}

} // verus!
