//! The store of the current reading and of the alarm threshold.
//!
//! A store is owned by one party and changed through `&mut`: an update has the
//! store to itself from its first step to its last, so a reader always finds a
//! reading that some completed update installed whole. A program that shares
//! one store between handlers puts it behind a lock and holds the lock for the
//! length of one call.

use crate::reading::Reading;
use vstd::prelude::*;

verus! {

/// What a store holds, as a mathematical value.
pub struct StoreState {
    /// The reading installed last, or the zero reading before the first.
    pub current: Reading,
    /// The CO2 level, in ppm, at or above which the alarm is due.
    pub threshold: u64,
}

impl StoreState {
    /// The state after `reading` has been installed: the reading is replaced
    /// as a whole, the threshold stays.
    pub open spec fn replace_current(self, reading: Reading) -> StoreState {
        StoreState { current: reading, threshold: self.threshold }
    }

    /// The state after the threshold has been set: the reading stays.
    pub open spec fn set_threshold(self, minimum_co2_ppm: u64) -> StoreState {
        StoreState { current: self.current, threshold: minimum_co2_ppm }
    }

    /// The state after the thresholds of `thresholds` have been set one after
    /// the other, the first of the sequence first.
    pub open spec fn set_threshold_all(self, thresholds: Seq<u64>) -> StoreState
        decreases thresholds.len(),
    {
        if thresholds.len() == 0 {
            self
        } else {
            self.set_threshold_all(thresholds.drop_last()).set_threshold(thresholds.last())
        }
    }

    /// The state after the readings of `readings` have been installed one
    /// after the other, the first of the sequence first.
    pub open spec fn replace_all(self, readings: Seq<Reading>) -> StoreState
        decreases readings.len(),
    {
        if readings.len() == 0 {
            self
        } else {
            self.replace_all(readings.drop_last()).replace_current(readings.last())
        }
    }
}

/// The single most recent reading, together with the alarm threshold.
pub struct ReadingStore {
    current: Reading,
    minimum_co2_ppm: u64,
}

impl View for ReadingStore {
    type V = StoreState;

    closed spec fn view(&self) -> StoreState {
        StoreState { current: self.current, threshold: self.minimum_co2_ppm }
    }
}

impl ReadingStore {
    /// A store that holds the zero reading and the given threshold.
    pub fn new(minimum_co2_ppm: u64) -> (store: ReadingStore)
        ensures
            store@ == (StoreState { current: Reading::zero(), threshold: minimum_co2_ppm }),
    {
        ReadingStore { current: Reading::default(), minimum_co2_ppm }
    }

    /// A copy of the reading installed last.
    pub fn get_current(&self) -> (reading: Reading)
        ensures
            reading == self@.current,
    {
        self.current
    }

    /// The threshold in effect.
    pub fn threshold(&self) -> (minimum_co2_ppm: u64)
        ensures
            minimum_co2_ppm == self@.threshold,
    {
        self.minimum_co2_ppm
    }

    /// Installs `reading` as the current one and returns the threshold in
    /// effect at that moment. The caller holds the store exclusively for the
    /// whole call, so the reading and the threshold are observed together.
    pub fn replace_current(&mut self, reading: Reading) -> (minimum_co2_ppm: u64)
        ensures
            final(self)@ == old(self)@.replace_current(reading),
            minimum_co2_ppm == old(self)@.threshold,
    {
        self.current = reading;
        self.minimum_co2_ppm
    }

    /// Sets the threshold. Every value is accepted, zero included.
    pub fn set_threshold(&mut self, minimum_co2_ppm: u64)
        ensures
            final(self)@ == old(self)@.set_threshold(minimum_co2_ppm),
    {
        self.minimum_co2_ppm = minimum_co2_ppm;
    }
}

/// After the first `n` installations of a run, the store holds exactly the
/// `n`-th reading of the run, with no field of an earlier reading left in it,
/// and the threshold it started with.
pub proof fn lemma_current_after_nth(start: StoreState, readings: Seq<Reading>, n: int)
    requires
        1 <= n <= readings.len(),
    ensures
        start.replace_all(readings.take(n)).current == readings[n - 1],
        start.replace_all(readings.take(n)).threshold == start.threshold,
{
    lemma_threshold_outlives_installations(start, readings.take(n));
}

/// Installing readings never changes the threshold.
pub proof fn lemma_threshold_outlives_installations(start: StoreState, readings: Seq<Reading>)
    ensures
        start.replace_all(readings).threshold == start.threshold,
    decreases readings.len(),
{
    if readings.len() > 0 {
        lemma_threshold_outlives_installations(start, readings.drop_last());
    }
}

/// Two installations made in either order leave one of the two readings in
/// the store, whole: whichever was installed second.
pub proof fn lemma_two_installations_leave_one(start: StoreState, first: Reading, second: Reading)
    ensures
        start.replace_current(first).replace_current(second).current == second,
        start.replace_current(second).replace_current(first).current == first,
{
}

} // verus!
