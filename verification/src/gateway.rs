//! The gateway's state and what happens when a reading comes in.

use crate::alarm::{alarm_due, AlarmDispatcher};
use crate::endpoint::parsed_url;
use crate::reading::Reading;
use crate::store::{ReadingStore, StoreState};
use crate::threshold::{parse_threshold, threshold_of};
use url::{ParseError, Url};
use vstd::prelude::*;

verus! {

/// Why a gateway could not be set up. A gateway exists only with a complete
/// configuration; any of these ends the start of the program.
#[derive(Clone, Copy, Debug, PartialEq, Eq, Structural)]
pub enum ConfigError {
    /// No alarm URL was given.
    MissingAlarmUrl,
    /// The alarm URL is not an absolute URL.
    InvalidAlarmUrl,
    /// No initial CO2 threshold was given.
    MissingThreshold,
    /// The initial CO2 threshold is not an unsigned decimal number of 64 bits.
    InvalidThreshold,
}

/// The configuration that the two settings amount to: the alarm URL and the
/// initial threshold, or the first fault found. The alarm URL is looked at
/// first. `alarm_url` is `None` where the setting is absent and `Some(None)`
/// where its text was refused as a URL.
pub open spec fn configuration_of(
    alarm_url: Option<Option<Url>>,
    minimum_co2_ppm: Option<Seq<char>>,
) -> Result<(Url, u64), ConfigError> {
    match alarm_url {
        None => Err(ConfigError::MissingAlarmUrl),
        Some(None) => Err(ConfigError::InvalidAlarmUrl),
        Some(Some(url)) => match minimum_co2_ppm {
            None => Err(ConfigError::MissingThreshold),
            Some(text) => match threshold_of(text) {
                None => Err(ConfigError::InvalidThreshold),
                Some(threshold) => Ok((url, threshold)),
            },
        },
    }
}

/// The text of a setting, where it is present.
pub open spec fn setting_text(setting: Option<&str>) -> Option<Seq<char>> {
    match setting {
        Some(text) => Some(text@),
        None => None,
    }
}

/// What the URL parser makes of the alarm URL setting, where it is present.
pub open spec fn parsed_setting(setting: Option<&str>) -> Option<Option<Url>> {
    match setting {
        Some(text) => Some(parsed_url(text@)),
        None => None,
    }
}

/// What the caller's own parse of the alarm URL came to, without the reason
/// for a refusal.
pub open spec fn parse_outcome(parsed: Option<Result<Url, ParseError>>) -> Option<Option<Url>> {
    match parsed {
        Some(outcome) => Some(outcome.ok()),
        None => None,
    }
}

/// The state of one gateway: the store and the alarm dispatcher.
pub struct Gateway {
    /// The current reading and the alarm threshold.
    pub store: ReadingStore,
    /// Where alarms go.
    pub dispatcher: AlarmDispatcher,
}

/// True when `built` is what setting up a gateway comes to for
/// `configuration`: its fault where it has one, and else a gateway that holds
/// the zero reading, the configured threshold and the configured alarm URL.
pub open spec fn set_up_from(
    built: Result<Gateway, ConfigError>,
    configuration: Result<(Url, u64), ConfigError>,
) -> bool {
    match configuration {
        Ok((alarm_url, threshold)) => {
            &&& built is Ok
            &&& built->Ok_0.store@ == (StoreState { current: Reading::zero(), threshold })
            &&& built->Ok_0.dispatcher.target() == alarm_url
        },
        Err(fault) => built is Err && built->Err_0 == fault,
    }
}

impl Gateway {
    /// Sets up a gateway from the two settings as they were found, each
    /// `None` where it is absent. The alarm URL must be an absolute URL and
    /// the threshold an unsigned decimal number.
    pub fn new(alarm_url: Option<&str>, minimum_co2_ppm: Option<&str>) -> (built: Result<
        Gateway,
        ConfigError,
    >)
        ensures
            set_up_from(
                built,
                configuration_of(parsed_setting(alarm_url), setting_text(minimum_co2_ppm)),
            ),
    {
        let parsed = match alarm_url {
            Some(text) => Some(Url::parse(text)),
            None => None,
        };
        Gateway::with_parsed_url(parsed, minimum_co2_ppm)
    }

    /// Sets up a gateway from an alarm URL that the caller has parsed, or
    /// failed to parse, and the threshold setting as it was found.
    pub fn with_parsed_url(
        alarm_url: Option<Result<Url, ParseError>>,
        minimum_co2_ppm: Option<&str>,
    ) -> (built: Result<Gateway, ConfigError>)
        ensures
            set_up_from(
                built,
                configuration_of(parse_outcome(alarm_url), setting_text(minimum_co2_ppm)),
            ),
    {
        let url = match alarm_url {
            None => {
                return Err(ConfigError::MissingAlarmUrl);
            },
            Some(Err(_)) => {
                return Err(ConfigError::InvalidAlarmUrl);
            },
            Some(Ok(url)) => url,
        };
        let text = match minimum_co2_ppm {
            None => {
                return Err(ConfigError::MissingThreshold);
            },
            Some(text) => text,
        };
        match parse_threshold(text) {
            None => Err(ConfigError::InvalidThreshold),
            Some(threshold) => Ok(
                Gateway { store: ReadingStore::new(threshold), dispatcher: AlarmDispatcher::new(url) },
            ),
        }
    }

    /// Takes in one reading: installs it as the current one and applies the
    /// alarm rule to it, with the threshold in effect at the moment of the
    /// installation. Returns the URL to request where the alarm is due.
    pub fn air_quality_input(&mut self, payload: Reading) -> (request: Option<Url>)
        ensures
            final(self).store@ == old(self).store@.replace_current(payload),
            final(self).dispatcher == old(self).dispatcher,
            request == if alarm_due(payload, old(self).store@.threshold) {
                Some(old(self).dispatcher.target())
            } else {
                None::<Url>
            },
    {
        let threshold = self.store.replace_current(payload);
        self.dispatcher.maybe_notify(&payload, threshold)
    }
}

} // verus!
