//! How dates are written: the time zone, the locale, the hour cycle and the
//! calendar.

use crate::error::{DenimError, DenimResult};
use crate::text::same_text;
use vstd::prelude::*;
use vstd::string::*;

verus! {

/// Which parts of a date are written, and how long.
#[derive(Copy, Clone, Debug, PartialEq, Eq, Structural)]
pub enum DateFormat {
    ShortYMDET,
    LongYMDET,
    ShortYMD,
}

/// How the hours of a day are counted.
#[derive(Copy, Clone, Debug, PartialEq, Eq, Structural)]
pub enum HourCycle {
    /// From 0 to 11, twice a day.
    H11,
    /// From 1 to 12, twice a day.
    H12,
    /// From 0 to 23.
    H23,
}

/// The calendar in which dates are written.
#[derive(Copy, Clone, Debug, PartialEq, Eq, Structural)]
pub enum CalendarAlgorithm {
    Iso8601,
    Buddhist,
    Chinese,
    Japanese,
    Hebrew,
    Dangi,
}

/// How dates are written, as it is stored: each part by its name.
#[derive(Clone, Debug)]
pub struct DateLocaleConfigInterchange {
    pub tz: String,
    pub locale: String,
    pub hour_cycle: String,
    pub calendar_algorithm: String,
}

impl HourCycle {
    /// The name of this hour cycle.
    pub open spec fn spec_name(self) -> Seq<char> {
        match self {
            HourCycle::H11 => "h11"@,
            HourCycle::H12 => "h12"@,
            HourCycle::H23 => "h23"@,
        }
    }

    /// The name of this hour cycle.
    pub fn name(self) -> (name: &'static str)
        ensures
            name@ == self.spec_name(),
    {
        match self {
            HourCycle::H11 => "h11",
            HourCycle::H12 => "h12",
            HourCycle::H23 => "h23",
        }
    }

    /// The hour cycle called `name`, if there is one.
    pub open spec fn named(name: Seq<char>) -> Option<HourCycle> {
        if name == "h23"@ {
            Some(HourCycle::H23)
        } else if name == "h11"@ {
            Some(HourCycle::H11)
        } else if name == "h12"@ {
            Some(HourCycle::H12)
        } else {
            None
        }
    }

    /// The hour cycle called `name`; a name of no hour cycle is refused.
    pub fn parse(name: String) -> (cycle: DenimResult<HourCycle>)
        ensures
            match Self::named(name@) {
                Some(c) => cycle == Ok::<HourCycle, DenimError>(c),
                None => cycle == Err::<HourCycle, DenimError>(
                    DenimError::InvalidHourCycle { provided: name },
                ),
            },
    {
        if same_text(name.as_str(), "h23") {
            Ok(HourCycle::H23)
        } else if same_text(name.as_str(), "h11") {
            Ok(HourCycle::H11)
        } else if same_text(name.as_str(), "h12") {
            Ok(HourCycle::H12)
        } else {
            Err(DenimError::InvalidHourCycle { provided: name })
        }
    }

    /// Every hour cycle is the one that its name stands for.
    pub proof fn name_round_trip(self)
        ensures
            Self::named(self.spec_name()) == Some(self),
    {
        reveal_strlit("h11");
        reveal_strlit("h12");
        reveal_strlit("h23");
        assert("h11"@[2] != "h23"@[2] && "h12"@[1] != "h23"@[1] && "h12"@[2] != "h11"@[2]);
    }
}

impl CalendarAlgorithm {
    /// The name of this calendar.
    pub open spec fn spec_name(self) -> Seq<char> {
        match self {
            CalendarAlgorithm::Iso8601 => "gregorian"@,
            CalendarAlgorithm::Buddhist => "buddhist"@,
            CalendarAlgorithm::Chinese => "chinese"@,
            CalendarAlgorithm::Japanese => "japanese"@,
            CalendarAlgorithm::Hebrew => "hebrew"@,
            CalendarAlgorithm::Dangi => "dangi"@,
        }
    }

    /// The name of this calendar.
    pub fn name(self) -> (name: &'static str)
        ensures
            name@ == self.spec_name(),
    {
        match self {
            CalendarAlgorithm::Iso8601 => "gregorian",
            CalendarAlgorithm::Buddhist => "buddhist",
            CalendarAlgorithm::Chinese => "chinese",
            CalendarAlgorithm::Japanese => "japanese",
            CalendarAlgorithm::Hebrew => "hebrew",
            CalendarAlgorithm::Dangi => "dangi",
        }
    }

    /// The calendar called `name`, if there is one.
    pub open spec fn named(name: Seq<char>) -> Option<CalendarAlgorithm> {
        if name == "gregorian"@ {
            Some(CalendarAlgorithm::Iso8601)
        } else if name == "buddhist"@ {
            Some(CalendarAlgorithm::Buddhist)
        } else if name == "chinese"@ {
            Some(CalendarAlgorithm::Chinese)
        } else if name == "japanese"@ {
            Some(CalendarAlgorithm::Japanese)
        } else if name == "hebrew"@ {
            Some(CalendarAlgorithm::Hebrew)
        } else if name == "dangi"@ {
            Some(CalendarAlgorithm::Dangi)
        } else {
            None
        }
    }

    /// The calendar called `name`; a name of no calendar is refused.
    pub fn parse(name: String) -> (calendar: DenimResult<CalendarAlgorithm>)
        ensures
            match Self::named(name@) {
                Some(c) => calendar == Ok::<CalendarAlgorithm, DenimError>(c),
                None => calendar == Err::<CalendarAlgorithm, DenimError>(
                    DenimError::InvalidCalendarAlgorithm { provided: name },
                ),
            },
    {
        if same_text(name.as_str(), "gregorian") {
            Ok(CalendarAlgorithm::Iso8601)
        } else if same_text(name.as_str(), "buddhist") {
            Ok(CalendarAlgorithm::Buddhist)
        } else if same_text(name.as_str(), "chinese") {
            Ok(CalendarAlgorithm::Chinese)
        } else if same_text(name.as_str(), "japanese") {
            Ok(CalendarAlgorithm::Japanese)
        } else if same_text(name.as_str(), "hebrew") {
            Ok(CalendarAlgorithm::Hebrew)
        } else if same_text(name.as_str(), "dangi") {
            Ok(CalendarAlgorithm::Dangi)
        } else {
            Err(DenimError::InvalidCalendarAlgorithm { provided: name })
        }
    }

    /// Every calendar is the one that its name stands for.
    pub proof fn name_round_trip(self)
        ensures
            Self::named(self.spec_name()) == Some(self),
    {
        reveal_strlit("gregorian");
        reveal_strlit("buddhist");
        reveal_strlit("chinese");
        reveal_strlit("japanese");
        reveal_strlit("hebrew");
        reveal_strlit("dangi");
        assert("gregorian"@[0] == 'g' && "buddhist"@[0] == 'b' && "chinese"@[0] == 'c'
            && "japanese"@[0] == 'j' && "hebrew"@[0] == 'h' && "dangi"@[0] == 'd');
    }
}

/// How dates are written. The time zone and the locale are kept by their
/// names.
#[derive(Clone, Debug)]
pub struct DateLocaleConfig {
    pub timezone: String,
    pub locale: String,
    pub hour_cycle: HourCycle,
    pub calendar_algorithm: CalendarAlgorithm,
}

impl DateLocaleConfig {
    /// The settings that `stored` names. `timezone_failure` and
    /// `locale_failure` say why the time zone and the locale are not known, if
    /// they are not. What is wrong first, in the order time zone, locale, hour
    /// cycle, calendar, is what is refused.
    pub fn new(
        stored: DateLocaleConfigInterchange,
        timezone_failure: Option<String>,
        locale_failure: Option<String>,
    ) -> (config: DenimResult<Self>)
        ensures
            match (timezone_failure, locale_failure) {
                (Some(source), _) => config == Err::<Self, DenimError>(
                    DenimError::InvalidTimezone { source, tz: stored.tz },
                ),
                (None, Some(source)) => config == Err::<Self, DenimError>(
                    DenimError::InvalidLocale { source, provided: stored.locale },
                ),
                (None, None) => match (
                    HourCycle::named(stored.hour_cycle@),
                    CalendarAlgorithm::named(stored.calendar_algorithm@),
                ) {
                    (None, _) => config == Err::<Self, DenimError>(
                        DenimError::InvalidHourCycle { provided: stored.hour_cycle },
                    ),
                    (Some(_), None) => config == Err::<Self, DenimError>(
                        DenimError::InvalidCalendarAlgorithm { provided: stored.calendar_algorithm },
                    ),
                    (Some(hour_cycle), Some(calendar_algorithm)) => config == Ok::<
                        Self,
                        DenimError,
                    >(
                        DateLocaleConfig {
                            timezone: stored.tz,
                            locale: stored.locale,
                            hour_cycle,
                            calendar_algorithm,
                        },
                    ),
                },
            },
    {
        if let Some(source) = timezone_failure {
            return Err(DenimError::InvalidTimezone { source, tz: stored.tz });
        }
        if let Some(source) = locale_failure {
            return Err(DenimError::InvalidLocale { source, provided: stored.locale });
        }
        let hour_cycle = match HourCycle::parse(stored.hour_cycle) {
            Ok(cycle) => cycle,
            Err(e) => {
                return Err(e);
            },
        };
        let calendar_algorithm = match CalendarAlgorithm::parse(stored.calendar_algorithm) {
            Ok(calendar) => calendar,
            Err(e) => {
                return Err(e);
            },
        };
        Ok(
            DateLocaleConfig {
                timezone: stored.tz,
                locale: stored.locale,
                hour_cycle,
                calendar_algorithm,
            },
        )
    }

    /// These settings as they are stored.
    pub fn interchange(&self) -> (stored: DateLocaleConfigInterchange)
        ensures
            stored.tz@ == self.timezone@,
            stored.locale@ == self.locale@,
            stored.hour_cycle@ == self.hour_cycle.spec_name(),
            stored.calendar_algorithm@ == self.calendar_algorithm.spec_name(),
    {
        DateLocaleConfigInterchange {
            tz: self.timezone.clone(),
            locale: self.locale.clone(),
            hour_cycle: String::from_str(self.hour_cycle.name()),
            calendar_algorithm: String::from_str(self.calendar_algorithm.name()),
        }
    }
}

} // verus!
