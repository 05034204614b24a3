//! Time of day, seasons, weather, the calendar and the clock.
use vstd::prelude::*;
use crate::draw::Describe;
use crate::rng;
use crate::text::{decimal, text, to_decimal};

verus! {

/// The fuzzy time of day.
#[derive(Debug, Copy, Clone, PartialEq, Eq, Structural)]
pub enum Time {
    Night2,
    Morning,
    Noon,
    Afternoon,
    Night1,
    Midnight,
}

/// What `Time::from_clock_time` gives for an hour of the clock.
pub open spec fn time_of_hour(hours: usize) -> Time {
    if hours == 0 {
        Time::Midnight
    } else if hours <= 7 {
        Time::Night2
    } else if hours < 12 {
        Time::Morning
    } else {
        Time::Night1
    }
}

impl Time {
    /// The time of day for the hour on the clock. Noon and afternoon are
    /// never produced: every hour from twelve on counts as `Night1`.
    pub fn from_clock_time(clock: &Clock) -> (r: Self)
        ensures
            r == time_of_hour(clock.time.0),
    {
        let hours = clock.time.0;
        if hours == 0 {
            Time::Midnight
        } else if hours > 0 && hours <= 7 {
            Time::Night2
        } else if hours < 12 {
            Time::Morning
        } else if hours <= 1 {
            Time::Noon
        } else if hours <= 6 {
            Time::Afternoon
        } else {
            Time::Night1
        }
    }
}

#[derive(Debug, Copy, Clone, PartialEq, Eq, Structural)]
pub enum Season {
    Autumn,
    Winter,
    Spring,
    Summer,
}

/// The season of a month number.
pub open spec fn season_of_month(month: usize) -> Season {
    if 3 <= month <= 5 {
        Season::Spring
    } else if 6 <= month <= 8 {
        Season::Summer
    } else if 9 <= month <= 11 {
        Season::Autumn
    } else {
        Season::Winter
    }
}

impl Season {
    pub fn from_month(month: usize) -> (r: Self)
        ensures
            r == season_of_month(month),
    {
        if 3 <= month && month <= 5 {
            Season::Spring
        } else if 6 <= month && month <= 8 {
            Season::Summer
        } else if 9 <= month && month <= 11 {
            Season::Autumn
        } else {
            Season::Winter
        }
    }
}

#[derive(Debug, Copy, Clone, PartialEq, Eq, Structural)]
pub enum Weather {
    Raining,
    Snowing,
    Sunny,
    Overcast,
}

/// The weathers from which a season draws.
pub open spec fn weather_fits(season: Season, w: Weather) -> bool {
    match season {
        Season::Autumn => w == Weather::Sunny || w == Weather::Overcast,
        Season::Winter => w == Weather::Snowing || w == Weather::Overcast,
        Season::Spring => w == Weather::Sunny || w == Weather::Raining,
        Season::Summer => w == Weather::Sunny || w == Weather::Raining,
    }
}

impl Weather {
    /// Draws a weather at random among those of the season (summer draws
    /// rain twice as often as sun).
    pub fn from_season_time(season: Season, _hours: usize) -> (r: Weather)
        ensures
            weather_fits(season, r),
    {
        let options = match season {
            Season::Autumn => vec![Weather::Sunny, Weather::Overcast],
            Season::Winter => vec![Weather::Snowing, Weather::Overcast],
            Season::Spring => vec![Weather::Sunny, Weather::Raining],
            Season::Summer => vec![Weather::Sunny, Weather::Raining, Weather::Raining],
        };
        let picked = rng::pick(options.as_slice());
        match picked {
            Some(w) => w,
            None => {
                assert(options@.len() > 0);
                options[0]
            },
        }
    }
}

#[derive(Debug, Copy, Clone, PartialEq, Eq)]
pub struct Calendar {
    pub dmy: (usize, usize, usize),
    pub season: Season,
    pub weather: Weather,
}

impl Calendar {
    pub fn new(d: usize, m: usize, y: usize, clock: &Clock) -> (r: Self)
        ensures
            r.dmy == (d, m, y),
            r.season == season_of_month(m),
            weather_fits(r.season, r.weather),
    {
        Calendar {
            dmy: (d, m, y),
            season: Season::from_month(m),
            weather: Weather::from_season_time(Season::from_month(m), clock.time.0),
        }
    }

    /// Sets the date from a count of days: day of month `days % 30`, month
    /// `days / 30`, year `days / 356`.
    pub fn update_to_day(&mut self, days: usize, clock: &Clock)
        ensures
            final(self).dmy == (days % 30, days / 30, days / 356),
            final(self).season == season_of_month(days / 30),
            weather_fits(final(self).season, final(self).weather),
    {
        self.dmy = (days % 30, days / 30, days / 356);
        self.season = Season::from_month(self.dmy.1);
        self.weather = Weather::from_season_time(Season::from_month(self.dmy.1), clock.time.0);
    }
}

pub struct Clock {
    pub time: (usize, usize),
}

impl Clock {
    /// Adds `dt` minutes. When the minutes reach an hour, the hour goes up
    /// by one and the minutes restart at zero (the excess is dropped).
    pub fn update_deltatime(&mut self, dt: usize)
        requires
            old(self).time.1 + dt <= usize::MAX,
            old(self).time.1 + dt >= 60 ==> old(self).time.0 < usize::MAX,
        ensures
            old(self).time.1 + dt >= 60 ==> final(self).time == (
                (old(self).time.0 + 1) as usize,
                0usize,
            ),
            old(self).time.1 + dt < 60 ==> final(self).time == (
                old(self).time.0,
                (old(self).time.1 + dt) as usize,
            ),
    {
        let mins = self.time.1 + dt;
        if mins >= 60 {
            self.time = (self.time.0 + 1, 0);
        } else {
            self.time = (self.time.0, mins);
        }
    }
}

/// Seconds since the Unix epoch, from `SystemTime::now()` and
/// `duration_since(UNIX_EPOCH)`, or `None` when the system clock reads
/// earlier than 1970, which `duration_since` reports as an error. Nothing
/// is promised of the value read.
#[verifier::external_body]
pub fn get_world_time() -> Option<usize> {
    match std::time::SystemTime::now().duration_since(std::time::UNIX_EPOCH) {
        Ok(d) => Some(d.as_secs() as usize),
        Err(_) => None,
    }
}

pub open spec fn time_words(t: Time) -> Seq<char> {
    match t {
        Time::Night2 => "late night"@,
        Time::Morning => "morning"@,
        Time::Noon => "noon"@,
        Time::Afternoon => "afternoon"@,
        Time::Night1 => "afternoon or early night"@,
        Time::Midnight => "midnight"@,
    }
}

impl Describe for Time {
    open spec fn describable(&self) -> bool {
        true
    }

    fn describe(&self) -> (s: String)
        ensures
            s@ == time_words(*self),
    {
        match self {
            Time::Night2 => text("late night"),
            Time::Morning => text("morning"),
            Time::Noon => text("noon"),
            Time::Afternoon => text("afternoon"),
            Time::Night1 => text("afternoon or early night"),
            Time::Midnight => text("midnight"),
        }
    }
}

pub open spec fn season_ident(s: Season) -> Seq<char> {
    match s {
        Season::Autumn => "Autumn"@,
        Season::Winter => "Winter"@,
        Season::Spring => "Spring"@,
        Season::Summer => "Summer"@,
    }
}

/// A date written as `Season, day/month/year`.
pub open spec fn calendar_words(c: Calendar) -> Seq<char> {
    season_ident(c.season) + ", "@ + decimal(c.dmy.0 as nat) + "/"@ + decimal(c.dmy.1 as nat) + "/"@
        + decimal(c.dmy.2 as nat)
}

impl Describe for Calendar {
    open spec fn describable(&self) -> bool {
        true
    }

    fn describe(&self) -> (s: String)
        ensures
            s@ == calendar_words(*self),
    {
        let mut s = text(
            match self.season {
                Season::Autumn => "Autumn",
                Season::Winter => "Winter",
                Season::Spring => "Spring",
                Season::Summer => "Summer",
            },
        );
        s.append(", ");
        let d = to_decimal(self.dmy.0);
        s.append(d.as_str());
        s.append("/");
        let m = to_decimal(self.dmy.1);
        s.append(m.as_str());
        s.append("/");
        let y = to_decimal(self.dmy.2);
        s.append(y.as_str());
        s
    }
}

/// A time written as `hours:minutes`.
pub open spec fn clock_words(c: &Clock) -> Seq<char> {
    decimal(c.time.0 as nat) + ":"@ + decimal(c.time.1 as nat)
}

impl Describe for Clock {
    open spec fn describable(&self) -> bool {
        true
    }

    fn describe(&self) -> (s: String)
        ensures
            s@ == clock_words(self),
    {
        let mut s = to_decimal(self.time.0);
        s.append(":");
        let m = to_decimal(self.time.1);
        s.append(m.as_str());
        s
    }
}


/// The weather as `{:?}` writes it.
pub open spec fn weather_ident(w: Weather) -> Seq<char> {
    match w {
        Weather::Raining => "Raining"@,
        Weather::Snowing => "Snowing"@,
        Weather::Sunny => "Sunny"@,
        Weather::Overcast => "Overcast"@,
    }
}

impl Weather {
    /// The weather as `{:?}` writes it.
    pub fn ident(&self) -> (s: String)
        ensures
            s@ == weather_ident(*self),
    {
        match self {
            Weather::Raining => text("Raining"),
            Weather::Snowing => text("Snowing"),
            Weather::Sunny => text("Sunny"),
            Weather::Overcast => text("Overcast"),
        }
    }
}

} // verus!
