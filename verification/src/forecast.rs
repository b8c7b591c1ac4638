//! Forecast data: the raw points a provider delivers and the daily entries
//! the dashboard shows.
//!
//! Temperatures and precipitation amounts are held as whole tenths of their
//! unit, which is the precision the dashboard displays.

use vstd::prelude::*;

verus! {

/// The most entries a forecast set holds: one per day panel.
pub const MAX_DAYS: usize = 5;

/// One point of the provider's fine-grained forecast series.
#[derive(Clone, Debug, PartialEq, Eq)]
pub struct RawForecastPoint {
    /// Temperature in tenths of a degree Celsius, if the provider gave one.
    pub temperature: Option<i32>,
    /// The provider's icon code, if it gave one.
    pub icon: Option<String>,
    /// Precipitation in tenths of a millimetre, if the provider gave one.
    pub precipitation: Option<u32>,
}

/// What a [`RawForecastPoint`] holds, as mathematical values.
pub struct RawPoint {
    pub temperature: Option<int>,
    pub icon: Option<Seq<char>>,
    pub precipitation: Option<int>,
}

impl View for RawForecastPoint {
    type V = RawPoint;

    open spec fn view(&self) -> RawPoint {
        RawPoint {
            temperature: match self.temperature {
                Some(t) => Some(t as int),
                None => None,
            },
            icon: match self.icon {
                Some(code) => Some(code@),
                None => None,
            },
            precipitation: match self.precipitation {
                Some(p) => Some(p as int),
                None => None,
            },
        }
    }
}

/// One displayable day.
#[derive(Clone, Debug, PartialEq, Eq)]
pub struct ForecastEntry {
    /// Name of the place the forecast is for.
    pub city: String,
    /// Temperature in tenths of a degree Celsius.
    pub temperature: i32,
    /// The provider's icon code.
    pub icon: String,
    /// Precipitation in tenths of a millimetre.
    pub rain_risk: u32,
}

/// What a [`ForecastEntry`] holds, as mathematical values.
pub struct DayForecast {
    pub city: Seq<char>,
    pub temperature: int,
    pub icon: Seq<char>,
    pub rain_risk: int,
}

impl View for ForecastEntry {
    type V = DayForecast;

    open spec fn view(&self) -> DayForecast {
        DayForecast {
            city: self.city@,
            temperature: self.temperature as int,
            icon: self.icon@,
            rain_risk: self.rain_risk as int,
        }
    }
}

/// The views of a sequence of raw points, in the same order.
pub open spec fn point_views(points: Seq<RawForecastPoint>) -> Seq<RawPoint> {
    Seq::new(points.len(), |i: int| points[i]@)
}

/// The daily entries of one forecast, in chronological order. A set is made
/// once and never changed or reordered afterwards.
#[derive(Clone, Debug, PartialEq, Eq)]
pub struct ForecastSet {
    entries: Vec<ForecastEntry>,
}

impl View for ForecastSet {
    type V = Seq<DayForecast>;

    closed spec fn view(&self) -> Seq<DayForecast> {
        Seq::new(self.entries@.len(), |i: int| self.entries@[i]@)
    }
}

impl ForecastSet {
    /// A set holds at most [`MAX_DAYS`] entries.
    pub open spec fn wf(&self) -> bool {
        self@.len() <= MAX_DAYS
    }

    /// The set of `entries`, kept in their order.
    pub(crate) fn from_entries(entries: Vec<ForecastEntry>) -> (set: ForecastSet)
        requires
            entries@.len() <= MAX_DAYS,
        ensures
            set.wf(),
            set@.len() == entries@.len(),
            forall|i: int| 0 <= i < entries@.len() ==> #[trigger] set@[i] == entries@[i]@,
    {
        ForecastSet { entries }
    }

    /// Number of entries.
    pub fn len(&self) -> (n: usize)
        ensures
            n == self@.len(),
    {
        self.entries.len()
    }

    /// Whether the set holds no entry.
    pub fn is_empty(&self) -> (empty: bool)
        ensures
            empty == (self@.len() == 0),
    {
        self.entries.len() == 0
    }

    /// Entry number `index` in chronological order, if there is one.
    pub fn get(&self, index: usize) -> (entry: Option<&ForecastEntry>)
        ensures
            index < self@.len() ==> entry is Some && entry.unwrap()@ == self@[index as int],
            index >= self@.len() ==> entry is None,
    {
        if index < self.entries.len() {
            Some(&self.entries[index])
        } else {
            None
        }
    }
}

} // verus!
