//! The forecast sampler: one representative entry per day out of a series
//! with several points per day.
//!
//! The series is trusted to be evenly spaced. Every eighth point is taken,
//! beginning with the first, so a series in three-hour steps gives one entry
//! per twenty-four hours.

use vstd::prelude::*;
use crate::error::DashboardError;
use crate::forecast::{DayForecast, ForecastEntry, ForecastSet, RawForecastPoint, RawPoint, MAX_DAYS, point_views};

verus! {

/// Distance, in points, between two sampled points.
pub const STRIDE: usize = 8;

/// How many entries are sampled from `available` points when `target` are
/// wanted: one for every full stride, and never more than wanted.
pub open spec fn sample_count(available: nat, target: nat) -> nat {
    if target <= available / (STRIDE as nat) {
        target
    } else {
        available / (STRIDE as nat)
    }
}

/// Position in the series of the point that entry number `k` is made from.
pub open spec fn sampled_index(k: int) -> int {
    k * STRIDE
}

/// The entry made from `point` for `city`. A missing temperature or
/// precipitation counts as zero. The point must carry an icon code.
pub open spec fn entry_of(city: Seq<char>, point: RawPoint) -> DayForecast
    recommends
        point.icon is Some,
{
    DayForecast {
        city,
        temperature: match point.temperature {
            Some(t) => t,
            None => 0,
        },
        icon: match point.icon {
            Some(code) => code,
            None => Seq::empty(),
        },
        rain_risk: match point.precipitation {
            Some(p) => p,
            None => 0,
        },
    }
}

/// Each of the first `count` sampled points carries an icon code.
pub open spec fn icons_present(points: Seq<RawPoint>, count: nat) -> bool {
    forall|k: int| 0 <= k < count ==> (#[trigger] points[sampled_index(k)]).icon is Some
}

/// The entries made from the first `count` sampled points, in series order.
pub open spec fn sampled_entries(city: Seq<char>, points: Seq<RawPoint>, count: nat) -> Seq<
    DayForecast,
> {
    Seq::new(count, |k: int| entry_of(city, points[sampled_index(k)]))
}

/// Every sampled position lies inside the series.
pub proof fn lemma_sampled_index_in_range(available: nat, target: nat, k: int)
    requires
        0 <= k < sample_count(available, target),
    ensures
        0 <= sampled_index(k) < available,
        sampled_index(k) % (STRIDE as int) == 0,
{
}

/// From a series of any length the sampler makes as many entries as are
/// wanted or as the series has full strides, whichever is less. Entry `k`
/// is made from the point at position `8 * k` and from no other, so the
/// entries stand in the order of the series.
pub proof fn lemma_sampling_takes_every_eighth(
    city: Seq<char>,
    points: Seq<RawPoint>,
    target: nat,
    j: int,
    k: int,
)
    requires
        0 <= j <= k < sample_count(points.len(), target),
    ensures
        sample_count(points.len(), target) <= target,
        sample_count(points.len(), target) <= points.len() / 8,
        sample_count(points.len(), target) == target || sample_count(points.len(), target)
            == points.len() / 8,
        sampled_entries(city, points, sample_count(points.len(), target)).len() == sample_count(
            points.len(),
            target,
        ),
        sampled_index(k) == 8 * k,
        sampled_index(k) < points.len(),
        sampled_entries(city, points, sample_count(points.len(), target))[k] == entry_of(
            city,
            points[8 * k],
        ),
        j < k ==> sampled_index(j) < sampled_index(k),
{
}

/// A point without a precipitation amount gives an entry with no rain, a
/// point without a temperature gives an entry of zero degrees, and what the
/// point does carry is taken over unchanged, as is the city.
pub proof fn lemma_missing_fields_default_to_zero(city: Seq<char>, point: RawPoint)
    ensures
        point.precipitation is None ==> entry_of(city, point).rain_risk == 0,
        point.temperature is None ==> entry_of(city, point).temperature == 0,
        point.precipitation is Some ==> entry_of(city, point).rain_risk
            == point.precipitation->Some_0,
        point.temperature is Some ==> entry_of(city, point).temperature
            == point.temperature->Some_0,
        point.icon is Some ==> entry_of(city, point).icon == point.icon->Some_0,
        entry_of(city, point).city == city,
{
}

/// The icon codes are incomplete exactly if some sampled point has none.
/// Points between the sampled ones are never looked at.
pub proof fn lemma_missing_icon(points: Seq<RawPoint>, count: nat)
    ensures
        !icons_present(points, count) <==> exists|k: int|
            0 <= k < count && (#[trigger] points[sampled_index(k)]).icon is None,
{
}

/// Samples up to `target` daily entries for `city` from `points`.
///
/// Entry number `k` is made from point number `8 * k`; a point is used only
/// if a full stride of points begins with it. If one of the points used has
/// no icon code the whole sampling fails and no set is made.
pub fn sample(city: &str, points: &Vec<RawForecastPoint>, target: usize) -> (result: Result<
    ForecastSet,
    DashboardError,
>)
    requires
        target <= MAX_DAYS,
    ensures
        ({
            let series = point_views(points@);
            let count = sample_count(points@.len(), target as nat);
            match result {
                Ok(set) => {
                    &&& icons_present(series, count)
                    &&& set.wf()
                    &&& set@ == sampled_entries(city@, series, count)
                },
                Err(error) => {
                    &&& !icons_present(series, count)
                    &&& error == DashboardError::MissingIconError
                },
            }
        }),
{
    let full_strides: usize = points.len() / STRIDE;
    let count: usize = if target <= full_strides {
        target
    } else {
        full_strides
    };
    let ghost series = point_views(points@);
    let mut entries: Vec<ForecastEntry> = Vec::new();
    let mut k: usize = 0;
    while k < count
        invariant
            k <= count,
            count <= MAX_DAYS,
            count == sample_count(points@.len(), target as nat),
            series == point_views(points@),
            entries@.len() == k,
            forall|j: int| 0 <= j < k ==> (#[trigger] series[sampled_index(j)]).icon is Some,
            forall|j: int|
                0 <= j < k ==> (#[trigger] entries@[j])@ == entry_of(
                    city@,
                    series[sampled_index(j)],
                ),
        decreases count - k,
    {
        proof {
            lemma_sampled_index_in_range(points@.len(), target as nat, k as int);
        }
        let point: &RawForecastPoint = &points[k * STRIDE];
        assert(point@ == series[sampled_index(k as int)]);
        let icon: String = match &point.icon {
            Some(code) => code.clone(),
            None => {
                return Err(DashboardError::MissingIconError);
            },
        };
        let temperature: i32 = match point.temperature {
            Some(t) => t,
            None => 0,
        };
        let rain_risk: u32 = match point.precipitation {
            Some(p) => p,
            None => 0,
        };
        entries.push(ForecastEntry { city: city.to_owned(), temperature, icon, rain_risk });
        k = k + 1;
    }
    Ok(ForecastSet::from_entries(entries))
}

/// Samples the default number of daily entries, [`MAX_DAYS`], for `city`.
pub fn sample_daily(city: &str, points: &Vec<RawForecastPoint>) -> (result: Result<
    ForecastSet,
    DashboardError,
>)
    ensures
        ({
            let series = point_views(points@);
            let count = sample_count(points@.len(), MAX_DAYS as nat);
            match result {
                Ok(set) => {
                    &&& icons_present(series, count)
                    &&& set.wf()
                    &&& set@ == sampled_entries(city@, series, count)
                },
                Err(error) => {
                    &&& !icons_present(series, count)
                    &&& error == DashboardError::MissingIconError
                },
            }
        }),
{
    sample(city, points, MAX_DAYS)
}

} // verus!
