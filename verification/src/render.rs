//! Frame composition: from the terminal's current size and the forecast to
//! the panels of one frame.
//!
//! A frame is composed from scratch each time. The city panel takes the
//! whole content area and is drawn first; the day panels are drawn over it,
//! each in its own fifth of that same area, so their borders may touch or
//! cover the city panel's border. That overlap belongs to the fixed layout
//! and is kept as it is.

use vstd::prelude::*;
use vstd::string::*;
use crate::forecast::{DayForecast, ForecastEntry, ForecastSet};
use crate::layout::{
    ScreenRegion, DAY_SLICES, content_area, content_area_of, day_slice, day_slice_of,
    lemma_content_area, lemma_day_slices_equal, slice_width,
};
use crate::text::{append_decimal, append_fixed1, append_tenths, decimal_digits, tenths_text};

verus! {

/// One bordered panel of a frame.
#[derive(Clone, Debug, PartialEq, Eq)]
pub struct Panel {
    /// Where the panel is drawn.
    pub region: ScreenRegion,
    /// Text set into the panel's top border; empty for a plain border.
    pub heading: String,
    /// Text inside the border; lines are separated by a line feed.
    pub body: String,
}

/// What a [`Panel`] holds, as mathematical values.
pub struct PanelView {
    pub region: ScreenRegion,
    pub heading: Seq<char>,
    pub body: Seq<char>,
}

impl View for Panel {
    type V = PanelView;

    open spec fn view(&self) -> PanelView {
        PanelView { region: self.region, heading: self.heading@, body: self.body@ }
    }
}

/// The views of a sequence of panels, in the same order.
pub open spec fn panel_views(panels: Seq<Panel>) -> Seq<PanelView> {
    Seq::new(panels.len(), |i: int| panels[i]@)
}

/// Heading of the day panel in slice `index`: days are counted from one.
pub open spec fn day_heading(index: int) -> Seq<char> {
    "Day "@ + decimal_digits((index + 1) as nat)
}

/// The three lines inside a day panel: temperature, rain and icon code.
pub open spec fn day_body(day: DayForecast) -> Seq<char> {
    "Temp: "@ + tenths_text(day.temperature) + "°C\nRain: "@ + tenths_text(day.rain_risk)
        + "mm\nIcon: "@ + day.icon
}

/// How many day panels a forecast of `available` entries gets.
pub open spec fn day_panel_count(available: nat) -> nat {
    if available <= DAY_SLICES {
        available
    } else {
        DAY_SLICES as nat
    }
}

/// The city panel: a plain border around the content area, the city's name
/// inside.
pub open spec fn city_panel_of(area: ScreenRegion, city: Seq<char>) -> PanelView {
    PanelView { region: content_area_of(area), heading: Seq::empty(), body: city }
}

/// The day panel in slice `index` of the content area.
pub open spec fn day_panel_of(area: ScreenRegion, index: int, day: DayForecast) -> PanelView {
    PanelView {
        region: day_slice_of(content_area_of(area), index),
        heading: day_heading(index),
        body: day_body(day),
    }
}

/// The panels of one frame in drawing order: the city panel, then one day
/// panel for each entry that has a slice.
pub open spec fn frame_of(area: ScreenRegion, city: Seq<char>, days: Seq<DayForecast>) -> Seq<
    PanelView,
> {
    Seq::new(
        1 + day_panel_count(days.len()),
        |i: int|
            if i == 0 {
                city_panel_of(area, city)
            } else {
                day_panel_of(area, i - 1, days[i - 1])
            },
    )
}

/// A frame holds the city panel and one day panel for each entry, five at
/// most. The city panel takes the content area. Day panel `i` takes slice
/// `i` of the five equal slices of the content area, which are the same
/// however many entries there are; a slice beyond the last entry has no
/// panel, and nothing fails for want of entries.
pub proof fn lemma_frame_panels(
    area: ScreenRegion,
    city: Seq<char>,
    days: Seq<DayForecast>,
    i: int,
)
    requires
        area.fits(),
        0 <= i < day_panel_count(days.len()),
    ensures
        day_panel_count(days.len()) <= DAY_SLICES,
        day_panel_count(days.len()) <= days.len(),
        day_panel_count(days.len()) == DAY_SLICES || day_panel_count(days.len()) == days.len(),
        frame_of(area, city, days).len() == 1 + day_panel_count(days.len()),
        frame_of(area, city, days)[0] == city_panel_of(area, city),
        frame_of(area, city, days)[0].region == content_area_of(area),
        frame_of(area, city, days)[0].body == city,
        frame_of(area, city, days)[i + 1].region == day_slice_of(content_area_of(area), i),
        frame_of(area, city, days)[i + 1].region.width == slice_width(
            content_area_of(area).width as int,
        ),
        frame_of(area, city, days)[i + 1].region.within(content_area_of(area)),
        frame_of(area, city, days)[i + 1].heading == day_heading(i),
        frame_of(area, city, days)[i + 1].body == day_body(days[i]),
{
    lemma_content_area(area);
    lemma_day_slices_equal(content_area_of(area), i, i);
}

/// The frame for a terminal of one size and the frame for a terminal of
/// another hold the same panels with the same text; every region is that of
/// the size the frame was composed for. Nothing of an earlier frame remains,
/// so a resized terminal needs no more than the next frame.
pub proof fn lemma_frame_follows_area(
    before: ScreenRegion,
    after: ScreenRegion,
    city: Seq<char>,
    days: Seq<DayForecast>,
    i: int,
)
    requires
        0 <= i < frame_of(after, city, days).len(),
    ensures
        frame_of(after, city, days).len() == frame_of(before, city, days).len(),
        frame_of(after, city, days)[i].heading == frame_of(before, city, days)[i].heading,
        frame_of(after, city, days)[i].body == frame_of(before, city, days)[i].body,
        frame_of(after, city, days)[i].region == if i == 0 {
            content_area_of(after)
        } else {
            day_slice_of(content_area_of(after), i - 1)
        },
{
}

/// The heading of the day panel in slice `index`.
pub fn day_heading_text(index: u16) -> (heading: String)
    ensures
        heading@ == day_heading(index as int),
{
    let mut heading: String = "Day ".to_owned();
    let number: u32 = index as u32 + 1;
    append_decimal(&mut heading, number);
    heading
}

/// The three lines inside the day panel of `entry`.
pub fn day_body_text(entry: &ForecastEntry) -> (body: String)
    ensures
        body@ == day_body(entry@),
{
    let mut body: String = "Temp: ".to_owned();
    append_tenths(&mut body, entry.temperature);
    body.append("°C\nRain: ");
    append_fixed1(&mut body, false, entry.rain_risk);
    body.append("mm\nIcon: ");
    body.append(entry.icon.as_str());
    body
}

/// Composes the frame for a terminal of size `area`: the city panel over the
/// whole content area, then a day panel in slice `i` for entry `i`, for as
/// many entries as there are slices. Slices without an entry get no panel.
///
/// The result depends on nothing but the arguments; a changed `area` moves
/// every panel accordingly.
pub fn render(area: ScreenRegion, city: &str, forecast: &ForecastSet) -> (panels: Vec<Panel>)
    requires
        area.fits(),
    ensures
        panel_views(panels@) == frame_of(area, city@, forecast@),
{
    let content: ScreenRegion = content_area(area);
    let mut panels: Vec<Panel> = Vec::new();
    panels.push(Panel { region: content, heading: String::new(), body: city.to_owned() });
    let mut index: u16 = 0;
    while index < DAY_SLICES
        invariant
            area.fits(),
            content.fits(),
            content == content_area_of(area),
            index <= DAY_SLICES,
            index <= forecast@.len(),
            panels@.len() == 1 + index,
            panels@[0]@ == city_panel_of(area, city@),
            forall|i: int|
                1 <= i <= index ==> (#[trigger] panels@[i])@ == day_panel_of(
                    area,
                    i - 1,
                    forecast@[i - 1],
                ),
        ensures
            index == day_panel_count(forecast@.len()),
        decreases DAY_SLICES - index,
    {
        let entry: &ForecastEntry = match forecast.get(index as usize) {
            Some(entry) => entry,
            None => {
                break ;
            },
        };
        let region: ScreenRegion = day_slice(content, index);
        let heading: String = day_heading_text(index);
        let body: String = day_body_text(entry);
        panels.push(Panel { region, heading, body });
        index = index + 1;
    }
    panels
}

} // verus!
