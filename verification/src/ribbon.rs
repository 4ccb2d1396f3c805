//! The top ribbon: its modal state, the live clock's formats and zone,
//! and the hotkey table of its menu.

use chrono::DateTime;
use chrono::FixedOffset;
use chrono_tz::Tz;
use vstd::prelude::*;

verus! {

#[verifier::external_type_specification]
#[verifier::external_body]
pub struct ExTz(Tz);

/// Which of the ribbon's modals are open.
pub struct RibbonState {
    pub show_about_modal: bool,
    pub show_grafica_modal: bool,
}

impl Default for RibbonState {
    fn default() -> (r: Self)
        ensures
            !r.show_about_modal,
            !r.show_grafica_modal,
    {
        RibbonState { show_about_modal: false, show_grafica_modal: false }
    }
}

/// What the user did on the ribbon.
#[derive(Clone, Copy, PartialEq, Eq, Structural, Debug)]
pub enum RibbonEvent {
    /// The version chip was clicked.
    AboutChipClicked,
    /// The canvas crate's chip was clicked.
    GraficaChipClicked,
    /// The About modal's Close button was clicked.
    AboutClosed,
    /// The canvas crate modal's Close button was clicked.
    GraficaClosed,
}

/// The ribbon after a click: a chip opens its modal, a Close button
/// closes its own; the other modal is left as it was.
pub open spec fn ribbon_after(s: RibbonState, event: RibbonEvent) -> RibbonState {
    match event {
        RibbonEvent::AboutChipClicked => RibbonState { show_about_modal: true, ..s },
        RibbonEvent::GraficaChipClicked => RibbonState { show_grafica_modal: true, ..s },
        RibbonEvent::AboutClosed => RibbonState { show_about_modal: false, ..s },
        RibbonEvent::GraficaClosed => RibbonState { show_grafica_modal: false, ..s },
    }
}

impl RibbonState {
    /// Applies a click on the ribbon or one of its modals.
    pub fn apply(&mut self, event: RibbonEvent)
        ensures
            *final(self) == ribbon_after(*old(self), event),
    {
        match event {
            RibbonEvent::AboutChipClicked => self.show_about_modal = true,
            RibbonEvent::GraficaChipClicked => self.show_grafica_modal = true,
            RibbonEvent::AboutClosed => self.show_about_modal = false,
            RibbonEvent::GraficaClosed => self.show_grafica_modal = false,
        }
    }
}

/// The timezone that a name denotes in the tz database that chrono-tz
/// was built with, if any.
pub uninterp spec fn parsed_timezone(name: Seq<char>) -> Option<Tz>;

/// Looks `name` up with `<chrono_tz::Tz as FromStr>::from_str`.
///
/// Trusted: the result is the database's timezone of that exact name,
/// or `None` (chrono-tz's `ParseError`) when there is none; which names
/// the database holds is left unsaid.
#[verifier::external_body]
fn parse_timezone(name: &str) -> (tz: Option<Tz>)
    ensures
        tz == parsed_timezone(name@),
{
    name.parse::<Tz>().ok()
}

pub open spec fn clock_zone_of(user_timezone: Option<String>) -> Option<Tz> {
    match user_timezone {
        Some(name) => parsed_timezone(name@),
        None => None,
    }
}

/// The zone the ribbon clock shows: the user's timezone where its name
/// parses; `None`, the system's local time, where no name is set or it
/// does not parse.
pub fn clock_zone(user_timezone: &Option<String>) -> (zone: Option<Tz>)
    ensures
        zone == clock_zone_of(*user_timezone),
{
    match user_timezone {
        Some(name) => parse_timezone(name.as_str()),
        None => None,
    }
}

/// The clock's date format.
pub const CLOCK_DATE_FORMAT: &'static str = "%Y-%m-%d";

pub open spec fn clock_time_format_of(use_24_hour_clock: bool) -> Seq<char> {
    if use_24_hour_clock {
        "%H:%M:%S"@
    } else {
        "%I:%M:%S %p"@
    }
}

/// The clock's time format: 24-hour, or 12-hour with AM/PM.
pub fn clock_time_format(use_24_hour_clock: bool) -> (fmt: &'static str)
    ensures
        fmt@ == clock_time_format_of(use_24_hour_clock),
{
    if use_24_hour_clock {
        "%H:%M:%S"
    } else {
        "%I:%M:%S %p"
    }
}

/// The clock's text from its formatted date and time.
pub fn clock_text(date: &str, time: &str) -> (text: String)
    ensures
        text@ == date@ + " 🕐 "@ + time@,
{
    String::from_str(date).concat(" 🕐 ").concat(time)
}

/// The formats the clock renders with.
pub open spec fn is_clock_format(fmt: Seq<char>) -> bool {
    ||| fmt == CLOCK_DATE_FORMAT@
    ||| fmt == clock_time_format_of(true)
    ||| fmt == clock_time_format_of(false)
}

pub open spec fn opt_string_view(o: Option<String>) -> Option<Seq<char>> {
    match o {
        Some(s) => Some(s@),
        None => None,
    }
}

/// The instants chrono can represent: `DateTime::from_timestamp` gives
/// `Some` exactly for these (from -262143-01-01T00:00:00 to
/// +262142-12-31T23:59:59 UTC; nanoseconds past one second only on a
/// leap second, at a minute's 59th second).
pub open spec fn in_chrono_range(secs: i64, nanos: u32) -> bool {
    &&& -8_334_601_228_800 <= secs <= 8_210_266_876_799
    &&& nanos < 2_000_000_000
    &&& (nanos >= 1_000_000_000 ==> secs % 60 == 59)
}

/// The UTC offsets, in seconds, that chrono's `FixedOffset` accepts.
pub open spec fn valid_utc_offset(offset_secs: i32) -> bool {
    -86_400 < offset_secs < 86_400
}

/// The text of the instant `secs` seconds and `nanos` nanoseconds after
/// the Unix epoch, in the zone `tz`, formatted with `fmt`; `None` where
/// chrono cannot represent the instant.
pub uninterp spec fn rendered_in_zone(secs: i64, nanos: u32, tz: Tz, fmt: Seq<char>) -> Option<
    Seq<char>,
>;

/// Formats an instant in a tz-database zone with chrono:
/// `DateTime::from_timestamp`, then `with_timezone(&tz)`, then
/// `format(fmt)` written out.
///
/// Trusted: the text depends on the instant, the zone and the format
/// alone, and there is one exactly where `from_timestamp` gives `Some`.
/// The text itself is left unsaid. Only the clock's formats are
/// accepted, which chrono renders without error.
#[verifier::external_body]
fn format_in_zone(secs: i64, nanos: u32, tz: Tz, fmt: &str) -> (text: Option<String>)
    requires
        is_clock_format(fmt@),
    ensures
        opt_string_view(text) == rendered_in_zone(secs, nanos, tz, fmt@),
        text is Some <==> in_chrono_range(secs, nanos),
{
    match DateTime::from_timestamp(secs, nanos) {
        Some(utc) => Some(utc.with_timezone(&tz).format(fmt).to_string()),
        None => None,
    }
}

/// The text of the instant `secs` seconds and `nanos` nanoseconds after
/// the Unix epoch, at the fixed UTC offset `offset_secs`, formatted with
/// `fmt`; `None` where chrono cannot represent the instant or the offset.
pub uninterp spec fn rendered_at_offset(secs: i64, nanos: u32, offset_secs: i32, fmt: Seq<char>) -> Option<
    Seq<char>,
>;

/// Formats an instant at a fixed UTC offset with chrono:
/// `DateTime::from_timestamp` and `FixedOffset::east_opt`, then
/// `with_timezone`, then `format(fmt)` written out.
///
/// Trusted: the text depends on the instant, the offset and the format
/// alone, and there is one exactly where `from_timestamp` and `east_opt`
/// both give `Some`. The text itself is left unsaid. Only the clock's
/// formats are accepted, which chrono renders without error.
#[verifier::external_body]
fn format_at_offset(secs: i64, nanos: u32, offset_secs: i32, fmt: &str) -> (text: Option<String>)
    requires
        is_clock_format(fmt@),
    ensures
        opt_string_view(text) == rendered_at_offset(secs, nanos, offset_secs, fmt@),
        text is Some <==> (in_chrono_range(secs, nanos) && valid_utc_offset(offset_secs)),
{
    match (DateTime::from_timestamp(secs, nanos), FixedOffset::east_opt(offset_secs)) {
        (Some(utc), Some(offset)) => Some(utc.with_timezone(&offset).format(fmt).to_string()),
        _ => None,
    }
}

pub open spec fn clock_text_of(date: Option<Seq<char>>, time: Option<Seq<char>>) -> Option<
    Seq<char>,
> {
    match (date, time) {
        (Some(d), Some(t)) => Some(d + " 🕐 "@ + t),
        _ => None,
    }
}

/// The ribbon clock's text for an instant, as the clock shows it.
pub open spec fn rendered_clock(
    use_24_hour_clock: bool,
    user_timezone: Option<String>,
    secs: i64,
    nanos: u32,
    local_offset_secs: i32,
) -> Option<Seq<char>> {
    let time_fmt = clock_time_format_of(use_24_hour_clock);
    match clock_zone_of(user_timezone) {
        Some(tz) => clock_text_of(
            rendered_in_zone(secs, nanos, tz, CLOCK_DATE_FORMAT@),
            rendered_in_zone(secs, nanos, tz, time_fmt),
        ),
        None => clock_text_of(
            rendered_at_offset(secs, nanos, local_offset_secs, CLOCK_DATE_FORMAT@),
            rendered_at_offset(secs, nanos, local_offset_secs, time_fmt),
        ),
    }
}

/// The ribbon clock's text for the instant `secs` seconds and `nanos`
/// nanoseconds after the Unix epoch: the date, the clock glyph and the
/// time in the chosen 12- or 24-hour format. It is rendered in the
/// user's timezone where its name parses, else at the system's local
/// UTC offset at that instant, `local_offset_secs`. There is a text
/// exactly where chrono can represent the instant (and, for local time,
/// the offset).
pub fn render_clock(
    use_24_hour_clock: bool,
    user_timezone: &Option<String>,
    secs: i64,
    nanos: u32,
    local_offset_secs: i32,
) -> (text: Option<String>)
    ensures
        opt_string_view(text) == rendered_clock(
            use_24_hour_clock,
            *user_timezone,
            secs,
            nanos,
            local_offset_secs,
        ),
        text is Some <==> in_chrono_range(secs, nanos) && (clock_zone_of(*user_timezone) is None
            ==> valid_utc_offset(local_offset_secs)),
{
    let time_fmt = clock_time_format(use_24_hour_clock);
    let (date, time) = match clock_zone(user_timezone) {
        Some(tz) => (
            format_in_zone(secs, nanos, tz, CLOCK_DATE_FORMAT),
            format_in_zone(secs, nanos, tz, time_fmt),
        ),
        None => (
            format_at_offset(secs, nanos, local_offset_secs, CLOCK_DATE_FORMAT),
            format_at_offset(secs, nanos, local_offset_secs, time_fmt),
        ),
    };
    match (date, time) {
        (Some(d), Some(t)) => Some(clock_text(d.as_str(), t.as_str())),
        _ => None,
    }
}

pub open spec fn hotkeys_of() -> Seq<(Seq<char>, Seq<char>)> {
    seq![
        ("G"@, "Toggle grid (cursor over canvas)"@),
        ("X"@, "Mirror about X axis"@),
        ("Y"@, "Mirror about Y axis"@),
        ("R"@, "Rotate 90° clockwise"@),
        ("Del"@, "Delete selection"@),
        ("Esc"@, "Disarm active shape tool"@),
        ("Middle-drag"@, "Pan the canvas viewport"@),
        ("Wheel"@, "Zoom (cursor over canvas)"@),
    ]
}

/// The keyboard shortcuts listed in the ribbon's Hotkeys menu: key and
/// description, in menu order.
pub fn hotkey_bindings() -> (keys: Vec<(&'static str, &'static str)>)
    ensures
        keys@.map_values(|p: (&'static str, &'static str)| (p.0@, p.1@)) == hotkeys_of(),
{
    let mut keys: Vec<(&'static str, &'static str)> = Vec::new();
    keys.push(("G", "Toggle grid (cursor over canvas)"));
    keys.push(("X", "Mirror about X axis"));
    keys.push(("Y", "Mirror about Y axis"));
    keys.push(("R", "Rotate 90° clockwise"));
    keys.push(("Del", "Delete selection"));
    keys.push(("Esc", "Disarm active shape tool"));
    keys.push(("Middle-drag", "Pan the canvas viewport"));
    keys.push(("Wheel", "Zoom (cursor over canvas)"));
    assert(keys@.map_values(|p: (&'static str, &'static str)| (p.0@, p.1@)) =~= hotkeys_of());
    keys
}

/// A click on one modal's chip or Close button never changes the other
/// modal; opening a modal and then closing it leaves the ribbon as it
/// was, with that modal closed.
pub proof fn lemma_modals_independent(s: RibbonState, event: RibbonEvent)
    ensures
        (event == RibbonEvent::AboutChipClicked || event == RibbonEvent::AboutClosed)
            ==> ribbon_after(s, event).show_grafica_modal == s.show_grafica_modal,
        (event == RibbonEvent::GraficaChipClicked || event == RibbonEvent::GraficaClosed)
            ==> ribbon_after(s, event).show_about_modal == s.show_about_modal,
        ribbon_after(ribbon_after(s, RibbonEvent::AboutChipClicked), RibbonEvent::AboutClosed)
            == (RibbonState { show_about_modal: false, ..s }),
        ribbon_after(ribbon_after(s, RibbonEvent::GraficaChipClicked), RibbonEvent::GraficaClosed)
            == (RibbonState { show_grafica_modal: false, ..s }),
{
}

/// A click on a chip opens its modal and a Close button closes its
/// modal, whatever state the ribbon was in.
pub proof fn lemma_clicks_set_their_modal(s: RibbonState)
    ensures
        ribbon_after(s, RibbonEvent::AboutChipClicked).show_about_modal,
        ribbon_after(s, RibbonEvent::GraficaChipClicked).show_grafica_modal,
        !ribbon_after(s, RibbonEvent::AboutClosed).show_about_modal,
        !ribbon_after(s, RibbonEvent::GraficaClosed).show_grafica_modal,
{
}

/// Where the user's timezone name parses, the clock shows the instant's
/// date and its time, both in that zone: "%Y-%m-%d" and "%H:%M:%S" (or
/// "%I:%M:%S %p" for the 12-hour clock) rendered in the zone, joined by
/// the clock glyph. The local offset plays no part.
pub proof fn lemma_clock_in_user_zone(
    use_24_hour_clock: bool,
    name: String,
    tz: Tz,
    secs: i64,
    nanos: u32,
    local_offset_secs: i32,
)
    requires
        parsed_timezone(name@) == Some(tz),
    ensures
        rendered_clock(use_24_hour_clock, Some(name), secs, nanos, local_offset_secs) == match (
            rendered_in_zone(secs, nanos, tz, "%Y-%m-%d"@),
            rendered_in_zone(
                secs,
                nanos,
                tz,
                if use_24_hour_clock {
                    "%H:%M:%S"@
                } else {
                    "%I:%M:%S %p"@
                },
            ),
        ) {
            (Some(date), Some(time)) => Some(date + " 🕐 "@ + time),
            _ => None,
        },
{
}

/// Where no timezone is set, or its name does not parse, the clock shows
/// the instant's date and time both at the local UTC offset, in the
/// chosen 12- or 24-hour format, joined by the clock glyph.
pub proof fn lemma_clock_in_local_time(
    use_24_hour_clock: bool,
    user_timezone: Option<String>,
    secs: i64,
    nanos: u32,
    local_offset_secs: i32,
)
    requires
        user_timezone matches Some(name) ==> parsed_timezone(name@) is None,
    ensures
        rendered_clock(use_24_hour_clock, user_timezone, secs, nanos, local_offset_secs) == match (
            rendered_at_offset(secs, nanos, local_offset_secs, "%Y-%m-%d"@),
            rendered_at_offset(
                secs,
                nanos,
                local_offset_secs,
                if use_24_hour_clock {
                    "%H:%M:%S"@
                } else {
                    "%I:%M:%S %p"@
                },
            ),
        ) {
            (Some(date), Some(time)) => Some(date + " 🕐 "@ + time),
            _ => None,
        },
{
}

} // verus!
