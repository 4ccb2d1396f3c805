//! Application preferences that hold no floating-point value, their
//! labels, and the log lines that report a change of settings.
//!
//! The UI scale and the port marker size are floating-point and stay
//! with the application; what a change of them says in the log reaches
//! `change_log` as text, already formatted.

use vstd::prelude::*;

verus! {

/// Grid units of a new canvas.
#[derive(Clone, Copy, PartialEq, Eq, Structural, Debug)]
pub enum GridUnits {
    Pixels,
    Mils,
    Millimeters,
    Inches,
}

pub open spec fn grid_units_label_of(u: GridUnits) -> Seq<char> {
    match u {
        GridUnits::Pixels => "Pixels"@,
        GridUnits::Mils => "Mils"@,
        GridUnits::Millimeters => "Millimeters"@,
        GridUnits::Inches => "Inches"@,
    }
}

impl GridUnits {
    pub fn label(self) -> (l: &'static str)
        ensures
            l@ == grid_units_label_of(self),
    {
        match self {
            GridUnits::Pixels => "Pixels",
            GridUnits::Mils => "Mils",
            GridUnits::Millimeters => "Millimeters",
            GridUnits::Inches => "Inches",
        }
    }
}

/// The preferences of the settings panel that hold no float.
pub struct Preferences {
    /// IANA timezone name (e.g. "US/Eastern"); `None` means the system's
    /// local time.
    pub user_timezone: Option<String>,
    /// `true`: the ribbon clock shows 24-hour time; `false`: 12-hour.
    pub use_24_hour_clock: bool,
    /// Default directory for open and save dialogs; `None` means the
    /// platform default.
    pub default_directory: Option<DirectoryPath>,
    /// Preferred grid units for a new canvas.
    pub grid_units: GridUnits,
}

/// A directory path as the settings compare and show it.
pub struct DirectoryPath {
    /// The path's components in order, each as the bytes of its OS
    /// string: two paths are the same setting exactly when these agree,
    /// as paths compare by their components.
    pub components: Vec<Vec<u8>>,
    /// The path as displayed.
    pub display: String,
}

/// The identity of a directory setting: its components' bytes.
pub open spec fn directory_key(dir: Option<DirectoryPath>) -> Option<Seq<Seq<u8>>> {
    match dir {
        Some(d) => Some(d.components@.map_values(|c: Vec<u8>| c@)),
        None => None,
    }
}

pub open spec fn opt_view(o: Option<String>) -> Option<Seq<char>> {
    match o {
        Some(s) => Some(s@),
        None => None,
    }
}

impl Default for Preferences {
    fn default() -> (p: Self)
        ensures
            p.user_timezone is None,
            !p.use_24_hour_clock,
            p.default_directory is None,
            p.grid_units == GridUnits::Mils,
    {
        Preferences {
            user_timezone: None,
            use_24_hour_clock: false,
            default_directory: None,
            // Engineering tooling opens in mils, not pixels.
            grid_units: GridUnits::Mils,
        }
    }
}

pub open spec fn timezone_label_of(tz: Option<String>) -> Seq<char> {
    match tz {
        Some(name) => name@,
        None => "System local"@,
    }
}

/// The name under which a timezone choice is shown.
pub fn timezone_label(tz: &Option<String>) -> (l: &str)
    ensures
        l@ == timezone_label_of(*tz),
{
    match tz {
        Some(name) => name.as_str(),
        None => "System local",
    }
}

pub open spec fn common_timezones_of() -> Seq<Seq<char>> {
    seq![
        "UTC"@,
        "US/Eastern"@,
        "US/Central"@,
        "US/Mountain"@,
        "US/Pacific"@,
        "Europe/London"@,
        "Europe/Paris"@,
        "Europe/Berlin"@,
        "Asia/Tokyo"@,
        "Asia/Shanghai"@,
        "Australia/Sydney"@,
    ]
}

/// The timezones offered first in the timezone picker, in order.
pub fn common_timezones() -> (names: Vec<&'static str>)
    ensures
        names@.map_values(|n: &'static str| n@) == common_timezones_of(),
{
    let mut names: Vec<&'static str> = Vec::new();
    names.push("UTC");
    names.push("US/Eastern");
    names.push("US/Central");
    names.push("US/Mountain");
    names.push("US/Pacific");
    names.push("Europe/London");
    names.push("Europe/Paris");
    names.push("Europe/Berlin");
    names.push("Asia/Tokyo");
    names.push("Asia/Shanghai");
    names.push("Australia/Sydney");
    assert(names@.map_values(|n: &'static str| n@) =~= common_timezones_of());
    names
}

pub open spec fn clock_format_label_of(use_24_hour_clock: bool) -> Seq<char> {
    if use_24_hour_clock {
        "24-hour"@
    } else {
        "12-hour"@
    }
}

/// The name of a clock format.
pub fn clock_format_label(use_24_hour_clock: bool) -> (l: &'static str)
    ensures
        l@ == clock_format_label_of(use_24_hour_clock),
{
    if use_24_hour_clock {
        "24-hour"
    } else {
        "12-hour"
    }
}

pub open spec fn directory_label_of(dir: Option<DirectoryPath>) -> Seq<char> {
    match dir {
        Some(d) => d.display@,
        None => "(platform default)"@,
    }
}

/// The text under which a default directory is shown.
pub fn directory_label(dir: &Option<DirectoryPath>) -> (l: &str)
    ensures
        l@ == directory_label_of(*dir),
{
    match dir {
        Some(d) => d.display.as_str(),
        None => "(platform default)",
    }
}

/// Changes of the settings that the application compares itself: the
/// floating-point ones, and those whose types and labels belong to the
/// canvas crate. Each is `Some` only when that setting changed.
pub struct AppearanceChanges {
    /// UI scale before and after, each with two decimals, when they
    /// differ by more than 1e-3.
    pub ui_scale: Option<(String, String)>,
    /// Label of the new default canvas background, when it changed.
    pub default_background: Option<String>,
    /// New port marker size with one decimal, when it changed by more
    /// than 1e-3.
    pub port_marker_size: Option<String>,
    /// Label of the new port marker style, when it changed.
    pub port_marker_style: Option<String>,
}

impl AppearanceChanges {
    /// No appearance setting changed.
    pub open spec fn is_none(&self) -> bool {
        &&& self.ui_scale is None
        &&& self.default_background is None
        &&& self.port_marker_size is None
        &&& self.port_marker_style is None
    }
}

pub open spec fn when(changed: bool, msg: Seq<char>) -> Seq<Seq<char>> {
    if changed {
        seq![msg]
    } else {
        Seq::empty()
    }
}

pub open spec fn ui_scale_line(x: AppearanceChanges) -> Seq<Seq<char>> {
    match x.ui_scale {
        Some((b, a)) => seq!["UI scale: "@ + b@ + "× → "@ + a@ + "×"@],
        None => Seq::empty(),
    }
}

pub open spec fn timezone_line(b: Preferences, a: Preferences) -> Seq<Seq<char>> {
    when(
        opt_view(b.user_timezone) != opt_view(a.user_timezone),
        "Timezone → "@ + timezone_label_of(a.user_timezone),
    )
}

pub open spec fn clock_line(b: Preferences, a: Preferences) -> Seq<Seq<char>> {
    when(
        b.use_24_hour_clock != a.use_24_hour_clock,
        "Clock format → "@ + clock_format_label_of(a.use_24_hour_clock),
    )
}

pub open spec fn directory_line(b: Preferences, a: Preferences) -> Seq<Seq<char>> {
    when(
        directory_key(b.default_directory) != directory_key(a.default_directory),
        "Default directory → "@ + directory_label_of(a.default_directory),
    )
}

pub open spec fn grid_units_line(b: Preferences, a: Preferences) -> Seq<Seq<char>> {
    when(
        b.grid_units != a.grid_units,
        "Default grid units → "@ + grid_units_label_of(a.grid_units)
            + " (applies to new canvases on next startup)"@,
    )
}

pub open spec fn background_line(x: AppearanceChanges) -> Seq<Seq<char>> {
    match x.default_background {
        Some(l) => seq![
            "Default canvas background → "@ + l@ + " (applies to new canvases on next startup)"@,
        ],
        None => Seq::empty(),
    }
}

pub open spec fn marker_size_line(x: AppearanceChanges) -> Seq<Seq<char>> {
    match x.port_marker_size {
        Some(s) => seq!["Port marker size → "@ + s@ + " px"@],
        None => Seq::empty(),
    }
}

pub open spec fn marker_style_line(x: AppearanceChanges) -> Seq<Seq<char>> {
    match x.port_marker_style {
        Some(l) => seq!["Port marker style → "@ + l@],
        None => Seq::empty(),
    }
}

/// The log lines that report a change of settings from `b` to `a`, in
/// the panel's order: one per changed setting.
pub open spec fn change_messages(b: Preferences, a: Preferences, x: AppearanceChanges) -> Seq<
    Seq<char>,
> {
    ui_scale_line(x) + timezone_line(b, a) + clock_line(b, a) + directory_line(b, a)
        + grid_units_line(b, a) + background_line(x) + marker_size_line(x) + marker_style_line(x)
}

pub open spec fn strings_view(v: Seq<String>) -> Seq<Seq<char>> {
    v.map_values(|s: String| s@)
}

fn opt_str_eq(a: &Option<String>, b: &Option<String>) -> (eq: bool)
    ensures
        eq <==> opt_view(*a) == opt_view(*b),
{
    match (a, b) {
        (Some(x), Some(y)) => *x == *y,
        (None, None) => true,
        _ => false,
    }
}

fn bytes_eq(a: &Vec<u8>, b: &Vec<u8>) -> (eq: bool)
    ensures
        eq <==> a@ == b@,
{
    if a.len() != b.len() {
        return false;
    }
    let mut i: usize = 0;
    while i < a.len()
        invariant
            a.len() == b.len(),
            i <= a.len(),
            forall|k: int| 0 <= k < i ==> a@[k] == b@[k],
        decreases a.len() - i,
    {
        if a[i] != b[i] {
            return false;
        }
        i = i + 1;
    }
    assert(a@ =~= b@);
    true
}

fn same_directory(a: &Option<DirectoryPath>, b: &Option<DirectoryPath>) -> (eq: bool)
    ensures
        eq <==> directory_key(*a) == directory_key(*b),
{
    match (a, b) {
        (Some(x), Some(y)) => {
            let ghost kx = x.components@.map_values(|c: Vec<u8>| c@);
            let ghost ky = y.components@.map_values(|c: Vec<u8>| c@);
            if x.components.len() != y.components.len() {
                assert(kx.len() != ky.len());
                return false;
            }
            let mut i: usize = 0;
            while i < x.components.len()
                invariant
                    x.components.len() == y.components.len(),
                    kx == x.components@.map_values(|c: Vec<u8>| c@),
                    ky == y.components@.map_values(|c: Vec<u8>| c@),
                    directory_key(*a) == Some(kx),
                    directory_key(*b) == Some(ky),
                    i <= x.components.len(),
                    forall|k: int| 0 <= k < i ==> kx[k] == ky[k],
                decreases x.components.len() - i,
            {
                if !bytes_eq(&x.components[i], &y.components[i]) {
                    assert(kx[i as int] != ky[i as int]);
                    return false;
                }
                i = i + 1;
            }
            assert(kx =~= ky);
            true
        },
        (None, None) => true,
        _ => false,
    }
}

fn push_message(out: &mut Vec<String>, msg: String)
    ensures
        strings_view(final(out)@) == strings_view(old(out)@) + seq![msg@],
{
    out.push(msg);
    assert(strings_view(out@) =~= strings_view(old(out)@) + seq![msg@]);
}

/// The log lines that report the change of settings from `before` to
/// `after`.
pub fn change_log(before: &Preferences, after: &Preferences, appearance: &AppearanceChanges) -> (log:
    Vec<String>)
    ensures
        strings_view(log@) == change_messages(*before, *after, *appearance),
{
    let mut out: Vec<String> = Vec::new();
    assert(strings_view(out@) =~= Seq::<Seq<char>>::empty());
    match &appearance.ui_scale {
        Some((b, a)) => {
            let msg = String::from_str("UI scale: ").concat(b.as_str()).concat("× → ").concat(
                a.as_str(),
            ).concat("×");
            push_message(&mut out, msg);
        },
        None => {},
    }
    assert(strings_view(out@) =~= ui_scale_line(*appearance));
    if !opt_str_eq(&before.user_timezone, &after.user_timezone) {
        let msg = String::from_str("Timezone → ").concat(timezone_label(&after.user_timezone));
        push_message(&mut out, msg);
    }
    assert(strings_view(out@) =~= ui_scale_line(*appearance) + timezone_line(*before, *after));
    if before.use_24_hour_clock != after.use_24_hour_clock {
        let msg = String::from_str("Clock format → ").concat(
            clock_format_label(after.use_24_hour_clock),
        );
        push_message(&mut out, msg);
    }
    assert(strings_view(out@) =~= ui_scale_line(*appearance) + timezone_line(*before, *after)
        + clock_line(*before, *after));
    if !same_directory(&before.default_directory, &after.default_directory) {
        let msg = String::from_str("Default directory → ").concat(
            directory_label(&after.default_directory),
        );
        push_message(&mut out, msg);
    }
    assert(strings_view(out@) =~= ui_scale_line(*appearance) + timezone_line(*before, *after)
        + clock_line(*before, *after) + directory_line(*before, *after));
    if before.grid_units != after.grid_units {
        let msg = String::from_str("Default grid units → ").concat(after.grid_units.label()).concat(
            " (applies to new canvases on next startup)",
        );
        push_message(&mut out, msg);
    }
    assert(strings_view(out@) =~= ui_scale_line(*appearance) + timezone_line(*before, *after)
        + clock_line(*before, *after) + directory_line(*before, *after) + grid_units_line(
        *before,
        *after,
    ));
    match &appearance.default_background {
        Some(l) => {
            let msg = String::from_str("Default canvas background → ").concat(l.as_str()).concat(
                " (applies to new canvases on next startup)",
            );
            push_message(&mut out, msg);
        },
        None => {},
    }
    assert(strings_view(out@) =~= ui_scale_line(*appearance) + timezone_line(*before, *after)
        + clock_line(*before, *after) + directory_line(*before, *after) + grid_units_line(
        *before,
        *after,
    ) + background_line(*appearance));
    match &appearance.port_marker_size {
        Some(s) => {
            let msg = String::from_str("Port marker size → ").concat(s.as_str()).concat(" px");
            push_message(&mut out, msg);
        },
        None => {},
    }
    assert(strings_view(out@) =~= ui_scale_line(*appearance) + timezone_line(*before, *after)
        + clock_line(*before, *after) + directory_line(*before, *after) + grid_units_line(
        *before,
        *after,
    ) + background_line(*appearance) + marker_size_line(*appearance));
    match &appearance.port_marker_style {
        Some(l) => {
            let msg = String::from_str("Port marker style → ").concat(l.as_str());
            push_message(&mut out, msg);
        },
        None => {},
    }
    assert(strings_view(out@) =~= change_messages(*before, *after, *appearance));
    out
}

/// The preferences compare equal as the panel compares them.
pub open spec fn same_preferences(b: Preferences, a: Preferences) -> bool {
    &&& opt_view(b.user_timezone) == opt_view(a.user_timezone)
    &&& b.use_24_hour_clock == a.use_24_hour_clock
    &&& directory_key(b.default_directory) == directory_key(a.default_directory)
    &&& b.grid_units == a.grid_units
}

/// The log stays silent exactly when no setting changed, and reports
/// at most one line per setting.
pub proof fn lemma_change_log_silent_iff_unchanged(
    b: Preferences,
    a: Preferences,
    x: AppearanceChanges,
)
    ensures
        change_messages(b, a, x).len() == 0 <==> (same_preferences(b, a) && x.is_none()),
        change_messages(b, a, x).len() <= 8,
{
}

proof fn lemma_contains_after_append(a: Seq<Seq<char>>, b: Seq<Seq<char>>, x: Seq<char>)
    ensures
        a.contains(x) ==> (a + b).contains(x),
        b.contains(x) ==> (a + b).contains(x),
{
    if a.contains(x) {
        let i = choose|i: int| 0 <= i < a.len() && a[i] == x;
        assert((a + b)[i] == x);
    }
    if b.contains(x) {
        let i = choose|i: int| 0 <= i < b.len() && b[i] == x;
        assert((a + b)[a.len() + i] == x);
    }
}

/// The grid-units line's text when the units change to `u`: it names
/// the new units by their own label.
pub open spec fn grid_units_message(u: GridUnits) -> Seq<char> {
    "Default grid units → "@ + match u {
        GridUnits::Pixels => "Pixels"@,
        GridUnits::Mils => "Mils"@,
        GridUnits::Millimeters => "Millimeters"@,
        GridUnits::Inches => "Inches"@,
    } + " (applies to new canvases on next startup)"@
}

/// Each changed setting gets its log line naming the new value: the
/// grid units by their label, the timezone by its name (or "System
/// local"), the clock format as "24-hour" or "12-hour", the directory as
/// displayed (or "(platform default)").
pub proof fn lemma_change_log_names_new_values(b: Preferences, a: Preferences, x: AppearanceChanges)
    ensures
        b.grid_units != a.grid_units ==> change_messages(b, a, x).contains(
            grid_units_message(a.grid_units),
        ),
        b.use_24_hour_clock != a.use_24_hour_clock ==> change_messages(b, a, x).contains(
            "Clock format → "@ + if a.use_24_hour_clock {
                "24-hour"@
            } else {
                "12-hour"@
            },
        ),
        opt_view(b.user_timezone) != opt_view(a.user_timezone) ==> change_messages(
            b,
            a,
            x,
        ).contains(
            "Timezone → "@ + match a.user_timezone {
                Some(name) => name@,
                None => "System local"@,
            },
        ),
        directory_key(b.default_directory) != directory_key(a.default_directory)
            ==> change_messages(b, a, x).contains(
            "Default directory → "@ + match a.default_directory {
                Some(d) => d.display@,
                None => "(platform default)"@,
            },
        ),
{
    let l1 = ui_scale_line(x);
    let l2 = timezone_line(b, a);
    let l3 = clock_line(b, a);
    let l4 = directory_line(b, a);
    let l5 = grid_units_line(b, a);
    let l6 = background_line(x);
    let l7 = marker_size_line(x);
    let l8 = marker_style_line(x);
    let all = change_messages(b, a, x);
    assert(all == l1 + l2 + l3 + l4 + l5 + l6 + l7 + l8);
    let m = grid_units_message(a.grid_units);
    if b.grid_units != a.grid_units {
        assert(l5[0] == m);
        assert(l5.contains(m));
        lemma_contains_after_append(l1 + l2 + l3 + l4, l5, m);
        lemma_contains_after_append(l1 + l2 + l3 + l4 + l5, l6, m);
        lemma_contains_after_append(l1 + l2 + l3 + l4 + l5 + l6, l7, m);
        lemma_contains_after_append(l1 + l2 + l3 + l4 + l5 + l6 + l7, l8, m);
    }
    let c = "Clock format → "@ + if a.use_24_hour_clock {
        "24-hour"@
    } else {
        "12-hour"@
    };
    if b.use_24_hour_clock != a.use_24_hour_clock {
        assert(l3[0] == c);
        assert(l3.contains(c));
        lemma_contains_after_append(l1 + l2, l3, c);
        lemma_contains_after_append(l1 + l2 + l3, l4, c);
        lemma_contains_after_append(l1 + l2 + l3 + l4, l5, c);
        lemma_contains_after_append(l1 + l2 + l3 + l4 + l5, l6, c);
        lemma_contains_after_append(l1 + l2 + l3 + l4 + l5 + l6, l7, c);
        lemma_contains_after_append(l1 + l2 + l3 + l4 + l5 + l6 + l7, l8, c);
    }
    let t = "Timezone → "@ + match a.user_timezone {
        Some(name) => name@,
        None => "System local"@,
    };
    if opt_view(b.user_timezone) != opt_view(a.user_timezone) {
        assert(l2[0] == t);
        assert(l2.contains(t));
        lemma_contains_after_append(l1, l2, t);
        lemma_contains_after_append(l1 + l2, l3, t);
        lemma_contains_after_append(l1 + l2 + l3, l4, t);
        lemma_contains_after_append(l1 + l2 + l3 + l4, l5, t);
        lemma_contains_after_append(l1 + l2 + l3 + l4 + l5, l6, t);
        lemma_contains_after_append(l1 + l2 + l3 + l4 + l5 + l6, l7, t);
        lemma_contains_after_append(l1 + l2 + l3 + l4 + l5 + l6 + l7, l8, t);
    }
    let d = "Default directory → "@ + match a.default_directory {
        Some(dd) => dd.display@,
        None => "(platform default)"@,
    };
    if directory_key(b.default_directory) != directory_key(a.default_directory) {
        assert(l4[0] == d);
        assert(l4.contains(d));
        lemma_contains_after_append(l1 + l2 + l3, l4, d);
        lemma_contains_after_append(l1 + l2 + l3 + l4, l5, d);
        lemma_contains_after_append(l1 + l2 + l3 + l4 + l5, l6, d);
        lemma_contains_after_append(l1 + l2 + l3 + l4 + l5 + l6, l7, d);
        lemma_contains_after_append(l1 + l2 + l3 + l4 + l5 + l6 + l7, l8, d);
    }
}

/// Distinct grid units carry distinct labels, so the log never names
/// one unit for another.
pub proof fn lemma_grid_units_labels_distinct(u: GridUnits, v: GridUnits)
    requires
        u != v,
    ensures
        grid_units_label_of(u) != grid_units_label_of(v),
{
    reveal_strlit("Pixels");
    reveal_strlit("Mils");
    reveal_strlit("Millimeters");
    reveal_strlit("Inches");
    assert("Pixels"@.len() == 6);
    assert("Mils"@.len() == 4);
    assert("Millimeters"@.len() == 11);
    assert("Inches"@.len() == 6);
    assert("Pixels"@[0] != "Inches"@[0]);
}

} // verus!
