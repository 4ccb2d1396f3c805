//! The startup banner and the system summary that the Logger shows
//! when the application opens.
//!
//! The values come from the clock and the operating system; the
//! application reads them and hands them in as text and numbers.

use vstd::prelude::*;

verus! {

/// The character of a decimal digit.
pub open spec fn digit_char(d: nat) -> char {
    (48 + d) as char
}

/// The decimal representation of `n`, as `usize`'s `Display` writes it.
pub open spec fn decimal(n: nat) -> Seq<char>
    decreases n,
{
    if n < 10 {
        seq![digit_char(n)]
    } else {
        decimal(n / 10) + seq![digit_char(n % 10)]
    }
}

/// The number that a string of decimal digits denotes.
pub open spec fn digits_value(s: Seq<char>) -> int
    decreases s.len(),
{
    if s.len() == 0 {
        0
    } else {
        digits_value(s.drop_last()) * 10 + (s.last() as int - 48)
    }
}

proof fn lemma_digit_char_value(d: nat)
    requires
        d < 10,
    ensures
        digit_char(d) as int == 48 + d,
{
}

/// The decimal text of `n` is made of digits only, has no leading zero
/// (unless it is "0"), and reads back as `n`.
pub proof fn lemma_decimal_reads_back(n: nat)
    ensures
        digits_value(decimal(n)) == n,
        forall|i: int| 0 <= i < decimal(n).len() ==> '0' <= #[trigger] decimal(n)[i] <= '9',
        decimal(n).len() > 1 ==> decimal(n)[0] != '0',
        decimal(n).len() >= 1,
        decimal(n).len() == 1 <==> n < 10,
    decreases n,
{
    lemma_digit_char_value(n % 10);
    if n < 10 {
        lemma_digit_char_value(n);
        assert(decimal(n).drop_last() =~= Seq::<char>::empty());
        assert(digits_value(Seq::<char>::empty()) == 0);
    }
    if n >= 10 {
        lemma_decimal_reads_back(n / 10);
        let d = decimal(n);
        assert(d.drop_last() =~= decimal(n / 10));
        assert(d.last() == digit_char(n % 10));
        assert(digits_value(d) == digits_value(d.drop_last()) * 10 + (d.last() as int - 48));
        assert(n / 10 * 10 + n % 10 == n);
        assert forall|i: int| 0 <= i < d.len() implies '0' <= #[trigger] d[i] <= '9' by {
            if i < d.len() - 1 {
                assert(d[i] == decimal(n / 10)[i]);
            }
        }
        if decimal(n / 10).len() == 1 {
            lemma_digit_char_value(n / 10);
            assert(decimal(n / 10)[0] != '0');
        }
        assert(d[0] == decimal(n / 10)[0]);
    }
}

fn digit_str(d: usize) -> (s: &'static str)
    requires
        d < 10,
    ensures
        s@ == seq![digit_char(d as nat)],
{
    proof {
        reveal_strlit("0");
        reveal_strlit("1");
        reveal_strlit("2");
        reveal_strlit("3");
        reveal_strlit("4");
        reveal_strlit("5");
        reveal_strlit("6");
        reveal_strlit("7");
        reveal_strlit("8");
        reveal_strlit("9");
    }
    let s = match d {
        0 => "0",
        1 => "1",
        2 => "2",
        3 => "3",
        4 => "4",
        5 => "5",
        6 => "6",
        7 => "7",
        8 => "8",
        _ => "9",
    };
    assert(s@ =~= seq![digit_char(d as nat)]);
    s
}

/// The decimal representation of `n`.
pub fn decimal_string(n: usize) -> (s: String)
    ensures
        s@ == decimal(n as nat),
    decreases n,
{
    if n < 10 {
        String::from_str(digit_str(n))
    } else {
        decimal_string(n / 10).concat(digit_str(n % 10))
    }
}

pub const BANNER_HEAD: &'static str = "**** Welcome to grafica-ide — DSL-driven graphics IDE, Version ";

pub const BANNER_TODAY: &'static str = "\n**** Today is ";

pub const BANNER_CITIZENS: &'static str = "\n\nCITIZENS\n    canvas    — egui_grafica\n    editor    — egui_quill\n    logger    — egui_lens\n    project   — (built-in)\n\nDEPENDENCIES\n    grafica-ide      : ";

pub const BANNER_DEPENDENCIES: &'static str = "\n    egui             : 0.34\n    eframe           : 0.34 (wgpu)\n    egui_dock        : 0.19\n    egui_mobius      : 0.4.0 (path)\n    egui_citizen     : 0.4.0 (path)\n    egui_lens        : 0.4.0 (path)\n    egui_quill       : 0.4.0 (path)\n    egui_grafica     : 0.4.0 (path, gpu)";

/// The welcome banner for a version of the application, opened at the
/// time `now`.
pub open spec fn banner_text(version: Seq<char>, now: Seq<char>) -> Seq<char> {
    BANNER_HEAD@ + version + BANNER_TODAY@ + now + BANNER_CITIZENS@ + version
        + BANNER_DEPENDENCIES@
}

/// The welcome banner: version, date, the citizens and the
/// dependencies.
pub fn format_banner(version: &str, now: &str) -> (banner: String)
    ensures
        banner@ == banner_text(version@, now@),
{
    let mut out = String::from_str(BANNER_HEAD);
    out.append(version);
    out.append(BANNER_TODAY);
    out.append(now);
    out.append(BANNER_CITIZENS);
    out.append(version);
    out.append(BANNER_DEPENDENCIES);
    out
}

/// The banner names the version passed in both in its head line and as
/// the grafica-ide entry of its dependencies, and the time passed in on
/// its "Today is" line.
pub proof fn lemma_banner_names_version_and_time(version: Seq<char>, now: Seq<char>)
    ensures
        ({
            let t = banner_text(version, now);
            let h = BANNER_HEAD@.len() as int;
            let today_at = h + version.len() + BANNER_TODAY@.len();
            let deps_at = t.len() - BANNER_DEPENDENCIES@.len();
            let entry = "    grafica-ide      : "@;
            &&& t.subrange(0, h) == BANNER_HEAD@
            &&& t.subrange(h, h + version.len()) == version
            &&& t.subrange(today_at, today_at + now.len()) == now
            &&& t.subrange(deps_at - version.len(), deps_at) == version
            &&& t.subrange(deps_at - version.len() - entry.len(), deps_at - version.len()) == entry
            &&& t.subrange(deps_at, t.len() as int) == BANNER_DEPENDENCIES@
        }),
{
    let t = banner_text(version, now);
    let head = BANNER_HEAD@;
    let today = BANNER_TODAY@;
    let cit = BANNER_CITIZENS@;
    let deps = BANNER_DEPENDENCIES@;
    let entry = "    grafica-ide      : "@;
    reveal_strlit("\n\nCITIZENS\n    canvas    — egui_grafica\n    editor    — egui_quill\n    logger    — egui_lens\n    project   — (built-in)\n\nDEPENDENCIES\n    grafica-ide      : ");
    reveal_strlit("    grafica-ide      : ");
    assert(cit.subrange(cit.len() - entry.len(), cit.len() as int) =~= entry);
    let h = head.len() as int;
    let today_at = h + version.len() + today.len();
    let cit_at = today_at + now.len();
    let v2_at = cit_at + cit.len();
    let deps_at = v2_at + version.len();
    assert(t == head + version + today + now + cit + version + deps);
    assert(t.len() == deps_at + deps.len());
    assert(t.subrange(0, h) =~= head);
    assert(t.subrange(h, h + version.len()) =~= version);
    assert(t.subrange(today_at, today_at + now.len()) =~= now);
    assert(t.subrange(v2_at, deps_at) =~= version);
    assert(t.subrange(deps_at, t.len() as int) =~= deps);
    assert(t.subrange(cit_at, v2_at) =~= cit);
    assert(t.subrange(v2_at - entry.len(), v2_at) =~= cit.subrange(
        cit.len() - entry.len(),
        cit.len() as int,
    ));
}

/// What the system summary reports, as read from the operating system.
/// A value the system did not give is `None`.
pub struct SystemSummary {
    pub os: Option<String>,
    pub kernel: Option<String>,
    pub host: Option<String>,
    pub cpu_brand: Option<String>,
    pub physical_cores: Option<usize>,
    pub logical_cores: usize,
    /// Memory in use, in GiB with one decimal.
    pub memory_used_gib: String,
    /// Total memory, in GiB with one decimal.
    pub memory_total_gib: String,
}

pub open spec fn or_unknown(v: Option<String>) -> Seq<char> {
    match v {
        Some(s) => s@,
        None => "unknown"@,
    }
}

pub open spec fn core_count_text(n: Option<usize>) -> Seq<char> {
    match n {
        Some(k) => decimal(k as nat),
        None => "?"@,
    }
}

/// The system summary's text.
pub open spec fn system_details_text(s: SystemSummary) -> Seq<char> {
    "SYSTEM\n    OS               : "@ + or_unknown(s.os)
        + "\n    Kernel           : "@ + or_unknown(s.kernel)
        + "\n    Host             : "@ + or_unknown(s.host)
        + "\n    CPU              : "@ + or_unknown(s.cpu_brand)
        + "\n    Cores            : "@ + core_count_text(s.physical_cores)
        + " physical / "@ + decimal(s.logical_cores as nat)
        + " logical\n    Memory           : "@ + s.memory_used_gib@
        + " / "@ + s.memory_total_gib@ + " GiB used"@
}

fn text_or_unknown(v: &Option<String>) -> (t: &str)
    ensures
        t@ == or_unknown(*v),
{
    match v {
        Some(s) => s.as_str(),
        None => "unknown",
    }
}

/// The system summary: OS, kernel, host, CPU, cores and memory.
pub fn format_system_details(summary: &SystemSummary) -> (details: String)
    ensures
        details@ == system_details_text(*summary),
{
    let physical = match summary.physical_cores {
        Some(n) => decimal_string(n),
        None => String::from_str("?"),
    };
    let logical = decimal_string(summary.logical_cores);
    let mut out = String::from_str("SYSTEM\n    OS               : ");
    out.append(text_or_unknown(&summary.os));
    out.append("\n    Kernel           : ");
    out.append(text_or_unknown(&summary.kernel));
    out.append("\n    Host             : ");
    out.append(text_or_unknown(&summary.host));
    out.append("\n    CPU              : ");
    out.append(text_or_unknown(&summary.cpu_brand));
    out.append("\n    Cores            : ");
    out.append(physical.as_str());
    out.append(" physical / ");
    out.append(logical.as_str());
    out.append(" logical\n    Memory           : ");
    out.append(summary.memory_used_gib.as_str());
    out.append(" / ");
    out.append(summary.memory_total_gib.as_str());
    out.append(" GiB used");
    out
}

/// `piece` stands somewhere in `t`, as one contiguous run.
pub open spec fn appears_in(t: Seq<char>, piece: Seq<char>) -> bool {
    exists|p: Seq<char>, q: Seq<char>| t == #[trigger] (p + piece + q)
}

/// Each value of the summary stands on its own line, right after its
/// label and before the next label: an absent name as "unknown", an
/// unknown physical core count as "?", counts in decimal.
#[verifier::rlimit(40)]
pub proof fn lemma_system_details_label_each_value(s: SystemSummary)
    ensures
        ({
            let t = system_details_text(s);
            let os = match s.os { Some(x) => x@, None => "unknown"@ };
            let kernel = match s.kernel { Some(x) => x@, None => "unknown"@ };
            let host = match s.host { Some(x) => x@, None => "unknown"@ };
            let cpu = match s.cpu_brand { Some(x) => x@, None => "unknown"@ };
            let physical = match s.physical_cores { Some(k) => decimal(k as nat), None => "?"@ };
            let head = "SYSTEM\n    OS               : "@ + os + "\n    Kernel           : "@;
            &&& t.subrange(0, head.len() as int) == head
            &&& appears_in(t, "\n    Kernel           : "@ + kernel + "\n    Host             : "@)
            &&& appears_in(t, "\n    Host             : "@ + host + "\n    CPU              : "@)
            &&& appears_in(t, "\n    CPU              : "@ + cpu + "\n    Cores            : "@)
            &&& appears_in(
                t,
                "\n    Cores            : "@ + physical + " physical / "@ + decimal(
                    s.logical_cores as nat,
                ) + " logical\n    Memory           : "@,
            )
            &&& appears_in(
                t,
                " logical\n    Memory           : "@ + s.memory_used_gib@ + " / "@
                    + s.memory_total_gib@ + " GiB used"@,
            )
        }),
{
    let l1 = "SYSTEM\n    OS               : "@;
    let l2 = "\n    Kernel           : "@;
    let l3 = "\n    Host             : "@;
    let l4 = "\n    CPU              : "@;
    let l5 = "\n    Cores            : "@;
    let l6 = " physical / "@;
    let l7 = " logical\n    Memory           : "@;
    let l8 = " / "@;
    let l9 = " GiB used"@;
    let a = or_unknown(s.os);
    let b = or_unknown(s.kernel);
    let c = or_unknown(s.host);
    let d = or_unknown(s.cpu_brand);
    let e = core_count_text(s.physical_cores);
    let f = decimal(s.logical_cores as nat);
    let g = s.memory_used_gib@;
    let h = s.memory_total_gib@;
    // The text's prefixes, term by term: p_k holds the first k terms.
    let p1 = l1;
    let p2 = p1 + a;
    let p3 = p2 + l2;
    let p4 = p3 + b;
    let p5 = p4 + l3;
    let p6 = p5 + c;
    let p7 = p6 + l4;
    let p8 = p7 + d;
    let p9 = p8 + l5;
    let p10 = p9 + e;
    let p11 = p10 + l6;
    let p12 = p11 + f;
    let p13 = p12 + l7;
    let p14 = p13 + g;
    let p15 = p14 + l8;
    let p16 = p15 + h;
    let p17 = p16 + l9;
    assert(system_details_text(s) == p17);
    assert(p3.subrange(0, p3.len() as int) =~= p3);
    lemma_prefix_extend(p3, b, p3.len() as int);
    lemma_prefix_extend(p4, l3, p3.len() as int);
    lemma_prefix_extend(p5, c, p3.len() as int);
    lemma_prefix_extend(p6, l4, p3.len() as int);
    lemma_prefix_extend(p7, d, p3.len() as int);
    lemma_prefix_extend(p8, l5, p3.len() as int);
    lemma_prefix_extend(p9, e, p3.len() as int);
    lemma_prefix_extend(p10, l6, p3.len() as int);
    lemma_prefix_extend(p11, f, p3.len() as int);
    lemma_prefix_extend(p12, l7, p3.len() as int);
    lemma_prefix_extend(p13, g, p3.len() as int);
    lemma_prefix_extend(p14, l8, p3.len() as int);
    lemma_prefix_extend(p15, h, p3.len() as int);
    lemma_prefix_extend(p16, l9, p3.len() as int);
    let piece = l2 + b + l3;
    assert(appears_in(p5, piece)) by {
        assert(p5 =~= p2 + piece + Seq::<char>::empty());
    }
    lemma_appears_right(p5, c, piece);
    lemma_appears_right(p6, l4, piece);
    lemma_appears_right(p7, d, piece);
    lemma_appears_right(p8, l5, piece);
    lemma_appears_right(p9, e, piece);
    lemma_appears_right(p10, l6, piece);
    lemma_appears_right(p11, f, piece);
    lemma_appears_right(p12, l7, piece);
    lemma_appears_right(p13, g, piece);
    lemma_appears_right(p14, l8, piece);
    lemma_appears_right(p15, h, piece);
    lemma_appears_right(p16, l9, piece);
    let piece = l3 + c + l4;
    assert(appears_in(p7, piece)) by {
        assert(p7 =~= p4 + piece + Seq::<char>::empty());
    }
    lemma_appears_right(p7, d, piece);
    lemma_appears_right(p8, l5, piece);
    lemma_appears_right(p9, e, piece);
    lemma_appears_right(p10, l6, piece);
    lemma_appears_right(p11, f, piece);
    lemma_appears_right(p12, l7, piece);
    lemma_appears_right(p13, g, piece);
    lemma_appears_right(p14, l8, piece);
    lemma_appears_right(p15, h, piece);
    lemma_appears_right(p16, l9, piece);
    let piece = l4 + d + l5;
    assert(appears_in(p9, piece)) by {
        assert(p9 =~= p6 + piece + Seq::<char>::empty());
    }
    lemma_appears_right(p9, e, piece);
    lemma_appears_right(p10, l6, piece);
    lemma_appears_right(p11, f, piece);
    lemma_appears_right(p12, l7, piece);
    lemma_appears_right(p13, g, piece);
    lemma_appears_right(p14, l8, piece);
    lemma_appears_right(p15, h, piece);
    lemma_appears_right(p16, l9, piece);
    let piece = l5 + e + l6 + f + l7;
    assert(appears_in(p13, piece)) by {
        assert(p13 =~= p8 + piece + Seq::<char>::empty());
    }
    lemma_appears_right(p13, g, piece);
    lemma_appears_right(p14, l8, piece);
    lemma_appears_right(p15, h, piece);
    lemma_appears_right(p16, l9, piece);
    let piece = l7 + g + l8 + h + l9;
    assert(appears_in(p17, piece)) by {
        assert(p17 =~= p12 + piece + Seq::<char>::empty());
    }
}

proof fn lemma_appears_right(t: Seq<char>, r: Seq<char>, piece: Seq<char>)
    requires
        appears_in(t, piece),
    ensures
        appears_in(t + r, piece),
{
    let (p, q) = choose|p: Seq<char>, q: Seq<char>| t == #[trigger] (p + piece + q);
    assert(t + r =~= p + piece + (q + r));
}

proof fn lemma_prefix_extend(t: Seq<char>, r: Seq<char>, n: int)
    requires
        0 <= n <= t.len(),
    ensures
        (t + r).subrange(0, n) == t.subrange(0, n),
{
    assert((t + r).subrange(0, n) =~= t.subrange(0, n));
}

} // verus!
