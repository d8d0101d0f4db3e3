//! Text shown around the panels: theme names and the footer.

use vstd::prelude::*;

use crate::metrics::DiskInfo;
use crate::settings::{spec_theme_label, ThemeName};
use crate::text::{decimal, decimal_string};

verus! {

/// The lower-case name of a theme.
pub fn theme_label(name: ThemeName) -> (s: &'static str)
    ensures
        s@ == spec_theme_label(name),
{
    match name {
        ThemeName::Mizu => "mizu",
        ThemeName::Abyss => "abyss",
        ThemeName::Coral => "coral",
    }
}

/// The text `humansize::format_size` writes for a byte count with the
/// binary (IEC) options, such as `3.6 GiB`.
pub uninterp spec fn humansize_binary(bytes: u64) -> Seq<char>;

/// Formats a byte count with `humansize::format_size` and
/// `humansize::BINARY`. Claimed: the text depends on the count alone.
#[verifier::external_body]
fn format_size_binary(bytes: u64) -> (s: String)
    ensures
        s@ == humansize_binary(bytes),
{
    humansize::format_size(bytes, humansize::BINARY)
}

/// The most mebibytes whose byte count fits in 64 bits.
pub open spec fn mib_fits(mb: u64) -> bool {
    mb * 1048576 <= u64::MAX
}

/// The human-readable size of `mb` mebibytes.
pub open spec fn spec_mib_text(mb: u64) -> Seq<char> {
    humansize_binary((mb * 1048576) as u64)
}

/// `mb` mebibytes as a human-readable size, such as `16 GiB`.
pub fn mib_text(mb: u64) -> (s: String)
    requires
        mib_fits(mb),
    ensures
        s@ == spec_mib_text(mb),
{
    format_size_binary(mb * 1024 * 1024)
}

/// The label of the RAM gauge: used and total memory and the percentage
/// used, where a total of zero counts as one mebibyte.
pub open spec fn spec_ram_label(used_mb: u64, total_mb: u64, pct: u16) -> Seq<char> {
    let total = if total_mb >= 1 {
        total_mb
    } else {
        1
    };
    spec_mib_text(used_mb) + " / "@ + spec_mib_text(total) + " ("@ + decimal(pct as nat) + "%)"@
}

/// The label of the RAM gauge, such as `3.6 GiB / 16 GiB (22%)`.
pub fn ram_label(used_mb: u64, total_mb: u64, pct: u16) -> (s: String)
    requires
        mib_fits(used_mb),
        mib_fits(total_mb),
    ensures
        s@ == spec_ram_label(used_mb, total_mb, pct),
{
    let total = if total_mb >= 1 {
        total_mb
    } else {
        1
    };
    let mut s = mib_text(used_mb);
    s.append(" / ");
    s.append(mib_text(total).as_str());
    s.append(" (");
    s.append(decimal_string(pct as u64).as_str());
    s.append("%)");
    s
}

/// The label of a disk's gauge: name, mount point, used and total space and
/// the percentage used.
pub open spec fn spec_disk_label(disk: DiskInfo, pct: u16) -> Seq<char> {
    disk.name@ + " "@ + disk.mount@ + " "@ + humansize_binary(disk.used_bytes) + "/"@
        + humansize_binary(disk.total_bytes) + " "@ + decimal(pct as nat) + "%"@
}

/// The label of a disk's gauge, such as `sda / 224 GiB/953 GiB 24%`.
pub fn disk_label(disk: &DiskInfo, pct: u16) -> (s: String)
    ensures
        s@ == spec_disk_label(*disk, pct),
{
    let mut s = String::from_str(disk.name.as_str());
    s.append(" ");
    s.append(disk.mount.as_str());
    s.append(" ");
    s.append(format_size_binary(disk.used_bytes).as_str());
    s.append("/");
    s.append(format_size_binary(disk.total_bytes).as_str());
    s.append(" ");
    s.append(decimal_string(pct as u64).as_str());
    s.append("%");
    s
}

/// The header line: processor, CPU load, memory and graphics adapter.
pub open spec fn spec_header_title(
    cpu_brand: Seq<char>,
    cpu_pct: Seq<char>,
    ram_used_mb: u64,
    ram_total_mb: u64,
    gpu_name: Seq<char>,
) -> Seq<char> {
    " \u{6c34} mizu  "@ + cpu_brand + "  cpu "@ + cpu_pct + "%  ram "@ + spec_mib_text(ram_used_mb)
        + "/"@ + spec_mib_text(ram_total_mb) + "  gpu "@ + gpu_name + " "@
}

/// The header line, given the CPU load already written as a whole
/// percentage.
pub fn header_title(
    cpu_brand: &str,
    cpu_pct: &str,
    ram_used_mb: u64,
    ram_total_mb: u64,
    gpu_name: &str,
) -> (s: String)
    requires
        mib_fits(ram_used_mb),
        mib_fits(ram_total_mb),
    ensures
        s@ == spec_header_title(cpu_brand@, cpu_pct@, ram_used_mb, ram_total_mb, gpu_name@),
{
    let mut s = String::from_str(" \u{6c34} mizu  ");
    s.append(cpu_brand);
    s.append("  cpu ");
    s.append(cpu_pct);
    s.append("%  ram ");
    s.append(mib_text(ram_used_mb).as_str());
    s.append("/");
    s.append(mib_text(ram_total_mb).as_str());
    s.append("  gpu ");
    s.append(gpu_name);
    s.append(" ");
    s
}

/// Which layout the body of the screen uses.
#[derive(Debug, Clone, Copy, PartialEq, Eq, Structural)]
pub enum BodyLayout {
    /// CPU and flow on the left; RAM, disk and network on the right.
    Overview,
    /// CPU cores above RAM.
    Cpu,
    /// Network above disk.
    NetDisk,
}

/// The layout of a tab: the second tab is the CPU view, the third the
/// network and disk view, anything else the overview.
pub fn body_layout(active_tab: u8) -> (l: BodyLayout)
    ensures
        l == (if active_tab == 1 {
            BodyLayout::Cpu
        } else if active_tab == 2 {
            BodyLayout::NetDisk
        } else {
            BodyLayout::Overview
        }),
{
    match active_tab {
        1 => BodyLayout::Cpu,
        2 => BodyLayout::NetDisk,
        _ => BodyLayout::Overview,
    }
}

/// How a piece of the footer is styled.
#[derive(Debug, Clone, Copy, PartialEq, Eq, Structural)]
pub enum SpanRole {
    /// Unstyled spacing.
    Plain,
    /// The key of the active tab.
    ActiveKey,
    /// The name of the active tab.
    ActiveLabel,
    /// A key, tab name or hint that is not highlighted.
    Muted,
}

/// One piece of the footer.
#[derive(Debug, Clone, PartialEq, Eq)]
pub struct FooterSpan {
    pub text: String,
    pub role: SpanRole,
}

/// The name of each tab.
pub open spec fn spec_tab_name(idx: int) -> Seq<char> {
    if idx == 0 {
        "overview"@
    } else if idx == 1 {
        "cpu"@
    } else {
        "net/disk"@
    }
}

/// The three pieces the footer shows for tab `idx`: its key, its name, and
/// the spacing before the next tab.
pub open spec fn spec_tab_spans(idx: int, active: u8) -> Seq<(Seq<char>, SpanRole)> {
    let on = idx == active as int;
    seq![
        ("["@ + decimal((idx + 1) as nat) + "]"@, if on { SpanRole::ActiveKey } else { SpanRole::Muted }),
        (" "@ + spec_tab_name(idx) + " "@, if on { SpanRole::ActiveLabel } else { SpanRole::Muted }),
        (if idx + 1 < 3 { "  "@ } else { ""@ }, SpanRole::Plain),
    ]
}

/// The footer: the three tabs with the active one highlighted, the theme
/// and flow hints, and how to quit.
pub open spec fn spec_footer(active: u8, theme: ThemeName) -> Seq<(Seq<char>, SpanRole)> {
    seq![(" "@, SpanRole::Plain)] + spec_tab_spans(0, active) + spec_tab_spans(1, active)
        + spec_tab_spans(2, active) + seq![
        ("t:"@ + spec_theme_label(theme) + "  f:flow  "@, SpanRole::Muted),
        ("q quit"@, SpanRole::Muted),
        (" "@, SpanRole::Plain),
    ]
}

/// The footer has thirteen pieces; tab `k` (0, 1, 2) owns pieces `3k + 1`
/// (its key), `3k + 2` (its name) and `3k + 3` (spacing). Exactly the key
/// and the name of the active tab are highlighted, all other keys and names
/// are muted, and for an active tab beyond the last nothing is highlighted.
pub proof fn lemma_footer_highlights_active_tab(active: u8, theme: ThemeName)
    ensures
        spec_footer(active, theme).len() == 13,
        forall|k: int|
            0 <= k < 3 ==> (#[trigger] spec_footer(active, theme)[3 * k + 2]).1 == (if k
                == active {
                SpanRole::ActiveLabel
            } else {
                SpanRole::Muted
            }),
        forall|k: int|
            0 <= k < 3 ==> (#[trigger] spec_footer(active, theme)[3 * k + 1]).1 == (if k
                == active {
                SpanRole::ActiveKey
            } else {
                SpanRole::Muted
            }),
        forall|j: int|
            0 <= j < 13 ==> ((#[trigger] spec_footer(active, theme)[j]).1 == SpanRole::ActiveLabel
                <==> (active < 3 && j == 3 * active + 2)),
        forall|j: int|
            0 <= j < 13 ==> ((#[trigger] spec_footer(active, theme)[j]).1 == SpanRole::ActiveKey
                <==> (active < 3 && j == 3 * active + 1)),
{
    let f = spec_footer(active, theme);
    let t0 = spec_tab_spans(0, active);
    let t1 = spec_tab_spans(1, active);
    let t2 = spec_tab_spans(2, active);
    assert(f.len() == 13);
    assert(f[1] == t0[0] && f[2] == t0[1] && f[3] == t0[2]);
    assert(f[4] == t1[0] && f[5] == t1[1] && f[6] == t1[2]);
    assert(f[7] == t2[0] && f[8] == t2[1] && f[9] == t2[2]);
    assert forall|j: int| 0 <= j < 13 implies ((#[trigger] f[j]).1 == SpanRole::ActiveLabel <==> (
    active < 3 && j == 3 * active + 2)) by {
        assert(f[0].1 == SpanRole::Plain);
        assert(f[10].1 == SpanRole::Muted);
        assert(f[11].1 == SpanRole::Muted);
        assert(f[12].1 == SpanRole::Plain);
    }
    assert forall|j: int| 0 <= j < 13 implies ((#[trigger] f[j]).1 == SpanRole::ActiveKey <==> (
    active < 3 && j == 3 * active + 1)) by {
        assert(f[0].1 == SpanRole::Plain);
        assert(f[10].1 == SpanRole::Muted);
        assert(f[11].1 == SpanRole::Muted);
        assert(f[12].1 == SpanRole::Plain);
    }
    assert forall|k: int| 0 <= k < 3 implies (#[trigger] f[3 * k + 2]).1 == (if k == active {
        SpanRole::ActiveLabel
    } else {
        SpanRole::Muted
    }) by {}
    assert forall|k: int| 0 <= k < 3 implies (#[trigger] f[3 * k + 1]).1 == (if k == active {
        SpanRole::ActiveKey
    } else {
        SpanRole::Muted
    }) by {}
}

/// The text and role of each footer piece.
pub open spec fn footer_view(spans: Seq<FooterSpan>) -> Seq<(Seq<char>, SpanRole)> {
    spans.map_values(|s: FooterSpan| (s.text@, s.role))
}

fn tab_name(idx: u8) -> (s: &'static str)
    requires
        idx < 3,
    ensures
        s@ == spec_tab_name(idx as int),
{
    if idx == 0 {
        "overview"
    } else if idx == 1 {
        "cpu"
    } else {
        "net/disk"
    }
}

fn push_span(spans: &mut Vec<FooterSpan>, text: String, role: SpanRole)
    ensures
        footer_view(final(spans)@) == footer_view(old(spans)@).push((text@, role)),
{
    let ghost before = spans@;
    spans.push(FooterSpan { text, role });
    assert(footer_view(spans@) =~= footer_view(before).push((text@, role)));
}

/// The pieces of the footer line, in order.
pub fn footer_spans(active: u8, theme: ThemeName) -> (spans: Vec<FooterSpan>)
    ensures
        footer_view(spans@) == spec_footer(active, theme),
{
    let mut spans: Vec<FooterSpan> = Vec::new();
    push_span(&mut spans, String::from_str(" "), SpanRole::Plain);
    let mut idx: u8 = 0;
    while idx < 3
        invariant
            idx <= 3,
            footer_view(spans@) == seq![(" "@, SpanRole::Plain)] + (if idx >= 1 {
                spec_tab_spans(0, active)
            } else {
                Seq::empty()
            }) + (if idx >= 2 {
                spec_tab_spans(1, active)
            } else {
                Seq::empty()
            }) + (if idx >= 3 {
                spec_tab_spans(2, active)
            } else {
                Seq::empty()
            }),
        decreases 3 - idx,
    {
        let ghost before = footer_view(spans@);
        let on = idx == active;
        let mut key = String::from_str("[");
        key.append(decimal_string(idx as u64 + 1).as_str());
        key.append("]");
        push_span(&mut spans, key, if on { SpanRole::ActiveKey } else { SpanRole::Muted });
        let mut label = String::from_str(" ");
        label.append(tab_name(idx));
        label.append(" ");
        push_span(&mut spans, label, if on { SpanRole::ActiveLabel } else { SpanRole::Muted });
        let trailing = if idx + 1 < 3 { "  " } else { "" };
        push_span(&mut spans, String::from_str(trailing), SpanRole::Plain);
        assert(footer_view(spans@) =~= before + spec_tab_spans(idx as int, active));
        idx = idx + 1;
    }
    let mut hint = String::from_str("t:");
    hint.append(theme_label(theme));
    hint.append("  f:flow  ");
    push_span(&mut spans, hint, SpanRole::Muted);
    push_span(&mut spans, String::from_str("q quit"), SpanRole::Muted);
    push_span(&mut spans, String::from_str(" "), SpanRole::Plain);
    assert(footer_view(spans@) =~= spec_footer(active, theme));
    spans
}

} // verus!
