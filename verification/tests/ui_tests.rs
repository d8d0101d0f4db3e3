use mizu::metrics::DiskInfo;
use mizu::settings::ThemeName;
use mizu::ui::{
    body_layout, disk_label, footer_spans, header_title, mib_text, ram_label, theme_label,
    BodyLayout, SpanRole,
};

#[test]
fn theme_label_covers_all_variants() {
    assert_eq!(theme_label(ThemeName::Mizu), "mizu");
    assert_eq!(theme_label(ThemeName::Abyss), "abyss");
    assert_eq!(theme_label(ThemeName::Coral), "coral");
}

#[test]
fn sizes_are_binary_and_human_readable() {
    assert_eq!(mib_text(16384), "16 GiB");
    assert_eq!(mib_text(0), "0 B");
    assert_eq!(ram_label(4096, 16384, 25), "4 GiB / 16 GiB (25%)");
    assert_eq!(ram_label(0, 0, 0), "0 B / 1 MiB (0%)");
}

#[test]
fn disk_label_lists_name_mount_sizes_and_percent() {
    let d = DiskInfo {
        name: "sda".to_string(),
        mount: "/".to_string(),
        used_bytes: 1024,
        total_bytes: 4096,
    };
    assert_eq!(disk_label(&d, 25), "sda / 1 KiB/4 KiB 25%");
}

#[test]
fn header_names_cpu_ram_and_gpu() {
    assert_eq!(
        header_title("Ryzen", "42", 1024, 2048, "N/A"),
        " \u{6c34} mizu  Ryzen  cpu 42%  ram 1 GiB/2 GiB  gpu N/A "
    );
}

#[test]
fn tabs_pick_layouts() {
    assert_eq!(body_layout(0), BodyLayout::Overview);
    assert_eq!(body_layout(1), BodyLayout::Cpu);
    assert_eq!(body_layout(2), BodyLayout::NetDisk);
    assert_eq!(body_layout(9), BodyLayout::Overview);
}

#[test]
fn footer_highlights_the_active_tab() {
    let spans = footer_spans(1, ThemeName::Abyss);
    let text: String = spans.iter().map(|s| s.text.as_str()).collect();
    assert_eq!(
        text,
        " [1] overview   [2] cpu   [3] net/disk t:abyss  f:flow  q quit "
    );
    assert_eq!(spans.len(), 13);
    assert_eq!(spans[1].role, SpanRole::Muted);
    assert_eq!(spans[4].role, SpanRole::ActiveKey);
    assert_eq!(spans[5].role, SpanRole::ActiveLabel);
    assert_eq!(spans[7].role, SpanRole::Muted);
    assert_eq!(spans[9].text, "");
}
