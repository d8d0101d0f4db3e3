use mizu::metrics::{
    bytes_to_mib, cpu_brand_text, gpu_name_from_output, sum_pairs, DiskInfo, NetCounter,
};

#[test]
fn disk_used_space_never_goes_negative() {
    let d = DiskInfo::from_space("sda".to_string(), "/".to_string(), 100, 30);
    assert_eq!(d.used_bytes, 70);
    assert_eq!(d.total_bytes, 100);
    let d = DiskInfo::from_space("x".to_string(), "/x".to_string(), 10, 30);
    assert_eq!(d.used_bytes, 0);
}

#[test]
fn net_counter_reports_growth_after_the_first_sample() {
    let mut c = NetCounter::new();
    assert_eq!(c.step(1000, 500), (0, 0));
    assert_eq!(c.step(1500, 700), (500, 200));
    assert_eq!(c.step(1200, 800), (0, 100));
    assert_eq!(c.last_rx, 1200);
}

#[test]
fn pairs_add_up_or_report_overflow() {
    assert_eq!(sum_pairs(&[(1, 2), (3, 4), (5, 6)]), Some((9, 12)));
    assert_eq!(sum_pairs(&[]), Some((0, 0)));
    assert_eq!(sum_pairs(&[(u64::MAX, 0), (1, 0)]), None);
    assert_eq!(sum_pairs(&[(0, u64::MAX), (0, 1)]), None);
}

#[test]
fn bytes_round_down_to_mebibytes() {
    assert_eq!(bytes_to_mib(3 * 1024 * 1024 + 5), 3);
    assert_eq!(bytes_to_mib(1024 * 1024 - 1), 0);
}

#[test]
fn gpu_name_is_first_non_blank_line() {
    assert_eq!(
        gpu_name_from_output(Some(b"\r\n  \r\n  NVIDIA GeForce RTX 4060 \r\nIntel UHD\r\n".to_vec())),
        "NVIDIA GeForce RTX 4060"
    );
    assert_eq!(gpu_name_from_output(Some(b"AMD Radeon".to_vec())), "AMD Radeon");
    assert_eq!(gpu_name_from_output(Some(b" \n\t\n".to_vec())), "N/A");
    assert_eq!(gpu_name_from_output(Some(Vec::new())), "N/A");
    assert_eq!(gpu_name_from_output(Some(vec![0xff, 0xfe])), "N/A");
    assert_eq!(gpu_name_from_output(None), "N/A");
    assert_eq!(
        gpu_name_from_output(Some("\u{3000}Ärger GPU\u{a0}\n".as_bytes().to_vec())),
        "Ärger GPU"
    );
}

#[test]
fn cpu_brand_is_trimmed() {
    assert_eq!(cpu_brand_text(Some("  13th Gen Intel(R) Core(TM) i7 ")), "13th Gen Intel(R) Core(TM) i7");
    assert_eq!(cpu_brand_text(None), "");
    assert_eq!(cpu_brand_text(Some("   ")), "");
}
