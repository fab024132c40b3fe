use picture_frame_ui::memory::{MemoryMonitor, MemoryStats};

#[test]
fn test_format_memory_human() {
    // Test KB values (less than 1024 KB)
    assert_eq!(MemoryMonitor::format_memory_human(0), "0 KB");
    assert_eq!(MemoryMonitor::format_memory_human(512), "512 KB");
    assert_eq!(MemoryMonitor::format_memory_human(1023), "1023 KB");

    // Test MB values (1024 KB and above, but less than 1024*1024 KB)
    assert_eq!(MemoryMonitor::format_memory_human(1024), "1.0 MB");
    assert_eq!(MemoryMonitor::format_memory_human(1536), "1.5 MB");
    assert_eq!(MemoryMonitor::format_memory_human(2048), "2.0 MB");
    assert_eq!(MemoryMonitor::format_memory_human(25000), "24.4 MB");
    assert_eq!(MemoryMonitor::format_memory_human(100000), "97.7 MB");
    assert_eq!(MemoryMonitor::format_memory_human(1048575), "1024.0 MB"); // Just under 1 GB

    // Test GB values (1024*1024 KB and above)
    assert_eq!(MemoryMonitor::format_memory_human(1048576), "1.00 GB"); // Exactly 1 GB
    assert_eq!(MemoryMonitor::format_memory_human(2097152), "2.00 GB"); // Exactly 2 GB
    assert_eq!(MemoryMonitor::format_memory_human(1572864), "1.50 GB"); // 1.5 GB
}

#[test]
fn test_format_memory_mb() {
    assert_eq!(MemoryMonitor::format_memory_mb(1024), "1.0 MB");
    assert_eq!(MemoryMonitor::format_memory_mb(2048), "2.0 MB");
    assert_eq!(MemoryMonitor::format_memory_mb(1536), "1.5 MB");
}

fn float_mb(kb: u64) -> String {
    format!("{:.1} MB", kb as f64 / 1024.0)
}

fn float_human(kb: u64) -> String {
    if kb >= 1024 * 1024 {
        format!("{:.2} GB", kb as f64 / (1024.0 * 1024.0))
    } else if kb >= 1024 {
        format!("{:.1} MB", kb as f64 / 1024.0)
    } else {
        format!("{} KB", kb)
    }
}

#[test]
fn megabytes_round_half_to_even() {
    // 256 KB is 0.25 MB and 768 KB is 0.75 MB: both lie halfway between two tenths.
    assert_eq!(MemoryMonitor::format_memory_mb(256), "0.2 MB");
    assert_eq!(MemoryMonitor::format_memory_mb(768), "0.8 MB");
    assert_eq!(MemoryMonitor::format_memory_mb(0), "0.0 MB");
    assert_eq!(MemoryMonitor::format_memory_mb(51), "0.0 MB");
    assert_eq!(MemoryMonitor::format_memory_mb(52), "0.1 MB");
}

#[test]
fn gigabytes_round_half_to_even() {
    // 1.125 GB and 1.375 GB lie halfway between two hundredths.
    assert_eq!(MemoryMonitor::format_memory_human(1179648), "1.12 GB");
    assert_eq!(MemoryMonitor::format_memory_human(1441792), "1.38 GB");
    assert_eq!(MemoryMonitor::format_memory_human(10 * 1024 * 1024), "10.00 GB");
}

#[test]
fn megabytes_agree_with_float_formatting() {
    let mut kb: u64 = 0;
    while kb < 120_000 {
        assert_eq!(MemoryMonitor::format_memory_mb(kb), float_mb(kb), "kb = {}", kb);
        kb += 1;
    }
    let mut kb: u64 = 1;
    while kb < (1u64 << 52) {
        for probe in [kb - 1, kb, kb + 1, kb + 256, kb + 768, kb * 3 / 2 + 51] {
            assert_eq!(MemoryMonitor::format_memory_mb(probe), float_mb(probe), "kb = {}", probe);
        }
        kb *= 2;
    }
}

#[test]
fn human_text_agrees_with_float_formatting() {
    let mut kb: u64 = 0;
    while kb < 4 * 1024 * 1024 {
        assert_eq!(MemoryMonitor::format_memory_human(kb), float_human(kb), "kb = {}", kb);
        kb += 97;
    }
    // every multiple of 1/8 GB up to 64 GB, which holds all the halfway cases of that range
    let mut kb: u64 = 1024 * 1024;
    while kb <= 64 * 1024 * 1024 {
        assert_eq!(MemoryMonitor::format_memory_human(kb), float_human(kb), "kb = {}", kb);
        kb += 1024 * 1024 / 8;
    }
    let mut kb: u64 = 1;
    while kb < (1u64 << 52) {
        for probe in [kb - 1, kb, kb + 1, kb * 3 / 2 + 5243] {
            assert_eq!(MemoryMonitor::format_memory_human(probe), float_human(probe), "kb = {}", probe);
        }
        kb *= 2;
    }
}

#[test]
fn large_amounts_agree_with_float_formatting() {
    // kilobytes beyond 2^53 are shown with the precision of a double
    assert_eq!(float_mb((1u64 << 63) + 1024), "9007199254740992.0 MB");
    assert_eq!(MemoryMonitor::format_memory_mb((1u64 << 63) + 1024), "9007199254740992.0 MB");
    assert_eq!(MemoryMonitor::format_memory_mb((1u64 << 63) + 3072), "9007199254740996.0 MB");
    assert_eq!(float_mb((1u64 << 63) + 3072), "9007199254740996.0 MB");

    let mut kb: u64 = 0x9E37_79B9_7F4A_7C15;
    for _ in 0..40_000 {
        kb = kb.wrapping_mul(6364136223846793005).wrapping_add(1442695040888963407);
        assert_eq!(MemoryMonitor::format_memory_mb(kb), float_mb(kb), "kb = {}", kb);
        assert_eq!(MemoryMonitor::format_memory_human(kb), float_human(kb), "kb = {}", kb);
        let shifted = kb >> (kb % 64);
        assert_eq!(MemoryMonitor::format_memory_mb(shifted), float_mb(shifted), "kb = {}", shifted);
        assert_eq!(
            MemoryMonitor::format_memory_human(shifted),
            float_human(shifted),
            "kb = {}",
            shifted
        );
    }

    // around every power of two, and halfway between two doubles
    for exponent in 52..64 {
        let base = 1u64 << exponent;
        let step = 1u64 << (exponent - 52);
        for probe in [
            base - 1,
            base,
            base + 1,
            base + step / 2,
            base + step,
            base + step + step / 2,
            base + 3 * step / 2 + 1,
            base.wrapping_add(base - 1),
            base.wrapping_add(base - step / 2),
            base.wrapping_add(base - step / 2 - 1),
        ] {
            assert_eq!(MemoryMonitor::format_memory_mb(probe), float_mb(probe), "kb = {}", probe);
            assert_eq!(
                MemoryMonitor::format_memory_human(probe),
                float_human(probe),
                "kb = {}",
                probe
            );
        }
    }
}

#[test]
fn largest_amount_is_formatted() {
    assert_eq!(MemoryMonitor::format_memory_mb(u64::MAX), "18014398509481984.0 MB");
    assert_eq!(MemoryMonitor::format_memory_human(u64::MAX), "17592186044416.00 GB");
}

#[test]
fn record_sample_tracks_peak_and_growth() {
    let mut monitor = MemoryMonitor::new(0);
    let initial = monitor.initial_memory_kb();
    assert_eq!(monitor.peak_memory_kb(), initial);

    let bytes = (initial + 10) * 1024 + 1023;
    let stats: MemoryStats = monitor.record_sample(Some(bytes), Some(8 * 1024 * 1024));
    assert_eq!(stats.current_memory_kb, initial + 10);
    assert_eq!(stats.virtual_memory_kb, 8 * 1024);
    assert_eq!(stats.peak_memory_kb, initial + 10);
    assert_eq!(stats.memory_growth_kb, 10);
    assert_eq!(monitor.peak_memory_kb(), initial + 10);

    // a smaller reading keeps the peak, and growth never goes below zero
    let stats = monitor.record_sample(Some(0), None);
    assert_eq!(stats.current_memory_kb, 0);
    assert_eq!(stats.virtual_memory_kb, 0);
    assert_eq!(stats.peak_memory_kb, initial + 10);
    assert_eq!(stats.memory_growth_kb, 0);
    assert_eq!(monitor.initial_memory_kb(), initial);
}

#[test]
fn unknown_process_counts_as_no_memory() {
    let mut monitor = MemoryMonitor::new(u32::MAX);
    assert_eq!(monitor.process_id(), u32::MAX);
    assert_eq!(monitor.initial_memory_kb(), 0);
    let stats = monitor.record_sample(None, None);
    assert_eq!(stats.current_memory_kb, 0);
    assert_eq!(stats.peak_memory_kb, 0);
    assert_eq!(stats.memory_growth_kb, 0);
}

#[test]
fn check_memory_reads_a_consistent_sample() {
    let mut monitor = MemoryMonitor::new(1);
    let before = monitor.peak_memory_kb();
    let stats = monitor.check_memory();
    assert!(stats.peak_memory_kb >= stats.current_memory_kb);
    assert!(stats.peak_memory_kb >= before);
    assert_eq!(stats.peak_memory_kb, monitor.peak_memory_kb());
    assert_eq!(
        stats.memory_growth_kb,
        stats.current_memory_kb.saturating_sub(monitor.initial_memory_kb())
    );
    let copy = stats.clone();
    assert_eq!(copy.current_memory_kb, stats.current_memory_kb);
}

#[test]
fn reading_is_due_once_the_interval_has_passed() {
    assert!(MemoryMonitor::reading_due(5, 5));
    assert!(MemoryMonitor::reading_due(6, 5));
    assert!(!MemoryMonitor::reading_due(4, 5));
    assert!(MemoryMonitor::reading_due(0, 0));
}

#[test]
fn periodic_reading_waits_for_the_interval() {
    let mut monitor = MemoryMonitor::new(1);
    let peak = monitor.peak_memory_kb();
    assert!(monitor
        .log_memory_periodically(std::time::Duration::from_secs(3600).as_nanos())
        .is_none());
    assert_eq!(monitor.peak_memory_kb(), peak);
    // an interval of zero is always over
    let stats = monitor.log_memory_periodically(0).expect("a reading is due");
    assert!(stats.peak_memory_kb >= peak);
    assert_eq!(stats.peak_memory_kb, monitor.peak_memory_kb());
    assert!(monitor.log_memory_periodically(0).is_some());
}
