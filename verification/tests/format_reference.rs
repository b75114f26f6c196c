use fsapp::format::{human_bytes, human_duration};
use std::time::Duration;

fn reference_bytes(bytes: u64) -> String {
    const UNITS: [&str; 5] = ["B", "KiB", "MiB", "GiB", "TiB"];
    if bytes < 1024 {
        return format!("{bytes} B");
    }
    let mut size = bytes as f64;
    let mut unit = 0;
    while size >= 1024.0 && unit < UNITS.len() - 1 {
        size /= 1024.0;
        unit += 1;
    }
    format!("{size:.1} {}", UNITS[unit])
}

fn reference_duration(d: Duration) -> String {
    let secs = d.as_secs();
    match secs {
        0..=9 => format!("{:.1}s", d.as_secs_f64()),
        10..=59 => format!("{secs}s"),
        60..=3599 => format!("{}m{:02}s", secs / 60, secs % 60),
        _ => format!("{}h{:02}m", secs / 3600, (secs % 3600) / 60),
    }
}

#[test]
fn human_bytes_agrees_with_float_formatting() {
    let mut samples: Vec<u64> = (0..5000u64).collect();
    for unit in 1..5u32 {
        let base = 1024u64.pow(unit);
        for k in 0..3000u64 {
            samples.push(base * k / 20 + k);
            samples.push(base + k * 13);
            samples.push(base * (k % 1024 + 1) + base / 20 * (k % 20));
        }
    }
    let mut x: u64 = 0x9E3779B97F4A7C15;
    for _ in 0..200000 {
        x ^= x << 13;
        x ^= x >> 7;
        x ^= x << 17;
        samples.push(x >> (x % 64));
        samples.push(x);
    }
    for e in 50..64u32 {
        for d in 0..64u64 {
            samples.push((1u64 << e) + d);
            samples.push((1u64 << e) - d);
            samples.push((1u64 << e) + (1u64 << (e - 50)) * d);
        }
    }
    samples.push(u64::MAX);
    let mut bad = Vec::new();
    for b in samples {
        let (got, want) = (human_bytes(b), reference_bytes(b));
        if got != want && bad.len() < 20 {
            bad.push(format!("{b}: {got} vs {want}"));
        }
    }
    assert!(bad.is_empty(), "{bad:?}");
}

#[test]
fn human_duration_agrees_with_float_formatting() {
    let mut bad = Vec::new();
    for secs in 0..12u64 {
        for n in (0..1_000_000_000u32).step_by(50_000) {
            for m in [n, n.saturating_add(1), n.saturating_sub(1)] {
                if m >= 1_000_000_000 {
                    continue;
                }
                let d = Duration::new(secs, m);
                let (got, want) = (human_duration(secs, m), reference_duration(d));
                if got != want && bad.len() < 20 {
                    bad.push(format!("{secs}.{m:09}: {got} vs {want}"));
                }
            }
        }
    }
    for secs in [59u64, 60, 61, 3599, 3600, 3661, 86400, 123456] {
        let d = Duration::new(secs, 5);
        assert_eq!(human_duration(secs, 5), reference_duration(d));
    }
    assert!(bad.is_empty(), "{bad:?}");
}
