// Tests for the stated properties of the classification and sampling core:
// threshold boundaries, aggregation, CPU smoothing, division-by-zero
// fallbacks, and query idempotence.

use sysadmin_tamagotchi::commands::{get_metrics, get_pet_state, summarize_cleanup};
use sysadmin_tamagotchi::monitor::scratch_dir_path;
use sysadmin_tamagotchi::{Metrics, MetricStatus, Pet, PetState, RawReading, SystemMonitor};

fn cpu_only_reading(cpu_percent: u64) -> RawReading {
    RawReading {
        mem_used_bytes: 0,
        mem_total_bytes: 100,
        cpu_percent,
        junk_bytes: 0,
        disk_total_bytes: Some(256 * 1024 * 1024 * 1024),
    }
}

#[test]
fn test_metric_ladder_boundaries() {
    // Good iff v < 70, Warning iff 70 <= v < 95, Critical iff v >= 95.
    assert_eq!(Pet::classify_metric(0, 70, 85, 95), MetricStatus::Good);
    assert_eq!(Pet::classify_metric(69, 70, 85, 95), MetricStatus::Good);
    assert_eq!(Pet::classify_metric(70, 70, 85, 95), MetricStatus::Warning);
    assert_eq!(Pet::classify_metric(84, 70, 85, 95), MetricStatus::Warning);
    assert_eq!(Pet::classify_metric(85, 70, 85, 95), MetricStatus::Warning);
    assert_eq!(Pet::classify_metric(94, 70, 85, 95), MetricStatus::Warning);
    assert_eq!(Pet::classify_metric(95, 70, 85, 95), MetricStatus::Critical);
    assert_eq!(Pet::classify_metric(100, 70, 85, 95), MetricStatus::Critical);
}

#[test]
fn test_disk_ladder_boundaries() {
    // Good iff p < 5, Warning iff 5 <= p < 20, Critical iff p >= 20.
    assert_eq!(Pet::classify_disk_percent(0), MetricStatus::Good);
    assert_eq!(Pet::classify_disk_percent(4), MetricStatus::Good);
    assert_eq!(Pet::classify_disk_percent(5), MetricStatus::Warning);
    assert_eq!(Pet::classify_disk_percent(10), MetricStatus::Warning);
    assert_eq!(Pet::classify_disk_percent(19), MetricStatus::Warning);
    assert_eq!(Pet::classify_disk_percent(20), MetricStatus::Critical);
    assert_eq!(Pet::classify_disk_percent(100), MetricStatus::Critical);
}

#[test]
fn test_critical_dominates_any_combination() {
    // One Critical metric wins regardless of the other two values.
    let mut pet = Pet::new();
    let metrics = Metrics {
        ram_percent: 75,  // Warning
        cpu_percent: 80,  // Warning
        disk_junk_percent: 25,  // Critical
        disk_junk_mb: 64000,
        total_disk_mb: 256000,
    };
    assert_eq!(pet.update(&metrics), PetState::Critical);
}

#[test]
fn test_two_warnings_across_kinds_is_stressed() {
    // Warning RAM and Warning disk, neither Critical, compound to Stressed.
    let mut pet = Pet::new();
    let metrics = Metrics {
        ram_percent: 94,  // Warning, close to critical
        cpu_percent: 10,  // Good
        disk_junk_percent: 5,  // Warning, barely
        disk_junk_mb: 12800,
        total_disk_mb: 256000,
    };
    assert_eq!(pet.update(&metrics), PetState::Stressed);
}

#[test]
fn test_one_warning_disk_is_okay() {
    // A single Warning metric, the other two Good, is merely Okay.
    let mut pet = Pet::new();
    let metrics = Metrics {
        ram_percent: 10,
        cpu_percent: 10,
        disk_junk_percent: 19,  // Warning, close to critical
        disk_junk_mb: 48640,
        total_disk_mb: 256000,
    };
    assert_eq!(pet.update(&metrics), PetState::Okay);
}

#[test]
fn test_cpu_smoothing_window_drops_oldest() {
    // After raw samples [10,20,30,40,50,60,70] with window capacity 6, the
    // smoothed value is the mean of the last 6 (20..70 -> 45), not all 7.
    let mut monitor = SystemMonitor::new();
    let mut last = 0;
    for cpu in [10, 20, 30, 40, 50, 60, 70] {
        last = monitor.get_metrics(&cpu_only_reading(cpu)).cpu_percent;
    }
    assert_eq!(last, 45);
}

#[test]
fn test_cpu_smoothing_mean_of_partial_window() {
    // The mean degenerates correctly while the window is still filling.
    let mut monitor = SystemMonitor::new();
    assert_eq!(monitor.get_metrics(&cpu_only_reading(40)).cpu_percent, 40);
    assert_eq!(monitor.get_metrics(&cpu_only_reading(20)).cpu_percent, 30);
    assert_eq!(monitor.get_metrics(&cpu_only_reading(60)).cpu_percent, 40);
}

#[test]
fn test_disk_junk_percent_zero_total() {
    // diskJunkPercent is 0 when the total is 0: no division fault.
    let mut monitor = SystemMonitor::new();
    let metrics = monitor.get_metrics(&RawReading {
        mem_used_bytes: 0,
        mem_total_bytes: 0,
        cpu_percent: 0,
        junk_bytes: 5 * 1024 * 1024,
        disk_total_bytes: Some(0),
    });
    assert_eq!(metrics.total_disk_mb, 0);
    assert_eq!(metrics.disk_junk_percent, 0);
    // The no-memory-info fallback is 0% as well.
    assert_eq!(metrics.ram_percent, 0);
}

#[test]
fn test_disk_capacity_fallback() {
    // An unresolved volume falls back to the nominal 256 GB capacity.
    let mut monitor = SystemMonitor::new();
    let metrics = monitor.get_metrics(&RawReading {
        mem_used_bytes: 1,
        mem_total_bytes: 4,
        cpu_percent: 10,
        junk_bytes: 3 * 1024 * 1024,
        disk_total_bytes: None,
    });
    assert_eq!(metrics.total_disk_mb, 256 * 1024);
    assert_eq!(metrics.disk_junk_mb, 3);
    assert_eq!(metrics.ram_percent, 25);
}

#[test]
fn test_ram_percent_clamped_to_100() {
    // Percentages stay within [0, 100] even on over-reported usage.
    let mut monitor = SystemMonitor::new();
    let metrics = monitor.get_metrics(&RawReading {
        mem_used_bytes: 200,
        mem_total_bytes: 100,
        cpu_percent: 0,
        junk_bytes: 0,
        disk_total_bytes: None,
    });
    assert_eq!(metrics.ram_percent, 100);
}

#[test]
fn test_get_metrics_response_reports_update() {
    let mut monitor = SystemMonitor::new();
    let mut pet = Pet::new();
    let response = get_metrics(&mut monitor, &mut pet, &RawReading {
        mem_used_bytes: 75,
        mem_total_bytes: 100,
        cpu_percent: 50,
        junk_bytes: 0,
        disk_total_bytes: None,
    });
    assert_eq!(response.metrics.ram_percent, 75);
    assert_eq!(response.metrics.cpu_percent, 50);
    assert_eq!(response.pet_state, PetState::Okay);
    assert_eq!(response.pet_emoji, "😐");
    assert_eq!(response.pet_description, "Pet is okay - minor resource usage");
    assert_eq!(pet.get_state(), PetState::Okay);
}

#[test]
fn test_get_pet_state_idempotent() {
    // Two reads without an intervening update return identical values.
    let mut pet = Pet::new();
    let metrics = Metrics {
        ram_percent: 75,
        cpu_percent: 50,
        disk_junk_percent: 3,
        disk_junk_mb: 100,
        total_disk_mb: 256000,
    };
    pet.update(&metrics);

    let first = get_pet_state(&pet);
    let second = get_pet_state(&pet);
    assert_eq!(first.state, second.state);
    assert_eq!(first.emoji, second.emoji);
    assert_eq!(first.description, second.description);
    assert_eq!(first.state, PetState::Okay);
}

#[test]
fn test_ram_boundary_scenario() {
    // {ram:69, cpu:0, disk:0} is Happy; {ram:70, cpu:0, disk:0} is Okay.
    let mut pet = Pet::new();
    let below = Metrics {
        ram_percent: 69,
        cpu_percent: 0,
        disk_junk_percent: 0,
        disk_junk_mb: 0,
        total_disk_mb: 256000,
    };
    assert_eq!(pet.update(&below), PetState::Happy);

    let at = Metrics { ram_percent: 70, ..below };
    assert_eq!(pet.update(&at), PetState::Okay);
}

#[test]
fn test_summarize_cleanup_success() {
    let response = summarize_cleanup(Ok(42), String::from("cleaned"));
    assert!(response.success);
    assert_eq!(response.deleted_mb, 42);
    assert_eq!(response.message, "cleaned");
}

#[test]
fn test_summarize_cleanup_failure() {
    let response = summarize_cleanup(Err(String::from("permission denied")), String::from("failed"));
    assert!(!response.success);
    assert_eq!(response.deleted_mb, 0);
    assert_eq!(response.message, "failed");
}

#[test]
fn test_scratch_dir_fallbacks() {
    let both = scratch_dir_path(Some(String::from("D:\\Temp")), Some(String::from("E:\\Tmp")));
    assert_eq!(both, "D:\\Temp");

    let second = scratch_dir_path(None, Some(String::from("E:\\Tmp")));
    assert_eq!(second, "E:\\Tmp");

    let neither = scratch_dir_path(None, None);
    assert_eq!(neither, "C:\\Windows\\Temp");
}

#[test]
fn test_state_labels() {
    assert_eq!(PetState::Happy.emoji(), "😊");
    assert_eq!(PetState::Okay.emoji(), "😐");
    assert_eq!(PetState::Stressed.emoji(), "😰");
    assert_eq!(PetState::Critical.emoji(), "🔥");
    assert_eq!(PetState::Happy.description(), "Pet is happy - system healthy!");
    assert_eq!(PetState::Okay.description(), "Pet is okay - minor resource usage");
    assert_eq!(PetState::Stressed.description(), "Pet is stressed - high resource usage");
    assert_eq!(PetState::Critical.description(), "Pet is critical - system overloaded!");
}
