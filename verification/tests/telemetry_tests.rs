use dashlayer::telemetry::{
    ascii_lower, build_system_info, contains_bytes, disk_summary, label_matches_cpu,
    select_cpu_sensor, usage_centi, DiskSpace,
};

#[test]
fn usage_is_zero_when_total_is_zero() {
    assert_eq!(usage_centi(0, 0), 0);
    assert_eq!(usage_centi(7, 0), 0);
}

#[test]
fn usage_is_the_ratio_in_centipercent() {
    assert_eq!(usage_centi(1, 2), 5000);
    assert_eq!(usage_centi(3, 4), 7500);
    assert_eq!(usage_centi(1, 3), 3333);
    assert_eq!(usage_centi(10, 10), 10000);
    assert_eq!(usage_centi(u64::MAX / 2, u64::MAX), 4999);
}

#[test]
fn empty_disk_list_reads_as_zero() {
    let disks: Vec<DiskSpace> = Vec::new();
    assert_eq!(disk_summary(&disks), (0, 0, 0));
}

#[test]
fn first_disk_is_reported() {
    let disks = vec![
        DiskSpace { total: 1000, available: 250 },
        DiskSpace { total: 9999, available: 1 },
    ];
    assert_eq!(disk_summary(&disks), (1000, 750, 7500));
}

#[test]
fn sensor_labels_match_case_insensitively() {
    assert!(label_matches_cpu(&b"CPU Temperature".to_vec()));
    assert!(label_matches_cpu(&b"coretemp Core 0".to_vec()));
    assert!(label_matches_cpu(&b"Package id 0".to_vec()));
    assert!(!label_matches_cpu(&b"nvme composite".to_vec()));
    assert!(!label_matches_cpu(&b"gpu hotspot".to_vec()));
}

#[test]
fn first_matching_sensor_is_selected() {
    let labels = vec![b"acpitz".to_vec(), b"CPU Package".to_vec(), b"Core 1".to_vec()];
    assert_eq!(select_cpu_sensor(&labels), Some(1));
    let none = vec![b"fan1".to_vec(), b"gpu".to_vec()];
    assert_eq!(select_cpu_sensor(&none), None);
    let empty: Vec<Vec<u8>> = Vec::new();
    assert_eq!(select_cpu_sensor(&empty), None);
}

#[test]
fn ascii_lower_folds_only_capitals() {
    assert_eq!(ascii_lower(&b"CPU-Temp 0".to_vec()), b"cpu-temp 0".to_vec());
}

#[test]
fn substring_search_finds_needles() {
    assert!(contains_bytes(&b"coretemp".to_vec(), &b"core".to_vec()));
    assert!(!contains_bytes(&b"cor".to_vec(), &b"core".to_vec()));
    assert!(contains_bytes(&b"abc".to_vec(), &Vec::new()));
}

#[test]
fn snapshot_assembles_the_readings() {
    let disks = vec![DiskSpace { total: 100, available: 40 }];
    let info = build_system_info(1234, 8000, 2000, &disks, Some(4550));
    assert_eq!(info.cpu_usage_centi, 1234);
    assert_eq!(info.memory_usage_centi, 2500);
    assert_eq!(info.memory_total, 8000);
    assert_eq!(info.memory_used, 2000);
    assert_eq!(info.disk_total, 100);
    assert_eq!(info.disk_used, 60);
    assert_eq!(info.disk_usage_centi, 6000);
    assert_eq!(info.cpu_temperature_centi, Some(4550));
}

#[test]
fn snapshot_survives_missing_probes() {
    let disks: Vec<DiskSpace> = Vec::new();
    let info = build_system_info(0, 0, 0, &disks, None);
    assert_eq!(info.memory_usage_centi, 0);
    assert_eq!(info.disk_total, 0);
    assert_eq!(info.disk_used, 0);
    assert_eq!(info.disk_usage_centi, 0);
    assert_eq!(info.cpu_temperature_centi, None);
}
