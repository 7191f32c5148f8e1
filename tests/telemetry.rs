use tinytosh_bridge::telemetry::{disk_percent, net_down_kb, primary_disk, DiskInfo};

fn disk(mount: &str, total: u64, available: u64) -> DiskInfo {
    DiskInfo { mount_point: mount.to_string(), total_space: total, available_space: available }
}

#[test]
fn net_down_kb_sums_all_interfaces() {
    assert_eq!(net_down_kb(&vec![2048, 1024]), 3);
}

#[test]
fn net_down_kb_truncates() {
    assert_eq!(net_down_kb(&vec![1023]), 0);
    assert_eq!(net_down_kb(&vec![1024, 1023]), 1);
    assert_eq!(net_down_kb(&vec![]), 0);
}

#[test]
fn net_down_kb_is_cumulative_and_never_decreases() {
    let first = net_down_kb(&vec![5000, 100]);
    let second = net_down_kb(&vec![9000, 100]);
    let third = net_down_kb(&vec![9000, 3000]);
    assert_eq!(first, 4);
    assert_eq!(second, 8);
    assert_eq!(third, 11);
    assert!(first <= second && second <= third);
}

#[test]
fn disk_percent_of_root_volume() {
    assert_eq!(disk_percent(&vec![disk("/", 1000, 250)]), 75);
}

#[test]
fn disk_percent_truncates() {
    assert_eq!(disk_percent(&vec![disk("/", 3, 1)]), 66);
    assert_eq!(disk_percent(&vec![disk("/", 1000, 1000)]), 0);
    assert_eq!(disk_percent(&vec![disk("/", 1000, 0)]), 100);
}

#[test]
fn disk_percent_zero_without_primary_volume() {
    assert_eq!(disk_percent(&vec![]), 0);
    assert_eq!(disk_percent(&vec![disk("/home", 1000, 10), disk("D:\\", 500, 0)]), 0);
}

#[test]
fn disk_percent_falls_back_to_system_drive() {
    let disks = vec![disk("D:\\", 100, 0), disk("C:\\", 200, 50)];
    assert_eq!(primary_disk(&disks), Some(1));
    assert_eq!(disk_percent(&disks), 75);
}

#[test]
fn disk_percent_prefers_first_root_mount() {
    let disks = vec![disk("C:\\", 100, 0), disk("/", 200, 100), disk("/", 100, 100)];
    assert_eq!(primary_disk(&disks), Some(1));
    assert_eq!(disk_percent(&disks), 50);
}

#[test]
fn disk_percent_largest_sizes() {
    assert_eq!(disk_percent(&vec![disk("/", u64::MAX, 0)]), 100);
    assert_eq!(disk_percent(&vec![disk("/", u64::MAX, u64::MAX / 2)]), 50);
}
