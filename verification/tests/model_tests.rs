use nm::utils::NumBytes;
use nm::{InterfaceInfo, InterfaceInfoItem, InterfaceStat, InterfaceStats, Message};

fn stat(rx: u64, tx: u64) -> InterfaceStat {
    InterfaceStat {
        rx: NumBytes { bytes: rx },
        tx: NumBytes { bytes: tx },
    }
}

#[test]
fn test_counter_delta_is_exact_when_monotone() {
    // A counter observed as a then b with b >= a yields exactly b - a.
    let a = NumBytes::from_u64(1000);
    let b = NumBytes::from_u64(1500);
    assert_eq!(b.delta(&a).bytes, 500);
    let same = NumBytes::from_u64(42);
    assert_eq!(same.delta(&same).bytes, 0);
    let max = NumBytes::from_u64(u64::MAX);
    assert_eq!(max.delta(&NumBytes::from_u64(0)).bytes, u64::MAX);
}

#[test]
fn test_counter_decrease_reports_zero() {
    // A decreasing raw counter (device reset) is reported as zero
    // traffic for the interval, not as a wrapped value.
    let a = NumBytes::from_u64(1500);
    let b = NumBytes::from_u64(1000);
    assert_eq!(b.delta(&a).bytes, 0);
}

#[test]
fn test_stat_delta_per_counter() {
    let d = stat(1500, 600).delta(&stat(1000, 500));
    assert_eq!(d, stat(500, 100));
}

#[test]
fn test_stats_delta_some_iff_both_some() {
    // The delta at an index is Some exactly when both operands are
    // Some there; otherwise None.
    let cur = InterfaceStats(vec![
        Some(stat(1500, 600)),
        None,
        Some(stat(70, 80)),
        None,
    ]);
    let prev = InterfaceStats(vec![
        Some(stat(1000, 500)),
        Some(stat(1, 2)),
        None,
        None,
    ]);
    let d = cur.delta(&prev);
    assert_eq!(d.0.len(), 4);
    assert_eq!(d.0[0], Some(stat(500, 100)));
    assert_eq!(d.0[1], None);
    assert_eq!(d.0[2], None);
    assert_eq!(d.0[3], None);
}

#[test]
fn test_delta_message_carries_info_and_delta() {
    let info = InterfaceInfo(vec![
        InterfaceInfoItem {
            name: String::from("eth0"),
        },
        InterfaceInfoItem {
            name: String::from("lo"),
        },
    ]);
    let prev = InterfaceStats(vec![Some(stat(1000, 500)), Some(stat(10, 10))]);
    let cur = InterfaceStats(vec![Some(stat(1500, 600)), None]);
    let m = Message::delta_message(&info, &cur, &prev);
    let names: Vec<&str> = m.info.0.iter().map(|i| i.name.as_str()).collect();
    assert_eq!(names, vec!["eth0", "lo"]);
    assert_eq!(m.stats.0, vec![Some(stat(500, 100)), None]);
    assert_eq!(m.stats.0.len(), m.info.0.len());
}

#[test]
fn test_info_clone_is_identical() {
    let info = InterfaceInfo(vec![
        InterfaceInfoItem {
            name: String::from("eth0"),
        },
        InterfaceInfoItem {
            name: String::from("lo"),
        },
    ]);
    assert_eq!(info.clone(), info);
}

#[test]
fn test_stats_delta_of_empty_snapshots() {
    let n = 3;
    let d = InterfaceStats::empty(n).delta(&InterfaceStats::empty(n));
    assert_eq!(d.0.len(), n);
    assert!(d.0.iter().all(|e| e.is_none()));
}
