use cpufreq_applet::usage::{
    memory_fields, read_cpu_usage_snapshot, read_memory_usage, CpuJiffies, CpuUsage,
    CpuUsageSnapshot,
};

fn jiffies(vals: [u64; 8]) -> CpuJiffies {
    CpuJiffies::from_fields(&vals).unwrap()
}

#[test]
fn counters_need_eight_fields() {
    assert_eq!(CpuJiffies::from_fields(&[1, 2, 3, 4, 5, 6, 7]), None);
    let j = CpuJiffies::from_fields(&[1, 2, 3, 4, 5, 6, 7, 8, 9, 10]).unwrap();
    assert_eq!(
        j,
        CpuJiffies {
            user: 1,
            nice: 2,
            system: 3,
            idle: 4,
            iowait: 5,
            irq: 6,
            softirq: 7,
            steal: 8,
        }
    );
}

#[test]
fn usage_between_two_readings() {
    let prev = jiffies([100, 10, 50, 1000, 20, 1, 2, 3]);
    let now = jiffies([130, 15, 60, 1100, 25, 2, 4, 6]);
    let usage = now.usage(&prev);
    assert_eq!(usage, CpuUsage { busy: 30 + 5 + 10 + 1 + 2 + 3, idle: 105 });
    assert!(usage.measured());
    let total = usage.busy as f64 + usage.idle as f64;
    assert_eq!(usage.busy as f64 / total * 100.0, 51.0 / 156.0 * 100.0);
}

#[test]
fn equal_readings_show_no_time() {
    let j = jiffies([5, 6, 7, 8, 9, 10, 11, 12]);
    assert_eq!(j.usage(&j), CpuUsage { busy: 0, idle: 0 });
    assert!(!j.usage(&j).measured());
    assert!(CpuUsage { busy: 0, idle: 1 }.measured());
    assert!(CpuUsage { busy: 1, idle: 0 }.measured());
}

#[test]
fn counters_start_over_at_zero() {
    let prev = jiffies([u64::MAX, 0, 0, 10, 5, 0, 0, 0]);
    let now = jiffies([4, 0, 0, 20, 3, 0, 0, 0]);
    assert_eq!(now.usage(&prev), CpuUsage { busy: 5, idle: 8 });
}

const STAT: &str = "cpu  10 20 30 40 50 60 70 80 0 0\n\
cpu0 1 2 3 4 5 6 7 8 0 0\n\
cpu1 9 8 7 6 5 4 3 2 0 0\n\
intr 123 4 5\n\
cpu2 1 1 1 1 1 1 1 1\n";

#[test]
fn snapshot_of_stat() {
    let s = read_cpu_usage_snapshot(Some(STAT)).unwrap();
    assert_eq!(s.aggregate, jiffies([10, 20, 30, 40, 50, 60, 70, 80]));
    assert_eq!(
        s.per_core,
        vec![jiffies([1, 2, 3, 4, 5, 6, 7, 8]), jiffies([9, 8, 7, 6, 5, 4, 3, 2])]
    );
}

#[test]
fn snapshot_skips_short_and_odd_lines() {
    let text = "cpu 1 2 x 3 4 5 6 7 8\ncpu0 1 2 3\ncpu1 1 2 3 4 5 6 7 8\n";
    let s = read_cpu_usage_snapshot(Some(text)).unwrap();
    assert_eq!(s.aggregate, jiffies([1, 2, 3, 4, 5, 6, 7, 8]));
    assert_eq!(s.per_core, vec![jiffies([1, 2, 3, 4, 5, 6, 7, 8])]);
}

#[test]
fn no_snapshot() {
    assert!(read_cpu_usage_snapshot(None).is_none());
    assert!(read_cpu_usage_snapshot(Some("")).is_none());
    assert!(read_cpu_usage_snapshot(Some("cpu0 1 2 3 4 5 6 7 8\n")).is_none());
    assert!(read_cpu_usage_snapshot(Some("cpu 1 2 3\n")).is_none());
    assert!(read_cpu_usage_snapshot(Some("cpu\t1 2 3 4 5 6 7 8\n")).is_none());
    let no_blank = "cpu 1 2 3 4 5 6 7 8\ncpu0\n";
    assert!(read_cpu_usage_snapshot(Some(no_blank)).is_none());
}

#[test]
fn snapshot_of_the_first_line_alone() {
    let s = read_cpu_usage_snapshot(Some("cpu 1 2 3 4 5 6 7 8")).unwrap();
    assert_eq!(s.per_core, vec![]);
}

#[test]
fn usage_of_snapshots() {
    let prev = CpuUsageSnapshot {
        aggregate: jiffies([0; 8]),
        per_core: vec![jiffies([0; 8]), jiffies([1, 0, 0, 0, 0, 0, 0, 0])],
    };
    let now = CpuUsageSnapshot {
        aggregate: jiffies([3, 0, 0, 1, 0, 0, 0, 0]),
        per_core: vec![
            jiffies([1, 0, 0, 1, 0, 0, 0, 0]),
            jiffies([3, 0, 0, 0, 4, 0, 0, 0]),
            jiffies([9; 8]),
        ],
    };
    assert_eq!(now.usage(&prev), CpuUsage { busy: 3, idle: 1 });
    assert_eq!(
        now.per_core_usage(&prev),
        vec![CpuUsage { busy: 1, idle: 1 }, CpuUsage { busy: 2, idle: 4 }]
    );
    assert_eq!(prev.per_core_usage(&now).len(), 2);
}

#[test]
fn memory_in_use() {
    let text = "MemTotal:       16000000 kB\nMemFree: 1 kB\nMemAvailable:   10000000 kB\n";
    assert_eq!(memory_fields(text), (Some(16_000_000), Some(10_000_000)));
    assert_eq!(read_memory_usage(Some(text)), Some((6_000_000, 16_000_000)));
}

#[test]
fn memory_fields_in_any_order() {
    let text = "MemAvailable: 3 kB\nBuffers: 9 kB\nMemTotal: 8 kB\n";
    assert_eq!(read_memory_usage(Some(text)), Some((5, 8)));
}

#[test]
fn memory_lines_behind_the_last_needed_one() {
    let text = "MemTotal: 8 kB\nMemAvailable: 3 kB\nMemTotal: 9 kB\n";
    assert_eq!(memory_fields(text), (Some(8), Some(3)));
    let replaced = "MemTotal: 8 kB\nMemTotal: 9 kB\nMemAvailable: 3 kB\n";
    assert_eq!(memory_fields(replaced), (Some(9), Some(3)));
    let lost = "MemTotal: 8 kB\nMemTotal: 9 MB\nMemAvailable: 3 kB\n";
    assert_eq!(memory_fields(lost), (None, Some(3)));
}

#[test]
fn memory_not_told() {
    assert_eq!(read_memory_usage(None), None);
    assert_eq!(read_memory_usage(Some("")), None);
    assert_eq!(read_memory_usage(Some("MemTotal: 8 kB\n")), None);
    assert_eq!(read_memory_usage(Some("MemAvailable: 8 kB\n")), None);
    assert_eq!(memory_fields("MemTotal: 8\nMemAvailable: x kB\n"), (None, None));
}

#[test]
fn written_counters_read_back() {
    let rows: [[u64; 10]; 3] = [
        [u64::MAX, 0, 1, 22, 333, 4444, 5, 6, 7, 8],
        [1, 2, 3, 4, 5, 6, 7, 8, 9, 10],
        [0, 0, 0, 0, 0, 0, 0, 0, 0, 0],
    ];
    let line = |name: &str, row: &[u64; 10]| {
        let vals: Vec<String> = row.iter().map(|v| format!(" {v}")).collect();
        format!("{name}{}\n", vals.concat())
    };
    let text = line("cpu ", &rows[0])
        + &line("cpu0", &rows[1])
        + &line("cpu5", &rows[2])
        + "intr 1 2\nctxt 3\n";
    let s = read_cpu_usage_snapshot(Some(&text)).unwrap();
    assert_eq!(Some(s.aggregate), CpuJiffies::from_fields(&rows[0]));
    assert_eq!(s.per_core.len(), 2);
    assert_eq!(Some(s.per_core[0]), CpuJiffies::from_fields(&rows[1]));
    assert_eq!(Some(s.per_core[1]), CpuJiffies::from_fields(&rows[2]));
}

#[test]
fn busy_and_idle_make_up_the_time() {
    let prev = jiffies([1, 2, 3, 4, 5, 6, 7, 8]);
    let now = jiffies([10, 20, 30, 40, 50, 60, 70, 80]);
    let usage = now.usage(&prev);
    assert_eq!(usage.busy + usage.idle, 360 - 36);
}
