use sysmon::binary32::Binary32;
use sysmon::monitor::Readings;
use sysmon::slot::{check_initialized, get_sys_stats, init, SysMon, SysMonError};

fn value(x: f32) -> Binary32 {
    Binary32::from_bits(x.to_bits())
}

fn readings(cpu: f32, used: u64, total: u64, temp: Option<f32>) -> Readings {
    Readings { cpu_usage: value(cpu), mem_used: used, mem_total: total, temp: temp.map(value) }
}

const UNIT: u64 = 1024 * 1024;

fn segments(line: &str) -> Vec<String> {
    line.split(" | ").map(|part| part.to_string()).collect()
}

#[test]
fn a_new_slot_is_empty() {
    let slot = SysMon::new();
    assert!(!slot.is_initialized());
    assert_eq!(check_initialized(&slot), Err(SysMonError::NotInitialized));
}

#[test]
fn get_sys_stats_before_init_fails() {
    let mut slot = SysMon::new();
    let result = get_sys_stats(&mut slot, &readings(1.0, UNIT, 2 * UNIT, Some(30.0)));
    assert_eq!(result, Err(SysMonError::NotInitialized));
    assert_eq!(result.unwrap_err().message(), "System monitor not initialized");
    assert!(!slot.is_initialized());
}

#[test]
fn get_sys_stats_before_init_fails_every_time() {
    let mut slot = SysMon::new();
    let mut round: u32 = 0;
    while round < 5 {
        let result = get_sys_stats(&mut slot, &readings(1.0, UNIT, 2 * UNIT, None));
        assert_eq!(result, Err(SysMonError::NotInitialized));
        round += 1;
    }
}

#[test]
fn init_always_succeeds() {
    let mut slot = SysMon::new();
    assert_eq!(init(&mut slot, 0, false), Ok(()));
    assert!(slot.is_initialized());
    assert_eq!(check_initialized(&slot), Ok(()));
    assert_eq!(init(&mut slot, u64::MAX, true), Ok(()));
    assert!(slot.is_initialized());
}

#[test]
fn get_sys_stats_after_init_has_two_separators() {
    let mut slot = SysMon::new();
    init(&mut slot, 2000, false).unwrap();
    let line = get_sys_stats(&mut slot, &readings(0.5, UNIT, 2 * UNIT, Some(-1.5))).unwrap();
    assert_eq!(line.matches(" | ").count(), 2);
    let parts = segments(&line);
    assert_eq!(parts.len(), 3);
    assert!(parts[0].starts_with("CPU: "));
    assert!(parts[1].starts_with("Mem: "));
    assert!(parts[2].starts_with("Temp: "));
}

#[test]
fn get_sys_stats_without_a_sensor_has_two_separators() {
    let mut slot = SysMon::new();
    init(&mut slot, 2000, false).unwrap();
    let line = get_sys_stats(&mut slot, &readings(0.5, UNIT, 2 * UNIT, None)).unwrap();
    assert_eq!(line.matches(" | ").count(), 2);
    let parts = segments(&line);
    assert_eq!(parts.len(), 3);
    assert!(parts[0].starts_with("CPU: "));
    assert!(parts[1].starts_with("Mem: "));
    assert_eq!(parts[2], "");
}

#[test]
fn get_sys_stats_with_icons_has_no_text_labels() {
    let mut slot = SysMon::new();
    init(&mut slot, 2000, true).unwrap();
    let line = get_sys_stats(&mut slot, &readings(0.5, UNIT, 2 * UNIT, Some(20.0))).unwrap();
    assert_eq!(line.matches(" | ").count(), 2);
    for part in segments(&line) {
        assert!(!part.starts_with("CPU: "));
        assert!(!part.starts_with("Mem: "));
        assert!(!part.starts_with("Temp: "));
    }
}

#[test]
fn get_sys_stats_joins_the_three_texts() {
    let mut slot = SysMon::new();
    init(&mut slot, 2000, false).unwrap();
    let line = get_sys_stats(&mut slot, &readings(12.34, 4_194_304, 16_777_216, Some(55.5)));
    assert_eq!(line.unwrap(), "CPU: 12.34% | Mem: 4.00/16.00 GB | Temp: 55.50\u{b0}C");
}

#[test]
fn init_again_changes_the_style_of_the_next_line() {
    let mut slot = SysMon::new();
    init(&mut slot, 2000, false).unwrap();
    let plain = get_sys_stats(&mut slot, &readings(1.0, UNIT, 2 * UNIT, Some(30.0)));
    assert_eq!(plain.unwrap(), "CPU: 1.00% | Mem: 1.00/2.00 GB | Temp: 30.00\u{b0}C");
    init(&mut slot, 2000, true).unwrap();
    let icons = get_sys_stats(&mut slot, &readings(1.0, UNIT, 2 * UNIT, Some(30.0)));
    assert_eq!(
        icons.unwrap(),
        "\u{f4bc} 1.00% | \u{efc5} 1.00/2.00 GB | \u{f2ca} 30.00\u{b0}C"
    );
    init(&mut slot, 2000, false).unwrap();
    let back = get_sys_stats(&mut slot, &readings(1.0, UNIT, 2 * UNIT, None));
    assert_eq!(back.unwrap(), "CPU: 1.00% | Mem: 1.00/2.00 GB | ");
}

#[test]
fn init_again_discards_the_old_temperature() {
    let mut slot = SysMon::new();
    init(&mut slot, 2000, false).unwrap();
    get_sys_stats(&mut slot, &readings(1.0, UNIT, 2 * UNIT, Some(30.0))).unwrap();
    init(&mut slot, 2000, true).unwrap();
    let line = get_sys_stats(&mut slot, &readings(1.0, UNIT, 2 * UNIT, None)).unwrap();
    assert_eq!(line, "\u{f4bc} 1.00% | \u{efc5} 1.00/2.00 GB | ");
}

#[test]
fn temperature_stays_when_no_sensor_is_found_twice() {
    let mut slot = SysMon::new();
    init(&mut slot, 2000, false).unwrap();
    get_sys_stats(&mut slot, &readings(1.0, UNIT, 2 * UNIT, Some(61.25))).unwrap();
    let first = get_sys_stats(&mut slot, &readings(2.0, UNIT, 2 * UNIT, None)).unwrap();
    let second = get_sys_stats(&mut slot, &readings(3.0, UNIT, 2 * UNIT, None)).unwrap();
    assert_eq!(segments(&first)[2], "Temp: 61.25\u{b0}C");
    assert_eq!(segments(&first)[2], segments(&second)[2]);
    assert_eq!(segments(&second)[0], "CPU: 3.00%");
}

#[test]
fn temperature_stays_empty_when_no_sensor_is_ever_found() {
    let mut slot = SysMon::new();
    init(&mut slot, 2000, false).unwrap();
    let first = get_sys_stats(&mut slot, &readings(2.0, UNIT, 2 * UNIT, None)).unwrap();
    let second = get_sys_stats(&mut slot, &readings(3.0, UNIT, 2 * UNIT, None)).unwrap();
    assert_eq!(segments(&first)[2], "");
    assert_eq!(segments(&second)[2], "");
}

#[test]
fn the_calls_are_reachable_from_the_crate_root() {
    let mut slot = sysmon::SysMon::new();
    assert_eq!(sysmon::check_initialized(&slot), Err(sysmon::SysMonError::NotInitialized));
    assert_eq!(sysmon::init(&mut slot, 250, false), Ok(()));
    let sample = sysmon::Readings {
        cpu_usage: sysmon::Binary32::from_bits(0),
        mem_used: 0,
        mem_total: 0,
        temp: None,
    };
    let line = sysmon::get_sys_stats(&mut slot, &sample).unwrap();
    assert_eq!(line, "CPU: 0.00% | Mem: 0.00/0.00 GB | ");
}
