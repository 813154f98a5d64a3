use sysmon::binary32::Binary32;
use sysmon::config::Config;
use sysmon::monitor::{first_temperature, Readings, SysMonState};

fn value(x: f32) -> Binary32 {
    Binary32::from_bits(x.to_bits())
}

fn readings(cpu: f32, used: u64, total: u64, temp: Option<f32>) -> Readings {
    Readings { cpu_usage: value(cpu), mem_used: used, mem_total: total, temp: temp.map(value) }
}

const UNIT: u64 = 1024 * 1024;

#[test]
fn default_config_is_two_seconds_and_text_labels() {
    let config = Config::default();
    assert_eq!(config.update_interval, 2000);
    assert!(!config.use_icons);
}

#[test]
fn config_new_keeps_its_two_values() {
    let config = Config::new(0, true);
    assert_eq!(config, Config { update_interval: 0, use_icons: true });
}

#[test]
fn new_monitor_has_rendered_nothing() {
    let state = SysMonState::new(Config::new(500, false));
    assert_eq!(state.config(), Config::new(500, false));
    assert_eq!(state.cpu(), "");
    assert_eq!(state.mem(), "");
    assert_eq!(state.temp(), "");
    assert_eq!(state.status_line(), " |  | ");
}

#[test]
fn update_cpu_usage_overwrites_only_the_cpu_text() {
    let mut state = SysMonState::new(Config::default());
    state.update_cpu_usage(value(12.34));
    assert_eq!(state.cpu(), "CPU: 12.34%");
    assert_eq!(state.mem(), "");
    assert_eq!(state.temp(), "");
    state.update_cpu_usage(value(99.0));
    assert_eq!(state.cpu(), "CPU: 99.00%");
}

#[test]
fn update_mem_usage_overwrites_only_the_mem_text() {
    let mut state = SysMonState::new(Config::default());
    state.update_mem_usage(4_194_304, 16_777_216);
    assert_eq!(state.cpu(), "");
    assert_eq!(state.mem(), "Mem: 4.00/16.00 GB");
    assert_eq!(state.temp(), "");
}

#[test]
fn update_temp_without_a_sensor_keeps_the_text() {
    let mut state = SysMonState::new(Config::default());
    state.update_temp(None);
    assert_eq!(state.temp(), "");
    state.update_temp(Some(value(51.0)));
    assert_eq!(state.temp(), "Temp: 51.00\u{b0}C");
    state.update_temp(None);
    assert_eq!(state.temp(), "Temp: 51.00\u{b0}C");
    state.update_temp(None);
    assert_eq!(state.temp(), "Temp: 51.00\u{b0}C");
}

#[test]
fn update_temp_leaves_the_other_texts() {
    let mut state = SysMonState::new(Config::default());
    state.update_cpu_usage(value(1.0));
    state.update_mem_usage(UNIT, 2 * UNIT);
    state.update_temp(Some(value(30.0)));
    assert_eq!(state.cpu(), "CPU: 1.00%");
    assert_eq!(state.mem(), "Mem: 1.00/2.00 GB");
}

#[test]
fn update_all_renders_the_three_texts() {
    let mut state = SysMonState::new(Config::default());
    state.update_all(&readings(3.5, UNIT, 4 * UNIT, Some(40.25)));
    assert_eq!(state.status_line(), "CPU: 3.50% | Mem: 1.00/4.00 GB | Temp: 40.25\u{b0}C");
}

#[test]
fn update_all_with_icons() {
    let mut state = SysMonState::new(Config::new(2000, true));
    state.update_all(&readings(3.5, UNIT, 4 * UNIT, Some(40.25)));
    assert_eq!(
        state.status_line(),
        "\u{f4bc} 3.50% | \u{efc5} 1.00/4.00 GB | \u{f2ca} 40.25\u{b0}C"
    );
}

#[test]
fn status_line_without_a_sensor_ends_in_a_separator() {
    let mut state = SysMonState::new(Config::default());
    state.update_all(&readings(3.5, UNIT, 4 * UNIT, None));
    assert_eq!(state.status_line(), "CPU: 3.50% | Mem: 1.00/4.00 GB | ");
}

#[test]
fn first_temperature_of_no_sensor_is_none() {
    let none = sysinfo::Components::new();
    assert_eq!(first_temperature(&none), None);
}

#[test]
fn first_temperature_is_that_of_the_first_sensor_listed() {
    let found = sysinfo::Components::new_with_refreshed_list();
    let first = first_temperature(&found);
    match found.list().first() {
        Some(sensor) => {
            assert_eq!(first.map(|reading| reading.to_bits()), Some(sensor.temperature().to_bits()));
        }
        None => assert_eq!(first, None),
    }
}
