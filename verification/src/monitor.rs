//! The monitor: its preferences and the three texts it rendered last.
//!
//! The monitor does not read the machine. Its caller does, and hands it the
//! readings; from them the monitor renders its texts.

use crate::binary32::Binary32;
use crate::config::Config;
use crate::host::{sensor_count, sensor_reading, sensor_readings};
use crate::render::{
    cpu_text, is_cpu_text, is_mem_text, is_temp_text, mem_text, render_cpu, render_mem,
    render_temp, separator, temp_text,
};
use sysinfo::Components;
use vstd::prelude::*;
use vstd::string::StringExecFns;

verus! {

/// One reading of each metric.
#[derive(Clone, Copy, Debug, PartialEq, Eq, Structural)]
pub struct Readings {
    /// Load over all processors, in percent.
    pub cpu_usage: Binary32,
    /// Physical memory in use, as the machine reports it.
    pub mem_used: u64,
    /// Size of physical memory, as the machine reports it.
    pub mem_total: u64,
    /// Temperature of the first thermal sensor in degrees Celsius; none where
    /// the machine has no sensor.
    pub temp: Option<Binary32>,
}

/// The first of the given readings, if there is any.
pub open spec fn first_of(readings: Seq<Binary32>) -> Option<Binary32> {
    if readings.len() == 0 {
        None
    } else {
        Some(readings[0])
    }
}

/// The reading of the first sensor in the list, if the list has any.
pub fn first_temperature(components: &Components) -> (first: Option<Binary32>)
    ensures
        first == first_of(sensor_readings(*components)),
{
    if sensor_count(components) > 0 {
        Some(sensor_reading(components, 0))
    } else {
        None
    }
}

/// What a monitor holds.
pub struct SysMonView {
    pub config: Config,
    pub cpu: Seq<char>,
    pub mem: Seq<char>,
    pub temp: Seq<char>,
}

impl SysMonView {
    /// A monitor that has rendered nothing yet.
    pub open spec fn initial(config: Config) -> SysMonView {
        SysMonView { config, cpu: Seq::empty(), mem: Seq::empty(), temp: Seq::empty() }
    }

    /// The monitor after it has rendered the processor load `usage`.
    pub open spec fn with_cpu(self, usage: Binary32) -> SysMonView {
        SysMonView { cpu: cpu_text(self.config.use_icons, usage), ..self }
    }

    /// The monitor after it has rendered the memory figures `used` and
    /// `total`.
    pub open spec fn with_mem(self, used: u64, total: u64) -> SysMonView {
        SysMonView { mem: mem_text(self.config.use_icons, used, total), ..self }
    }

    /// The monitor after a look for a temperature: with a reading the text is
    /// rendered anew, without one it stays as it was.
    pub open spec fn with_temp(self, first: Option<Binary32>) -> SysMonView {
        match first {
            Some(celsius) => SysMonView {
                temp: temp_text(self.config.use_icons, celsius),
                ..self
            },
            None => self,
        }
    }

    /// The monitor after one reading of each metric.
    pub open spec fn refreshed(self, readings: Readings) -> SysMonView {
        self.with_cpu(readings.cpu_usage).with_mem(readings.mem_used, readings.mem_total).with_temp(
            readings.temp,
        )
    }

    /// The three texts in the order processor, memory, temperature, with a
    /// separator between neighbours.
    pub open spec fn status_line(self) -> Seq<char> {
        self.cpu + separator() + self.mem + separator() + self.temp
    }

    /// Every text is empty or was rendered under the monitor's own
    /// preferences.
    pub open spec fn wf(self) -> bool {
        &&& self.cpu.len() == 0 || is_cpu_text(self.config.use_icons, self.cpu)
        &&& self.mem.len() == 0 || is_mem_text(self.config.use_icons, self.mem)
        &&& self.temp.len() == 0 || is_temp_text(self.config.use_icons, self.temp)
    }
}

/// A system monitor: its preferences, and the text it rendered last for each
/// metric.
pub struct SysMonState {
    config: Config,
    cpu: String,
    mem: String,
    temp: String,
}

impl View for SysMonState {
    type V = SysMonView;

    closed spec fn view(&self) -> SysMonView {
        SysMonView { config: self.config, cpu: self.cpu@, mem: self.mem@, temp: self.temp@ }
    }
}

impl SysMonState {
    /// A monitor with the given preferences that has rendered nothing yet.
    pub fn new(config: Config) -> (state: SysMonState)
        ensures
            state@ == SysMonView::initial(config),
            state@.wf(),
    {
        SysMonState { config, cpu: String::new(), mem: String::new(), temp: String::new() }
    }

    /// Renders the processor load `usage` in place of the last one.
    pub fn update_cpu_usage(&mut self, usage: Binary32)
        ensures
            final(self)@ == old(self)@.with_cpu(usage),
            old(self)@.wf() ==> final(self)@.wf(),
    {
        self.cpu = render_cpu(self.config.use_icons, usage);
    }

    /// Renders the memory figures `used` and `total`, as the machine reports
    /// them, in place of the last ones.
    pub fn update_mem_usage(&mut self, used: u64, total: u64)
        ensures
            final(self)@ == old(self)@.with_mem(used, total),
            old(self)@.wf() ==> final(self)@.wf(),
    {
        self.mem = render_mem(self.config.use_icons, used, total);
    }

    /// Renders the temperature `first` in place of the last one, if there is
    /// one; on a machine without a thermal sensor the text stays as it was.
    pub fn update_temp(&mut self, first: Option<Binary32>)
        ensures
            final(self)@ == old(self)@.with_temp(first),
            old(self)@.wf() ==> final(self)@.wf(),
    {
        if let Some(celsius) = first {
            self.temp = render_temp(self.config.use_icons, celsius);
        }
    }

    /// Renders one reading of each metric, in the order processor, memory,
    /// temperature.
    pub fn update_all(&mut self, readings: &Readings)
        ensures
            final(self)@ == old(self)@.refreshed(*readings),
            old(self)@.wf() ==> final(self)@.wf(),
    {
        self.update_cpu_usage(readings.cpu_usage);
        self.update_mem_usage(readings.mem_used, readings.mem_total);
        self.update_temp(readings.temp);
    }

    /// The monitor's preferences.
    pub fn config(&self) -> (config: Config)
        ensures
            config == self@.config,
    {
        self.config
    }

    /// The text rendered last for the processor load; empty before the first.
    pub fn cpu(&self) -> (text: &str)
        ensures
            text@ == self@.cpu,
    {
        self.cpu.as_str()
    }

    /// The text rendered last for the memory use; empty before the first.
    pub fn mem(&self) -> (text: &str)
        ensures
            text@ == self@.mem,
    {
        self.mem.as_str()
    }

    /// The text rendered last for the temperature; empty as long as no
    /// thermal sensor was found.
    pub fn temp(&self) -> (text: &str)
        ensures
            text@ == self@.temp,
    {
        self.temp.as_str()
    }

    /// The status line: the three texts, joined by separators.
    pub fn status_line(&self) -> (line: String)
        ensures
            line@ == self@.status_line(),
    {
        let mut line = self.cpu.clone();
        line.append(" | ");
        line.append(self.mem.as_str());
        line.append(" | ");
        line.append(self.temp.as_str());
        line
    }
}

} // verus!
