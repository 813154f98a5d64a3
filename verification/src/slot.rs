//! The slot that holds the host's one monitor, and the two operations a host
//! calls: `init` and `get_sys_stats`.
//!
//! A host that cannot keep a handle of its own keeps one slot for the whole
//! of its run. The slot starts empty; `init` fills it, and fills it anew when
//! called again. The caller reads the machine and hands the readings over.

use crate::config::Config;
use crate::monitor::{Readings, SysMonState, SysMonView};
use vstd::prelude::*;
use vstd::string::StringExecFns;

verus! {

/// Why a status line could not be had.
#[derive(Clone, Copy, Debug, PartialEq, Eq, Structural)]
pub enum SysMonError {
    /// The slot holds no monitor: `init` has not been called on it.
    NotInitialized,
}

impl SysMonError {
    /// The error's message, as it is shown to the host.
    pub open spec fn message_text(self) -> Seq<char> {
        match self {
            SysMonError::NotInitialized => "System monitor not initialized"@,
        }
    }

    /// The error's message.
    pub fn message(&self) -> (text: String)
        ensures
            text@ == self.message_text(),
    {
        match self {
            SysMonError::NotInitialized => String::from_str("System monitor not initialized"),
        }
    }
}

/// A slot for one monitor: empty, or ready with the monitor in it.
pub struct SysMon {
    state: Option<SysMonState>,
}

impl View for SysMon {
    type V = Option<SysMonView>;

    closed spec fn view(&self) -> Option<SysMonView> {
        match self.state {
            Some(state) => Some(state@),
            None => None,
        }
    }
}

/// The slot after one reading of each metric: an empty slot stays empty.
pub open spec fn sampled(slot: Option<SysMonView>, readings: Readings) -> Option<SysMonView> {
    match slot {
        Some(monitor) => Some(monitor.refreshed(readings)),
        None => None,
    }
}

/// What a slot answers when asked for its status line.
pub open spec fn stats(slot: Option<SysMonView>) -> Result<Seq<char>, SysMonError> {
    match slot {
        Some(monitor) => Ok(monitor.status_line()),
        None => Err(SysMonError::NotInitialized),
    }
}

/// Whether `result` holds the text or the error that `expected` holds.
pub open spec fn answers(
    result: Result<String, SysMonError>,
    expected: Result<Seq<char>, SysMonError>,
) -> bool {
    match result {
        Ok(line) => expected == Ok::<Seq<char>, SysMonError>(line@),
        Err(error) => expected == Err::<Seq<char>, SysMonError>(error),
    }
}

impl SysMon {
    /// Whether every text of the monitor in the slot, if there is one, is
    /// empty or was rendered under that monitor's preferences.
    pub open spec fn wf(self) -> bool {
        self@ matches Some(monitor) ==> monitor.wf()
    }

    /// An empty slot.
    pub fn new() -> (slot: SysMon)
        ensures
            slot@ is None,
    {
        SysMon { state: None }
    }

    /// Whether the slot holds a monitor.
    pub fn is_initialized(&self) -> (ready: bool)
        ensures
            ready == (self@ is Some),
    {
        self.state.is_some()
    }
}

/// Puts a new monitor with the given preferences into the slot, in place of
/// the one that may have been there. It never fails.
pub fn init(slot: &mut SysMon, update_interval: u64, use_icons: bool) -> (result: Result<
    (),
    SysMonError,
>)
    ensures
        result is Ok,
        final(slot)@ == Some(SysMonView::initial((Config { update_interval, use_icons }))),
        final(slot).wf(),
{
    let config = Config { update_interval, use_icons };
    slot.state = Some(SysMonState::new(config));
    Ok(())
}

/// Says whether a status line can be had from the slot: `NotInitialized` if
/// it is empty. A caller asks this before it reads the machine, so that
/// nothing is read for an empty slot.
pub fn check_initialized(slot: &SysMon) -> (result: Result<(), SysMonError>)
    ensures
        result is Ok <==> slot@ is Some,
        result is Err ==> result == Err::<(), SysMonError>(SysMonError::NotInitialized),
{
    if slot.state.is_some() {
        Ok(())
    } else {
        Err(SysMonError::NotInitialized)
    }
}

/// Has the monitor in the slot render the given readings, and returns its
/// status line. An empty slot is left as it was and answers `NotInitialized`,
/// whatever the readings.
pub fn get_sys_stats(slot: &mut SysMon, readings: &Readings) -> (result: Result<
    String,
    SysMonError,
>)
    ensures
        final(slot)@ == sampled(old(slot)@, *readings),
        answers(result, stats(final(slot)@)),
        result is Ok <==> old(slot)@ is Some,
        old(slot).wf() ==> final(slot).wf(),
{
    match &mut slot.state {
        Some(state) => {
            state.update_all(readings);
            Ok(state.status_line())
        },
        None => Err(SysMonError::NotInitialized),
    }
}

} // verus!
