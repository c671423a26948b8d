use crate::service::{STATE_RUNNING, STATE_STOPPED};
use vstd::prelude::*;

verus! {

/// `SERVICE_CONTROL_STOP`.
pub const CONTROL_STOP: u32 = 1;
/// `SERVICE_CONTROL_PAUSE`.
pub const CONTROL_PAUSE: u32 = 2;
/// `SERVICE_CONTROL_CONTINUE`.
pub const CONTROL_CONTINUE: u32 = 3;
/// `SERVICE_CONTROL_SHUTDOWN`.
pub const CONTROL_SHUTDOWN: u32 = 5;
/// `SERVICE_CONTROL_PRESHUTDOWN`.
pub const CONTROL_PRESHUTDOWN: u32 = 0xF;

/// `SERVICE_ACCEPT_STOP`.
pub const ACCEPT_STOP: u32 = 0x1;
/// `SERVICE_ACCEPT_PAUSE_CONTINUE`.
pub const ACCEPT_PAUSE_CONTINUE: u32 = 0x2;
/// `SERVICE_ACCEPT_SHUTDOWN`.
pub const ACCEPT_SHUTDOWN: u32 = 0x4;
/// `SERVICE_ACCEPT_PRESHUTDOWN`.
pub const ACCEPT_PRESHUTDOWN: u32 = 0x100;

/// `SERVICE_WIN32_OWN_PROCESS`.
pub const SERVICE_WIN32_OWN_PROCESS: u32 = 0x10;

/// The controls the service declares: stop, pause and continue, shutdown and
/// preshutdown.
pub const CONTROLS_ACCEPTED: u32 = 0x107;

/// The status record reported to the service manager.
#[derive(Debug, Clone, Copy, PartialEq, Eq, Structural)]
pub struct StatusRecord {
    pub service_type: u32,
    pub current_state: u32,
    pub controls_accepted: u32,
    pub win32_exit_code: u32,
    pub service_specific_exit_code: u32,
    pub check_point: u32,
    pub wait_hint: u32,
}

/// The record of an own-process service in `state`, accepting the declared
/// controls.
pub open spec fn record_in(state: u32) -> StatusRecord {
    StatusRecord {
        service_type: SERVICE_WIN32_OWN_PROCESS,
        current_state: state,
        controls_accepted: CONTROLS_ACCEPTED,
        win32_exit_code: 0,
        service_specific_exit_code: 0,
        check_point: 0,
        wait_hint: 0,
    }
}

/// The record of an own-process service in `state`, accepting the declared
/// controls.
pub fn status_record(state: u32) -> (r: StatusRecord)
    ensures
        r == record_in(state),
{
    assert(0x1u32 | 0x2u32 | 0x4u32 | 0x100u32 == 0x107u32) by (bit_vector);
    StatusRecord {
        service_type: SERVICE_WIN32_OWN_PROCESS,
        current_state: state,
        controls_accepted: ACCEPT_STOP | ACCEPT_PAUSE_CONTINUE | ACCEPT_SHUTDOWN
            | ACCEPT_PRESHUTDOWN,
        win32_exit_code: 0,
        service_specific_exit_code: 0,
        check_point: 0,
        wait_hint: 0,
    }
}

/// Where the service process stands.
#[derive(Debug, Clone, Copy, PartialEq, Eq, Structural)]
pub enum Phase {
    NotStarted,
    Running,
    Stopped,
}

/// A status report to make: the record, on the handle the service manager
/// gave when the control handler was registered.
#[derive(Debug, Clone, Copy, PartialEq, Eq, Structural)]
pub struct Report {
    pub handle: isize,
    pub record: StatusRecord,
}

/// What a control code asks of the host: the process to terminate and close,
/// then the report to make, in that order.
#[derive(Debug, Clone, Copy, PartialEq, Eq, Structural)]
pub struct ControlAction {
    pub terminate: Option<isize>,
    pub report: Option<Report>,
}

/// The state shared by the service's entry routine and its control handler.
pub struct DispatcherModel {
    pub phase: Phase,
    pub status_handle: Option<isize>,
    pub record: StatusRecord,
    pub desktop_process: Option<isize>,
}

/// The codes that stop the service.
pub open spec fn stops(control: u32) -> bool {
    control == CONTROL_STOP || control == CONTROL_SHUTDOWN || control == CONTROL_PRESHUTDOWN
}

impl DispatcherModel {
    pub open spec fn wf(self) -> bool {
        &&& self.phase == Phase::NotStarted ==> self.status_handle is None
            && self.desktop_process is None
        &&& self.phase != Phase::NotStarted ==> self.status_handle is Some
        &&& self.phase == Phase::Stopped ==> self.desktop_process is None
    }

    /// The state after the control handler's registration, and the report to
    /// make; none when registration failed or the entry already ran.
    pub open spec fn entered(self, registration: Result<isize, u32>) -> (
        DispatcherModel,
        Option<Report>,
    ) {
        match registration {
            Ok(h) if self.phase == Phase::NotStarted => (
                DispatcherModel {
                    phase: Phase::Running,
                    status_handle: Some(h),
                    record: record_in(STATE_RUNNING),
                    ..self
                },
                Some(Report { handle: h, record: record_in(STATE_RUNNING) }),
            ),
            _ => (self, None),
        }
    }

    /// The state after a launch, and the process to terminate at once: a
    /// process launched after the service stopped, or a stray second one.
    pub open spec fn launched(self, process: Option<isize>) -> (DispatcherModel, Option<isize>) {
        if self.phase == Phase::Running && self.desktop_process is None {
            (DispatcherModel { desktop_process: process, ..self }, None)
        } else {
            (self, process)
        }
    }

    /// The state after a control code, and what it asks of the host.
    pub open spec fn controlled(self, control: u32) -> (DispatcherModel, ControlAction) {
        if stops(control) && self.phase == Phase::Running {
            let record = StatusRecord { current_state: STATE_STOPPED, ..self.record };
            (
                DispatcherModel {
                    phase: Phase::Stopped,
                    record,
                    desktop_process: None,
                    ..self
                },
                ControlAction {
                    terminate: self.desktop_process,
                    report: Some(Report { handle: self.status_handle.unwrap(), record }),
                },
            )
        } else {
            (self, ControlAction { terminate: None, report: None })
        }
    }
}

/// The service process's dispatcher state.
pub struct Dispatcher {
    phase: Phase,
    status_handle: Option<isize>,
    record: StatusRecord,
    desktop_process: Option<isize>,
}

impl View for Dispatcher {
    type V = DispatcherModel;

    closed spec fn view(&self) -> DispatcherModel {
        DispatcherModel {
            phase: self.phase,
            status_handle: self.status_handle,
            record: self.record,
            desktop_process: self.desktop_process,
        }
    }
}

impl Dispatcher {
    #[verifier::type_invariant]
    closed spec fn inv(&self) -> bool {
        self@.wf()
    }

    /// The state before the entry routine runs.
    pub fn new() -> (r: Dispatcher)
        ensures
            r@.phase == Phase::NotStarted,
            r@.status_handle is None,
            r@.desktop_process is None,
    {
        Dispatcher {
            phase: Phase::NotStarted,
            status_handle: None,
            record: status_record(STATE_STOPPED),
            desktop_process: None,
        }
    }

    /// Records the outcome of registering the control handler. Returns the
    /// running status to report, or `None`: then the entry routine ends
    /// without reporting anything.
    pub fn enter(&mut self, registration: Result<isize, u32>) -> (r: Option<Report>)
        ensures
            (final(self)@, r) == old(self)@.entered(registration),
    {
        proof {
            use_type_invariant(&*self);
        }
        match registration {
            Ok(h) => {
                if self.phase == Phase::NotStarted {
                    let record = status_record(STATE_RUNNING);
                    *self = Dispatcher {
                        phase: Phase::Running,
                        status_handle: Some(h),
                        record,
                        desktop_process: None,
                    };
                    Some(Report { handle: h, record })
                } else {
                    None
                }
            },
            Err(_) => None,
        }
    }

    /// Whether to launch the desktop program, once the running status was
    /// reported (`accepted`: the service manager took the report).
    pub fn should_launch(&self, accepted: bool) -> (r: bool)
        ensures
            r == (accepted && self@.phase == Phase::Running && self@.desktop_process is None),
    {
        accepted && self.phase == Phase::Running && self.desktop_process.is_none()
    }

    /// Records the process the launch created, if any. Returns a process to
    /// terminate at once: one that came after the service stopped.
    pub fn launched(&mut self, process: Option<isize>) -> (r: Option<isize>)
        ensures
            (final(self)@, r) == old(self)@.launched(process),
    {
        proof {
            use_type_invariant(&*self);
        }
        if self.phase == Phase::Running && self.desktop_process.is_none() {
            self.desktop_process = process;
            None
        } else {
            process
        }
    }

    /// Handles a control code. Stop, shutdown and preshutdown stop a running
    /// service: the desktop process, if any, is handed back once to be
    /// terminated, and the stopped status to be reported. Pause, continue and
    /// other codes change nothing.
    pub fn control(&mut self, control: u32) -> (r: ControlAction)
        ensures
            (final(self)@, r) == old(self)@.controlled(control),
    {
        proof {
            use_type_invariant(&*self);
        }
        let stopping = control == CONTROL_STOP || control == CONTROL_SHUTDOWN || control
            == CONTROL_PRESHUTDOWN;
        if stopping && self.phase == Phase::Running {
            let handle = match self.status_handle {
                Some(h) => h,
                None => 0,
            };
            let record = StatusRecord { current_state: STATE_STOPPED, ..self.record };
            let terminate = self.desktop_process;
            *self = Dispatcher {
                phase: Phase::Stopped,
                status_handle: Some(handle),
                record,
                desktop_process: None,
            };
            ControlAction { terminate, report: Some(Report { handle, record }) }
        } else {
            ControlAction { terminate: None, report: None }
        }
    }

    /// The current phase.
    pub fn phase(&self) -> (r: Phase)
        ensures
            r == self@.phase,
    {
        self.phase
    }
}

/// However two control codes arrive one after the other, at most one of them
/// terminates a process, and it is the recorded desktop process; afterwards
/// no process is recorded.
pub proof fn lemma_stop_terminates_once(m: DispatcherModel, first: u32, second: u32)
    requires
        m.wf(),
    ensures
        ({
            let (m1, a1) = m.controlled(first);
            let (m2, a2) = m1.controlled(second);
            &&& a1.terminate is None || a2.terminate is None
            &&& a1.terminate is Some ==> a1.terminate == m.desktop_process
            &&& a2.terminate is Some ==> a2.terminate == m.desktop_process
            &&& stops(first) ==> m2.desktop_process is None
        }),
{
}

/// A stopped service launches nothing: a process created after the stop is
/// handed straight back to be terminated.
pub proof fn lemma_launch_after_stop(m: DispatcherModel, control: u32, process: Option<isize>)
    requires
        m.wf(),
        stops(control),
    ensures
        m.controlled(control).0.launched(process).1 == process,
        m.controlled(control).0.launched(process).0.desktop_process is None,
{
}

} // verus!
