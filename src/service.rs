use crate::dispatcher::{CONTROL_STOP, SERVICE_WIN32_OWN_PROCESS};
use crate::wide::{utf16_of, wide_name};
use vstd::prelude::*;

verus! {

/// `SERVICE_STOPPED` as reported in a service status record.
pub const STATE_STOPPED: u32 = 1;
/// `SERVICE_START_PENDING`.
pub const STATE_START_PENDING: u32 = 2;
/// `SERVICE_STOP_PENDING`.
pub const STATE_STOP_PENDING: u32 = 3;
/// `SERVICE_RUNNING`.
pub const STATE_RUNNING: u32 = 4;
/// `SERVICE_CONTINUE_PENDING`.
pub const STATE_CONTINUE_PENDING: u32 = 5;
/// `SERVICE_PAUSE_PENDING`.
pub const STATE_PAUSE_PENDING: u32 = 6;
/// `SERVICE_PAUSED`.
pub const STATE_PAUSED: u32 = 7;

/// `ERROR_ACCESS_DENIED`.
pub const ERROR_ACCESS_DENIED: u32 = 5;
/// `ERROR_SERVICE_CANNOT_ACCEPT_CTRL`.
pub const ERROR_SERVICE_CANNOT_ACCEPT_CTRL: u32 = 1061;
/// `ERROR_SERVICE_DOES_NOT_EXIST`.
pub const ERROR_SERVICE_DOES_NOT_EXIST: u32 = 1060;
/// `ERROR_SERVICE_MARKED_FOR_DELETE`.
pub const ERROR_SERVICE_MARKED_FOR_DELETE: u32 = 1072;
/// `ERROR_SERVICE_EXISTS`.
pub const ERROR_SERVICE_EXISTS: u32 = 1073;
/// `ERROR_DUPLICATE_SERVICE_NAME`.
pub const ERROR_DUPLICATE_SERVICE_NAME: u32 = 1078;

/// `SERVICE_AUTO_START`: the service starts with the system.
pub const SERVICE_AUTO_START: u32 = 2;
/// `SERVICE_ERROR_NORMAL`: a start failure is logged and startup goes on.
pub const SERVICE_ERROR_NORMAL: u32 = 1;
/// `SERVICE_ALL_ACCESS`.
pub const SERVICE_ALL_ACCESS: u32 = 0xF01FF;

/// The state of the service as the management window presents it.
#[derive(Debug, Clone, Copy, PartialEq, Eq, Structural)]
pub enum ServiceStatus {
    Querying,
    Running,
    Stopped,
    DoesNotExist,
    Unknown,
}

/// Why a service-control request failed.
#[derive(Debug, Clone, Copy, PartialEq, Eq, Structural)]
pub enum ErrorKind {
    Unauthorized,
    NotFound,
    AlreadyExists,
    Busy,
    Unknown,
}

/// The status that an OS-reported service state collapses to.
pub open spec fn status_of(state: u32) -> ServiceStatus {
    if state == STATE_RUNNING || state == STATE_START_PENDING || state == STATE_CONTINUE_PENDING {
        ServiceStatus::Running
    } else if state == STATE_STOPPED || state == STATE_PAUSED || state == STATE_STOP_PENDING
        || state == STATE_PAUSE_PENDING {
        ServiceStatus::Stopped
    } else {
        ServiceStatus::Unknown
    }
}

/// The kind of failure that an OS error code stands for.
pub open spec fn kind_of(code: u32) -> ErrorKind {
    if code == ERROR_ACCESS_DENIED {
        ErrorKind::Unauthorized
    } else if code == ERROR_SERVICE_DOES_NOT_EXIST {
        ErrorKind::NotFound
    } else if code == ERROR_SERVICE_EXISTS || code == ERROR_DUPLICATE_SERVICE_NAME {
        ErrorKind::AlreadyExists
    } else if code == ERROR_SERVICE_MARKED_FOR_DELETE || code == ERROR_SERVICE_CANNOT_ACCEPT_CTRL {
        ErrorKind::Busy
    } else {
        ErrorKind::Unknown
    }
}

/// The kind of failure that opening the service reports for an OS error code.
pub open spec fn open_kind_of(code: u32) -> ErrorKind {
    if code == ERROR_ACCESS_DENIED {
        ErrorKind::Unauthorized
    } else if code == ERROR_SERVICE_DOES_NOT_EXIST {
        ErrorKind::NotFound
    } else {
        ErrorKind::Unknown
    }
}

/// Maps an OS error code from opening the manager or the service to an
/// [`ErrorKind`]: missing, refused, or unknown.
pub fn open_error_kind(code: u32) -> (r: ErrorKind)
    ensures
        r == open_kind_of(code),
{
    if code == ERROR_ACCESS_DENIED {
        ErrorKind::Unauthorized
    } else if code == ERROR_SERVICE_DOES_NOT_EXIST {
        ErrorKind::NotFound
    } else {
        ErrorKind::Unknown
    }
}

/// Collapses an OS-reported service state into a [`ServiceStatus`].
pub fn status_from_state(state: u32) -> (r: ServiceStatus)
    ensures
        r == status_of(state),
{
    match state {
        STATE_RUNNING | STATE_START_PENDING | STATE_CONTINUE_PENDING => ServiceStatus::Running,
        STATE_STOPPED | STATE_PAUSED | STATE_STOP_PENDING | STATE_PAUSE_PENDING => ServiceStatus::Stopped,
        _ => ServiceStatus::Unknown,
    }
}

/// Maps an OS error code to an [`ErrorKind`].
pub fn error_kind(code: u32) -> (r: ErrorKind)
    ensures
        r == kind_of(code),
{
    if code == ERROR_ACCESS_DENIED {
        ErrorKind::Unauthorized
    } else if code == ERROR_SERVICE_DOES_NOT_EXIST {
        ErrorKind::NotFound
    } else if code == ERROR_SERVICE_EXISTS || code == ERROR_DUPLICATE_SERVICE_NAME {
        ErrorKind::AlreadyExists
    } else if code == ERROR_SERVICE_MARKED_FOR_DELETE || code == ERROR_SERVICE_CANNOT_ACCEPT_CTRL {
        ErrorKind::Busy
    } else {
        ErrorKind::Unknown
    }
}

impl ServiceStatus {
    /// The status's name as shown to the user.
    pub fn as_text(&self) -> (r: &'static str)
        ensures
            r@ == status_text(*self),
    {
        match self {
            ServiceStatus::Querying => "Querying",
            ServiceStatus::Running => "Running",
            ServiceStatus::Stopped => "Stopped",
            ServiceStatus::DoesNotExist => "Does Not Exist",
            ServiceStatus::Unknown => "Unknown",
        }
    }
}

/// The text shown for each status.
pub open spec fn status_text(s: ServiceStatus) -> Seq<char> {
    match s {
        ServiceStatus::Querying => "Querying"@,
        ServiceStatus::Running => "Running"@,
        ServiceStatus::Stopped => "Stopped"@,
        ServiceStatus::DoesNotExist => "Does Not Exist"@,
        ServiceStatus::Unknown => "Unknown"@,
    }
}

impl Default for ServiceStatus {
    fn default() -> (r: ServiceStatus)
        ensures
            r == ServiceStatus::Unknown,
    {
        ServiceStatus::Unknown
    }
}

/// A connection to the service manager and to one named service in it.
///
/// Handles are owned: whatever a method drops from the record it hands back
/// to the caller to close, and nothing else.
pub struct Service {
    service_name: Vec<u16>,
    manager: Option<isize>,
    service: Option<isize>,
}

/// What the service manager needs to create the service entry.
pub struct CreateRequest {
    pub manager: isize,
    pub service_name: Vec<u16>,
    pub display_name: Vec<u16>,
    pub binary_path: Vec<u16>,
    pub desired_access: u32,
    pub service_type: u32,
    pub start_type: u32,
    pub error_control: u32,
}

/// The error that a failed OS call stands for.
pub open spec fn failure_of<T>(outcome: Option<Result<T, u32>>) -> ErrorKind {
    match outcome {
        Some(Err(code)) => kind_of(code),
        _ => ErrorKind::Unknown,
    }
}

/// The handles that a connection holds, service first.
pub open spec fn held_handles(service: Option<isize>, manager: Option<isize>) -> Seq<isize> {
    let s = match service {
        Some(h) => seq![h],
        None => Seq::empty(),
    };
    match manager {
        Some(h) => s.push(h),
        None => s,
    }
}

/// The status a query reports, given the OS reply to it: `Unknown` when the
/// state could not be read, or no service is open to read it from.
pub open spec fn queried_status(service: Option<isize>, reply: Option<Result<u32, u32>>) -> ServiceStatus {
    if service is None {
        ServiceStatus::Unknown
    } else {
        match reply {
            Some(Ok(state)) => status_of(state),
            _ => ServiceStatus::Unknown,
        }
    }
}

/// The connection and result after deleting the service.
pub open spec fn unregistered(
    service: Option<isize>,
    deleted: Option<Result<(), u32>>,
) -> (Option<isize>, Result<(), ErrorKind>) {
    match service {
        None => (None, Err(ErrorKind::NotFound)),
        Some(h) => match deleted {
            Some(Ok(())) => (None, Ok(())),
            _ => (Some(h), Err(failure_of(deleted))),
        },
    }
}

/// The service handle and result of opening a connection.
pub open spec fn opened(
    manager: Result<isize, u32>,
    service: Option<Result<isize, u32>>,
) -> (Option<isize>, Result<(), ErrorKind>) {
    match manager {
        Err(code) => (None, Err(open_kind_of(code))),
        Ok(_) => match service {
            Some(Ok(h)) => (Some(h), Ok(())),
            Some(Err(code)) => (None, Err(open_kind_of(code))),
            None => (None, Err(ErrorKind::Unknown)),
        },
    }
}

/// The service handle and result after creating the service entry.
pub open spec fn registered(
    service: Option<isize>,
    created: Option<Result<isize, u32>>,
) -> (Option<isize>, Result<(), ErrorKind>) {
    match created {
        Some(Ok(h)) => (Some(h), Ok(())),
        _ => (service, Err(failure_of(created))),
    }
}

impl Service {
    /// The service's name, UTF-16 with a nul terminator.
    pub closed spec fn name_units(&self) -> Seq<u16> {
        self.service_name@
    }

    pub closed spec fn manager_handle(&self) -> Option<isize> {
        self.manager
    }

    pub closed spec fn service_handle(&self) -> Option<isize> {
        self.service
    }

    /// A closed connection to the named service.
    pub fn new(service_name: &str) -> (r: Service)
        ensures
            r.name_units() == utf16_of(service_name@).push(0),
            r.manager_handle() is None,
            r.service_handle() is None,
    {
        Service { service_name: wide_name(service_name), manager: None, service: None }
    }

    /// The service's name, UTF-16 with a nul terminator.
    pub fn service_name(&self) -> (r: &Vec<u16>)
        ensures
            r@ == self.name_units(),
    {
        &self.service_name
    }

    /// The open service handle, on which start, stop, query and delete are made.
    pub fn handle(&self) -> (r: Option<isize>)
        ensures
            r == self.service_handle(),
    {
        self.service
    }

    /// The open manager handle, on which the service is opened or created.
    pub fn manager(&self) -> (r: Option<isize>)
        ensures
            r == self.manager_handle(),
    {
        self.manager
    }

    /// Records a new connection: the outcome of opening the service manager
    /// and, where that succeeded, of opening the service in it. Returns the
    /// result and the superseded handles, which the caller closes.
    pub fn open(&mut self, manager: Result<isize, u32>, service: Option<Result<isize, u32>>) -> (r: (
        Result<(), ErrorKind>,
        Vec<isize>,
    ))
        ensures
            r.1@ == held_handles(old(self).service_handle(), old(self).manager_handle()),
            final(self).name_units() == old(self).name_units(),
            final(self).manager_handle() == manager.ok(),
            (final(self).service_handle(), r.0) == opened(manager, service),
    {
        let mut released: Vec<isize> = Vec::new();
        if let Some(h) = self.service {
            released.push(h);
        }
        if let Some(h) = self.manager {
            released.push(h);
        }
        self.service = None;
        match manager {
            Err(code) => {
                self.manager = None;
                (Err(open_error_kind(code)), released)
            },
            Ok(m) => {
                self.manager = Some(m);
                match service {
                    Some(Ok(h)) => {
                        self.service = Some(h);
                        (Ok(()), released)
                    },
                    Some(Err(code)) => (Err(open_error_kind(code)), released),
                    None => (Err(ErrorKind::Unknown), released),
                }
            },
        }
    }

    /// The request that creates the service entry, or `None` when no manager
    /// connection is open.
    pub fn register_request(&self, display_name: &str, binary_path: &str) -> (r: Option<CreateRequest>)
        ensures
            r.is_some() == self.manager_handle().is_some(),
            r matches Some(q) ==> {
                &&& Some(q.manager) == self.manager_handle()
                &&& q.service_name@ == self.name_units()
                &&& q.display_name@ == utf16_of(display_name@).push(0)
                &&& q.binary_path@ == utf16_of(binary_path@).push(0)
                &&& q.desired_access == SERVICE_ALL_ACCESS
                &&& q.service_type == SERVICE_WIN32_OWN_PROCESS
                &&& q.start_type == SERVICE_AUTO_START
                &&& q.error_control == SERVICE_ERROR_NORMAL
            },
    {
        match self.manager {
            None => None,
            Some(m) => Some(
                CreateRequest {
                    manager: m,
                    service_name: self.service_name.clone(),
                    display_name: wide_name(display_name),
                    binary_path: wide_name(binary_path),
                    desired_access: SERVICE_ALL_ACCESS,
                    service_type: SERVICE_WIN32_OWN_PROCESS,
                    start_type: SERVICE_AUTO_START,
                    error_control: SERVICE_ERROR_NORMAL,
                },
            ),
        }
    }

    /// Records the outcome of creating the service entry (`None`: no call was
    /// made). A created service replaces the open one, whose handle comes back
    /// to be closed.
    pub fn register(&mut self, created: Option<Result<isize, u32>>) -> (r: (Result<(), ErrorKind>, Option<isize>))
        ensures
            (final(self).service_handle(), r.0) == registered(old(self).service_handle(), created),
            r.1 == (if r.0 is Ok { old(self).service_handle() } else { None }),
            final(self).manager_handle() == old(self).manager_handle(),
            final(self).name_units() == old(self).name_units(),
    {
        match created {
            Some(Ok(h)) => {
                let previous = self.service;
                self.service = Some(h);
                (Ok(()), previous)
            },
            Some(Err(code)) => (Err(error_kind(code)), None),
            None => (Err(ErrorKind::Unknown), None),
        }
    }

    /// Records the outcome of marking the service for deletion (`None`: no
    /// call was made). On success the service handle comes back to be closed;
    /// without an open service the result is `NotFound`.
    pub fn unregister(&mut self, deleted: Option<Result<(), u32>>) -> (r: (Result<(), ErrorKind>, Option<isize>))
        ensures
            (final(self).service_handle(), r.0) == unregistered(old(self).service_handle(), deleted),
            r.1 == (if r.0 is Ok { old(self).service_handle() } else { None }),
            final(self).manager_handle() == old(self).manager_handle(),
            final(self).name_units() == old(self).name_units(),
    {
        match self.service {
            None => (Err(ErrorKind::NotFound), None),
            Some(h) => match deleted {
                Some(Ok(())) => {
                    self.service = None;
                    (Ok(()), Some(h))
                },
                Some(Err(code)) => (Err(error_kind(code)), None),
                None => (Err(ErrorKind::Unknown), None),
            },
        }
    }

    /// Whether a start request was accepted: the service is open and the OS
    /// took the request.
    pub fn start(&self, accepted: Option<Result<(), u32>>) -> (r: bool)
        ensures
            r == (self.service_handle().is_some() && accepted matches Some(Ok(()))),
    {
        self.service.is_some() && matches!(accepted, Some(Ok(())))
    }

    /// The control request that stops the service: the open service handle
    /// and the stop code, or `None` when no service is open.
    pub fn stop_request(&self) -> (r: Option<(isize, u32)>)
        ensures
            r == (match self.service_handle() {
                Some(h) => Some((h, CONTROL_STOP)),
                None => None,
            }),
    {
        match self.service {
            Some(h) => Some((h, CONTROL_STOP)),
            None => None,
        }
    }

    /// Whether a stop request was accepted: the service is open and the OS
    /// took the request.
    pub fn stop(&self, accepted: Option<Result<(), u32>>) -> (r: bool)
        ensures
            r == (self.service_handle().is_some() && accepted matches Some(Ok(()))),
    {
        self.service.is_some() && matches!(accepted, Some(Ok(())))
    }

    /// The service's status from the OS reply to a status query: the
    /// collapsed state, or `Unknown` when it could not be read, also when no
    /// service is open.
    pub fn query_status(&self, reply: Option<Result<u32, u32>>) -> (r: ServiceStatus)
        ensures
            r == queried_status(self.service_handle(), reply),
    {
        match self.service {
            None => ServiceStatus::Unknown,
            Some(_) => match reply {
                Some(Ok(state)) => status_from_state(state),
                _ => ServiceStatus::Unknown,
            },
        }
    }

    /// Ends the connection: every handle held comes back to be closed.
    pub fn close(&mut self) -> (r: Vec<isize>)
        ensures
            r@ == held_handles(old(self).service_handle(), old(self).manager_handle()),
            final(self).service_handle() is None,
            final(self).manager_handle() is None,
            final(self).name_units() == old(self).name_units(),
    {
        let mut released: Vec<isize> = Vec::new();
        if let Some(h) = self.service {
            released.push(h);
        }
        if let Some(h) = self.manager {
            released.push(h);
        }
        self.service = None;
        self.manager = None;
        released
    }
}

/// Once the OS has accepted the creation of the service entry, a status query
/// on the connection never reports the service as missing, whatever the
/// OS replies to the query.
pub proof fn lemma_registered_service_exists(
    service: Option<isize>,
    created: isize,
    reply: Option<Result<u32, u32>>,
)
    ensures
        registered(service, Some(Ok(created))).1 is Ok,
        queried_status(registered(service, Some(Ok(created))).0, reply)
            != ServiceStatus::DoesNotExist,
        reply matches Some(Ok(state)) && STATE_STOPPED <= state <= STATE_PAUSED ==> ({
            let st = queried_status(registered(service, Some(Ok(created))).0, reply);
            st == ServiceStatus::Running || st == ServiceStatus::Stopped
        }),
{
}

/// The OS reply to a deletion either accepts it, reports the service gone,
/// or reports a deletion already pending.
pub open spec fn deletion_settles(reply: Option<Result<(), u32>>) -> bool {
    match reply {
        Some(Ok(())) => true,
        Some(Err(code)) => kind_of(code) == ErrorKind::NotFound || kind_of(code) == ErrorKind::Busy,
        None => false,
    }
}

/// Deleting the service twice in a row: after a first success the second call
/// reports `NotFound` and leaves the connection as it was; in every case each
/// call either keeps the service handle or drops it, never another one; and
/// unless the OS refuses the second deletion for another reason, the second
/// call succeeds or reports `NotFound` or `Busy`.
pub proof fn lemma_unregister_twice(
    service: Option<isize>,
    first: Option<Result<(), u32>>,
    second: Option<Result<(), u32>>,
)
    ensures
        ({
            let (after_first, r1) = unregistered(service, first);
            let (after_second, r2) = unregistered(after_first, second);
            &&& r1 is Ok ==> r2 == Err::<(), ErrorKind>(ErrorKind::NotFound) && after_second
                is None
            &&& after_first == service || after_first is None
            &&& after_second == after_first || after_second is None
            &&& deletion_settles(second) ==> (r2 is Ok || r2
                == Err::<(), ErrorKind>(ErrorKind::NotFound) || r2 == Err::<(), ErrorKind>(
                ErrorKind::Busy))
        }),
{
}

} // verus!
