use crate::service::{ErrorKind, ServiceStatus};
use crate::types::{Alert, AlertType};
use vstd::prelude::*;
use vstd::string::*;

verus! {

/// What the management window reacts to: the user's buttons and the results
/// of the work it started.
#[derive(Debug, Clone)]
pub enum Message {
    RegisterButtonPressed,
    StopServiceButtonPressed,
    StartServiceButtonPressed,
    RemoveServiceButtonPressed,
    Spining(bool),
    AlertUpdated(Option<Alert>, bool),
    ServiceStatusUpdated(ServiceStatus),
}

/// Work on the service that the host runs in the background; it ends with
/// one message back to the window.
#[derive(Debug, Clone, Copy, PartialEq, Eq, Structural)]
pub enum Task {
    QueryStatus,
    Register,
    Stop,
    Start,
    Remove,
}

/// What an update asks of the host: messages to deliver back to the window,
/// and work to start.
pub struct Command {
    pub messages: Vec<Message>,
    pub task: Option<Task>,
}

/// The command that starts `task`: it shows the spinner and the notice `text`.
pub open spec fn busy_with(text: Seq<char>, task: Task, c: Command) -> bool {
    &&& c.task == Some(task)
    &&& c.messages@.len() == 2
    &&& c.messages@[0] == Message::Spining(true)
    &&& c.messages@[1] matches Message::AlertUpdated(Some(a), false) && a.message@ == text
        && a.alert_type == AlertType::Info
}

/// Nothing to do.
pub open spec fn idle(c: Command) -> bool {
    c.task is None && c.messages@.len() == 0
}

/// The notice shown while `task` runs.
pub open spec fn notice_of(task: Task) -> Seq<char> {
    match task {
        Task::QueryStatus => "Checking service status..."@,
        Task::Register => "Registering service..."@,
        Task::Stop => "Service stopping"@,
        Task::Start => "The service is starting up..."@,
        Task::Remove => "Removing service..."@,
    }
}

/// The task a button starts.
pub open spec fn task_of(message: Message) -> Option<Task> {
    match message {
        Message::RegisterButtonPressed => Some(Task::Register),
        Message::StopServiceButtonPressed => Some(Task::Stop),
        Message::StartServiceButtonPressed => Some(Task::Start),
        Message::RemoveServiceButtonPressed => Some(Task::Remove),
        _ => None,
    }
}

fn notice(task: Task) -> (r: String)
    ensures
        r@ == notice_of(task),
{
    match task {
        Task::QueryStatus => String::from_str("Checking service status..."),
        Task::Register => String::from_str("Registering service..."),
        Task::Stop => String::from_str("Service stopping"),
        Task::Start => String::from_str("The service is starting up..."),
        Task::Remove => String::from_str("Removing service..."),
    }
}

/// Shows the spinner and a notice, and starts `task`.
pub fn commands_with_spining(spining: bool, message: String, task: Task) -> (r: Command)
    ensures
        r.task == Some(task),
        r.messages@.len() == 2,
        r.messages@[0] == Message::Spining(spining),
        r.messages@[1] matches Message::AlertUpdated(Some(a), false) && a.message@ == message@
            && a.alert_type == AlertType::Info,
{
    let alert = Alert { message, alert_type: AlertType::Info };
    Command {
        messages: vec![Message::Spining(spining), Message::AlertUpdated(Some(alert), false)],
        task: Some(task),
    }
}

/// The buttons of the management window.
#[derive(Debug, Clone, Copy, PartialEq, Eq, Structural)]
pub enum Button {
    Register,
    StopService,
    StartService,
    RemoveService,
}

/// The explanation the window shows for a status.
#[derive(Debug, Clone, Copy, PartialEq, Eq, Structural)]
pub enum Panel {
    Querying,
    NeedsRegistration,
    Running,
    Stopped,
    Blank,
}

/// What the window shows: the explanation, its buttons, whether they can be
/// pressed, and the message under them.
pub struct GuideView {
    pub panel: Panel,
    pub buttons: Vec<Button>,
    pub enabled: bool,
    pub alert: Option<String>,
}

/// The explanation shown for each status.
pub open spec fn panel_of(status: ServiceStatus) -> Panel {
    match status {
        ServiceStatus::Querying => Panel::Querying,
        ServiceStatus::DoesNotExist => Panel::NeedsRegistration,
        ServiceStatus::Running => Panel::Running,
        ServiceStatus::Stopped => Panel::Stopped,
        ServiceStatus::Unknown => Panel::Blank,
    }
}

/// The buttons shown for each status.
pub open spec fn buttons_of(status: ServiceStatus) -> Seq<Button> {
    match status {
        ServiceStatus::DoesNotExist => seq![Button::Register],
        ServiceStatus::Running => seq![Button::StopService, Button::RemoveService],
        ServiceStatus::Stopped => seq![Button::StartService, Button::RemoveService],
        _ => Seq::empty(),
    }
}

/// The state of the management window.
pub struct GuideWindow {
    service_status: ServiceStatus,
    alert: Option<Alert>,
    spining: bool,
}

impl GuideWindow {
    pub closed spec fn status(&self) -> ServiceStatus {
        self.service_status
    }

    pub closed spec fn shown_alert(&self) -> Option<Alert> {
        self.alert
    }

    pub closed spec fn spinning(&self) -> bool {
        self.spining
    }

    /// The window as it opens, given the outcome of opening the service: an
    /// open service is queried, a missing one offered for registration, any
    /// other failure leaves the status unknown.
    pub fn new(opened: Result<(), ErrorKind>) -> (r: (GuideWindow, Command))
        ensures
            r.0.status() == (match opened {
                Ok(()) => ServiceStatus::Querying,
                Err(ErrorKind::NotFound) => ServiceStatus::DoesNotExist,
                Err(_) => ServiceStatus::Unknown,
            }),
            r.0.shown_alert() is None,
            !r.0.spinning(),
            opened is Ok ==> busy_with(notice_of(Task::QueryStatus), Task::QueryStatus, r.1),
            opened is Err ==> idle(r.1),
    {
        let service_status = match opened {
            Ok(()) => ServiceStatus::Querying,
            Err(ErrorKind::NotFound) => ServiceStatus::DoesNotExist,
            Err(_) => ServiceStatus::Unknown,
        };
        let command = if service_status == ServiceStatus::Querying {
            commands_with_spining(true, notice(Task::QueryStatus), Task::QueryStatus)
        } else {
            Command { messages: Vec::new(), task: None }
        };
        (GuideWindow { service_status, alert: None, spining: false }, command)
    }

    /// The window title.
    pub fn title(&self) -> (r: String)
        ensures
            r@ == "DeskHub"@,
    {
        String::from_str("DeskHub")
    }

    /// Applies a message. A button starts its task with the spinner and a
    /// notice; a status ends the spinner and clears the message; an alert
    /// replaces the message and, when asked, ends the spinner.
    pub fn update(&mut self, message: Message) -> (r: Command)
        ensures
            task_of(message) matches Some(t) ==> busy_with(notice_of(t), t, r)
                && final(self).status() == old(self).status()
                && final(self).shown_alert() == old(self).shown_alert()
                && final(self).spinning() == old(self).spinning(),
            task_of(message) is None ==> idle(r),
            message matches Message::Spining(s) ==> final(self).spinning() == s
                && final(self).status() == old(self).status()
                && final(self).shown_alert() == old(self).shown_alert(),
            message matches Message::ServiceStatusUpdated(s) ==> final(self).status() == s
                && final(self).shown_alert() is None && !final(self).spinning(),
            message matches Message::AlertUpdated(a, hide) ==> final(self).shown_alert() == a
                && final(self).status() == old(self).status()
                && final(self).spinning() == (old(self).spinning() && !hide),
    {
        match message {
            Message::Spining(spining) => {
                self.spining = spining;
                Command { messages: Vec::new(), task: None }
            },
            Message::ServiceStatusUpdated(status) => {
                self.service_status = status;
                self.spining = false;
                self.alert = None;
                Command { messages: Vec::new(), task: None }
            },
            Message::RegisterButtonPressed => commands_with_spining(
                true,
                notice(Task::Register),
                Task::Register,
            ),
            Message::StopServiceButtonPressed => commands_with_spining(
                true,
                notice(Task::Stop),
                Task::Stop,
            ),
            Message::StartServiceButtonPressed => commands_with_spining(
                true,
                notice(Task::Start),
                Task::Start,
            ),
            Message::RemoveServiceButtonPressed => commands_with_spining(
                true,
                notice(Task::Remove),
                Task::Remove,
            ),
            Message::AlertUpdated(alert, hide_spining) => {
                self.alert = alert;
                if hide_spining {
                    self.spining = false;
                }
                Command { messages: Vec::new(), task: None }
            },
        }
    }

    /// What the window shows now. Buttons can be pressed only while no work
    /// is under way.
    pub fn view(&self) -> (r: GuideView)
        ensures
            r.panel == panel_of(self.status()),
            r.buttons@ == buttons_of(self.status()),
            r.enabled == !self.spinning(),
            r.alert.is_some() == self.shown_alert().is_some(),
            r.alert matches Some(text) ==> text@ == self.shown_alert().unwrap().message@,
    {
        let panel = match self.service_status {
            ServiceStatus::Querying => Panel::Querying,
            ServiceStatus::DoesNotExist => Panel::NeedsRegistration,
            ServiceStatus::Running => Panel::Running,
            ServiceStatus::Stopped => Panel::Stopped,
            ServiceStatus::Unknown => Panel::Blank,
        };
        let buttons = match self.service_status {
            ServiceStatus::DoesNotExist => vec![Button::Register],
            ServiceStatus::Running => vec![Button::StopService, Button::RemoveService],
            ServiceStatus::Stopped => vec![Button::StartService, Button::RemoveService],
            _ => Vec::new(),
        };
        assert(buttons@ =~= buttons_of(self.service_status));
        let alert = match &self.alert {
            Some(a) => Some(a.message.clone()),
            None => None,
        };
        GuideView { panel, buttons, enabled: !self.spining, alert }
    }

    /// The status shown.
    pub fn service_status(&self) -> (r: ServiceStatus)
        ensures
            r == self.status(),
    {
        self.service_status
    }

    /// Whether work is under way.
    pub fn is_spinning(&self) -> (r: bool)
        ensures
            r == self.spinning(),
    {
        self.spining
    }
}

/// The message a finished task sends back: the status it found, or its
/// failure as an error that also ends the spinner.
pub fn task_message(result: Result<ServiceStatus, String>) -> (r: Message)
    ensures
        result matches Ok(s) ==> r == Message::ServiceStatusUpdated(s),
        result matches Err(e) ==> (r matches Message::AlertUpdated(Some(a), true) && a.message@
            == e@ && a.alert_type == AlertType::Error),
{
    match result {
        Ok(status) => Message::ServiceStatusUpdated(status),
        Err(e) => Message::AlertUpdated(Some(Alert { message: e, alert_type: AlertType::Error }), true),
    }
}

/// The result of the registration task. `registered` is `None` when the
/// executable's path could not be found; `status` is the status queried after
/// a successful registration.
pub fn registration_outcome(registered: Option<Result<(), ErrorKind>>, status: ServiceStatus) -> (r:
    Result<ServiceStatus, String>)
    ensures
        registered is None ==> (r matches Err(e) && e@ == "Failed to get the execution path."@),
        registered matches Some(Err(_)) ==> (r matches Err(e) && e@
            == "Service registration failed."@),
        registered matches Some(Ok(())) ==> r == Ok::<ServiceStatus, String>(status),
{
    match registered {
        None => Err(String::from_str("Failed to get the execution path.")),
        Some(Err(_)) => Err(String::from_str("Service registration failed.")),
        Some(Ok(())) => Ok(status),
    }
}

/// The result of the removal task: a removed service no longer exists.
pub fn removal_outcome(removed: Result<(), ErrorKind>) -> (r: Result<ServiceStatus, String>)
    ensures
        removed is Ok ==> r == Ok::<ServiceStatus, String>(ServiceStatus::DoesNotExist),
        removed is Err ==> (r matches Err(e) && e@ == "Service removal fail"@),
{
    match removed {
        Ok(()) => Ok(ServiceStatus::DoesNotExist),
        Err(_) => Err(String::from_str("Service removal fail")),
    }
}

/// What to do after polling the status while waiting for a start or stop.
pub enum Settle {
    /// The service reached the status waited for.
    Reached(ServiceStatus),
    /// Poll again.
    Wait,
    /// Give up, with the message for the user.
    Failed(String),
}

/// The status a task waits for: running after a start, stopped otherwise.
pub open spec fn target_of(task: Task) -> ServiceStatus {
    if task == Task::Start {
        ServiceStatus::Running
    } else {
        ServiceStatus::Stopped
    }
}

/// The message when the wait for `task` runs out.
pub open spec fn timeout_text(task: Task) -> Seq<char> {
    if task == Task::Start {
        "Failed to start the service"@
    } else {
        "Failed to stop the service"@
    }
}

/// Decides, after a start or stop request, on the status just polled:
/// done once it is the one waited for, poll again while polls are left,
/// else fail.
pub fn settle(task: Task, observed: ServiceStatus, polls_left: u32) -> (r: Settle)
    ensures
        observed == target_of(task) ==> r == Settle::Reached(observed),
        observed != target_of(task) && polls_left > 0 ==> r is Wait,
        observed != target_of(task) && polls_left == 0 ==> (r matches Settle::Failed(e) && e@
            == timeout_text(task)),
{
    let target = if task == Task::Start {
        ServiceStatus::Running
    } else {
        ServiceStatus::Stopped
    };
    if observed == target {
        Settle::Reached(observed)
    } else if polls_left > 0 {
        Settle::Wait
    } else if task == Task::Start {
        Settle::Failed(String::from_str("Failed to start the service"))
    } else {
        Settle::Failed(String::from_str("Failed to stop the service"))
    }
}

/// The result of a start or stop task once `settle` has decided.
pub fn settled_outcome(decision: Settle) -> (r: Option<Result<ServiceStatus, String>>)
    ensures
        decision matches Settle::Reached(s) ==> r == Some(Ok::<ServiceStatus, String>(s)),
        decision is Wait ==> r is None,
        decision matches Settle::Failed(e) ==> (r matches Some(Err(m)) && m@ == e@),
{
    match decision {
        Settle::Reached(s) => Some(Ok(s)),
        Settle::Wait => None,
        Settle::Failed(e) => Some(Err(e)),
    }
}

} // verus!
