use deskhub::desk::DeskWindow;
use deskhub::guide::{
    commands_with_spining, registration_outcome, removal_outcome, settle, settled_outcome,
    task_message, Button, GuideWindow, Message, Panel, Settle, Task,
};
use deskhub::service::{ErrorKind, Service, ServiceStatus};
use deskhub::types::{Alert, AlertType};

fn notice(c: &deskhub::guide::Command) -> String {
    match &c.messages[1] {
        Message::AlertUpdated(Some(a), false) => {
            assert!(matches!(a.alert_type, AlertType::Info));
            a.message.clone()
        }
        other => panic!("unexpected {:?}", other),
    }
}

#[test]
fn opening_an_open_service_queries_it() {
    let (window, command) = GuideWindow::new(Ok(()));
    assert_eq!(window.service_status(), ServiceStatus::Querying);
    assert!(!window.is_spinning());
    assert_eq!(command.task, Some(Task::QueryStatus));
    assert!(matches!(command.messages[0], Message::Spining(true)));
    assert_eq!(notice(&command), "Checking service status...");
    assert_eq!(window.title(), "DeskHub");
}

#[test]
fn missing_service_offers_registration() {
    let (window, command) = GuideWindow::new(Err(ErrorKind::NotFound));
    assert_eq!(window.service_status(), ServiceStatus::DoesNotExist);
    assert!(command.task.is_none());
    assert!(command.messages.is_empty());
    let view = window.view();
    assert_eq!(view.panel, Panel::NeedsRegistration);
    assert_eq!(view.buttons, vec![Button::Register]);
    assert!(view.enabled);
    let (denied, _) = GuideWindow::new(Err(ErrorKind::Unauthorized));
    assert_eq!(denied.service_status(), ServiceStatus::Unknown);
    assert_eq!(denied.view().panel, Panel::Blank);
    assert!(denied.view().buttons.is_empty());
}

#[test]
fn buttons_start_their_tasks() {
    let (mut window, _) = GuideWindow::new(Err(ErrorKind::NotFound));
    let cases = [
        (Message::RegisterButtonPressed, Task::Register, "Registering service..."),
        (Message::StopServiceButtonPressed, Task::Stop, "Service stopping"),
        (Message::StartServiceButtonPressed, Task::Start, "The service is starting up..."),
        (Message::RemoveServiceButtonPressed, Task::Remove, "Removing service..."),
    ];
    for (message, task, text) in cases {
        let command = window.update(message);
        assert_eq!(command.task, Some(task));
        assert!(matches!(command.messages[0], Message::Spining(true)));
        assert_eq!(notice(&command), text);
        assert_eq!(window.service_status(), ServiceStatus::DoesNotExist);
    }
}

#[test]
fn spinner_and_alerts() {
    let (mut window, _) = GuideWindow::new(Err(ErrorKind::NotFound));
    assert!(window.update(Message::Spining(true)).messages.is_empty());
    assert!(window.is_spinning());
    assert!(!window.view().enabled);
    let info = Alert { message: "Registering service...".to_string(), alert_type: AlertType::Info };
    window.update(Message::AlertUpdated(Some(info), false));
    assert!(window.is_spinning());
    assert_eq!(window.view().alert, Some("Registering service...".to_string()));
    let error = Alert { message: "Service registration failed.".to_string(), alert_type: AlertType::Error };
    window.update(Message::AlertUpdated(Some(error), true));
    assert!(!window.is_spinning());
    assert_eq!(window.view().alert, Some("Service registration failed.".to_string()));
    window.update(Message::ServiceStatusUpdated(ServiceStatus::Running));
    let view = window.view();
    assert_eq!(view.alert, None);
    assert_eq!(view.panel, Panel::Running);
    assert_eq!(view.buttons, vec![Button::StopService, Button::RemoveService]);
    window.update(Message::ServiceStatusUpdated(ServiceStatus::Stopped));
    assert_eq!(window.view().buttons, vec![Button::StartService, Button::RemoveService]);
}

#[test]
fn spinning_command_batches_notice() {
    let command = commands_with_spining(false, "busy".to_string(), Task::Stop);
    assert!(matches!(command.messages[0], Message::Spining(false)));
    assert_eq!(notice(&command), "busy");
    assert_eq!(command.task, Some(Task::Stop));
}

#[test]
fn task_results_become_messages() {
    assert!(matches!(
        task_message(Ok(ServiceStatus::Running)),
        Message::ServiceStatusUpdated(ServiceStatus::Running)
    ));
    match task_message(Err("Service removal fail".to_string())) {
        Message::AlertUpdated(Some(a), true) => {
            assert_eq!(a.message, "Service removal fail");
            assert!(matches!(a.alert_type, AlertType::Error));
        }
        other => panic!("unexpected {:?}", other),
    }
}

#[test]
fn registration_results() {
    assert_eq!(
        registration_outcome(None, ServiceStatus::Unknown),
        Err("Failed to get the execution path.".to_string())
    );
    assert_eq!(
        registration_outcome(Some(Err(ErrorKind::AlreadyExists)), ServiceStatus::Unknown),
        Err("Service registration failed.".to_string())
    );
    assert_eq!(
        registration_outcome(Some(Ok(())), ServiceStatus::Stopped),
        Ok(ServiceStatus::Stopped)
    );
    assert_eq!(removal_outcome(Ok(())), Ok(ServiceStatus::DoesNotExist));
    assert_eq!(removal_outcome(Err(ErrorKind::Busy)), Err("Service removal fail".to_string()));
}

#[test]
fn unregistered_service_is_registered_from_the_window() {
    let mut service = Service::new("DeskHubService");
    let (opened, _) = service.open(Ok(10), Some(Err(1060)));
    let (mut window, _) = GuideWindow::new(opened);
    assert_eq!(window.view().buttons, vec![Button::Register]);
    let command = window.update(Message::RegisterButtonPressed);
    assert_eq!(command.task, Some(Task::Register));
    assert!(service.register_request("DeskHubService", "\"C:\\deskhub.exe\" -service").is_some());
    let (registered, _) = service.register(Some(Ok(12)));
    let status = service.query_status(Some(Ok(1)));
    let result = registration_outcome(Some(registered), status);
    assert_eq!(result, Ok(ServiceStatus::Stopped));
    window.update(task_message(result));
    assert_ne!(window.service_status(), ServiceStatus::DoesNotExist);
    assert_eq!(window.service_status(), ServiceStatus::Stopped);
}

#[test]
fn started_service_is_polled_until_running() {
    let mut service = Service::new("DeskHubService");
    service.open(Ok(10), Some(Ok(11)));
    assert_eq!(service.query_status(Some(Ok(1))), ServiceStatus::Stopped);
    assert!(service.start(Some(Ok(()))));
    let replies = [2u32, 2, 4];
    let mut polls_left = 5u32;
    let mut outcome = None;
    for state in replies {
        let observed = service.query_status(Some(Ok(state)));
        match settled_outcome(settle(Task::Start, observed, polls_left)) {
            Some(r) => {
                outcome = Some(r);
                break;
            }
            None => polls_left -= 1,
        }
    }
    assert_eq!(outcome, Some(Ok(ServiceStatus::Running)));
}

#[test]
fn stopped_service_is_polled_until_stopped() {
    let mut service = Service::new("DeskHubService");
    service.open(Ok(10), Some(Ok(11)));
    assert!(service.stop(Some(Ok(()))));
    let observed = service.query_status(Some(Ok(3)));
    assert_eq!(observed, ServiceStatus::Stopped);
    assert!(matches!(settle(Task::Stop, observed, 3), Settle::Reached(ServiceStatus::Stopped)));
}

#[test]
fn stop_that_never_settles_fails() {
    let mut service = Service::new("DeskHubService");
    service.open(Ok(10), Some(Ok(11)));
    assert!(service.stop(Some(Ok(()))));
    let observed = service.query_status(Some(Ok(4)));
    assert!(matches!(settle(Task::Stop, observed, 1), Settle::Wait));
    match settle(Task::Stop, observed, 0) {
        Settle::Failed(e) => assert_eq!(e, "Failed to stop the service"),
        _ => panic!("expected failure"),
    }
    match settle(Task::Start, ServiceStatus::Stopped, 0) {
        Settle::Failed(e) => assert_eq!(e, "Failed to start the service"),
        _ => panic!("expected failure"),
    }
    assert_eq!(
        settled_outcome(settle(Task::Stop, observed, 0)),
        Some(Err("Failed to stop the service".to_string()))
    );
}

#[test]
fn desk_window_text() {
    let desk = DeskWindow::new();
    assert_eq!(desk.title(), "DeskHub");
    assert_eq!(desk.body(), "This is just a test program.");
}
