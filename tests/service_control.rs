use deskhub::service::{
    error_kind, open_error_kind, SERVICE_ALL_ACCESS, SERVICE_AUTO_START, SERVICE_ERROR_NORMAL, status_from_state, ErrorKind, Service, ServiceStatus, ERROR_ACCESS_DENIED,
    ERROR_DUPLICATE_SERVICE_NAME, ERROR_SERVICE_CANNOT_ACCEPT_CTRL, ERROR_SERVICE_DOES_NOT_EXIST,
    ERROR_SERVICE_EXISTS, ERROR_SERVICE_MARKED_FOR_DELETE, STATE_CONTINUE_PENDING, STATE_PAUSED,
    STATE_PAUSE_PENDING, STATE_RUNNING, STATE_START_PENDING, STATE_STOPPED, STATE_STOP_PENDING,
};
use windows_sys::Win32::Foundation as foundation;
use windows_sys::Win32::System::Services as services;

fn wide(s: &str) -> Vec<u16> {
    let mut v: Vec<u16> = s.encode_utf16().collect();
    v.push(0);
    v
}

#[test]
fn state_codes_match_the_platform() {
    assert_eq!(STATE_STOPPED, services::SERVICE_STOPPED);
    assert_eq!(STATE_START_PENDING, services::SERVICE_START_PENDING);
    assert_eq!(STATE_STOP_PENDING, services::SERVICE_STOP_PENDING);
    assert_eq!(STATE_RUNNING, services::SERVICE_RUNNING);
    assert_eq!(STATE_CONTINUE_PENDING, services::SERVICE_CONTINUE_PENDING);
    assert_eq!(STATE_PAUSE_PENDING, services::SERVICE_PAUSE_PENDING);
    assert_eq!(STATE_PAUSED, services::SERVICE_PAUSED);
}

#[test]
fn error_codes_match_the_platform() {
    assert_eq!(ERROR_ACCESS_DENIED, foundation::ERROR_ACCESS_DENIED);
    assert_eq!(ERROR_SERVICE_DOES_NOT_EXIST, foundation::ERROR_SERVICE_DOES_NOT_EXIST);
    assert_eq!(ERROR_SERVICE_EXISTS, foundation::ERROR_SERVICE_EXISTS);
    assert_eq!(ERROR_DUPLICATE_SERVICE_NAME, foundation::ERROR_DUPLICATE_SERVICE_NAME);
    assert_eq!(ERROR_SERVICE_MARKED_FOR_DELETE, foundation::ERROR_SERVICE_MARKED_FOR_DELETE);
    assert_eq!(ERROR_SERVICE_CANNOT_ACCEPT_CTRL, foundation::ERROR_SERVICE_CANNOT_ACCEPT_CTRL);
}

#[test]
fn transitional_states_collapse() {
    assert_eq!(status_from_state(services::SERVICE_RUNNING), ServiceStatus::Running);
    assert_eq!(status_from_state(services::SERVICE_START_PENDING), ServiceStatus::Running);
    assert_eq!(status_from_state(services::SERVICE_CONTINUE_PENDING), ServiceStatus::Running);
    assert_eq!(status_from_state(services::SERVICE_STOPPED), ServiceStatus::Stopped);
    assert_eq!(status_from_state(services::SERVICE_STOP_PENDING), ServiceStatus::Stopped);
    assert_eq!(status_from_state(services::SERVICE_PAUSE_PENDING), ServiceStatus::Stopped);
    assert_eq!(status_from_state(services::SERVICE_PAUSED), ServiceStatus::Stopped);
    assert_eq!(status_from_state(0), ServiceStatus::Unknown);
    assert_eq!(status_from_state(8), ServiceStatus::Unknown);
    assert_eq!(status_from_state(u32::MAX), ServiceStatus::Unknown);
}

#[test]
fn error_codes_map_to_kinds() {
    assert_eq!(error_kind(5), ErrorKind::Unauthorized);
    assert_eq!(error_kind(1060), ErrorKind::NotFound);
    assert_eq!(error_kind(1073), ErrorKind::AlreadyExists);
    assert_eq!(error_kind(1078), ErrorKind::AlreadyExists);
    assert_eq!(error_kind(1072), ErrorKind::Busy);
    assert_eq!(error_kind(1061), ErrorKind::Busy);
    assert_eq!(error_kind(2), ErrorKind::Unknown);
    assert_eq!(error_kind(0), ErrorKind::Unknown);
}

#[test]
fn status_text_and_default() {
    assert_eq!(ServiceStatus::DoesNotExist.as_text(), "Does Not Exist");
    assert_eq!(ServiceStatus::Querying.as_text(), "Querying");
    assert_eq!(ServiceStatus::Running.as_text(), "Running");
    assert_eq!(ServiceStatus::Stopped.as_text(), "Stopped");
    assert_eq!(ServiceStatus::Unknown.as_text(), "Unknown");
    assert_eq!(ServiceStatus::default(), ServiceStatus::Unknown);
}

#[test]
fn new_service_encodes_its_name() {
    let service = Service::new("DeskHubService");
    assert_eq!(service.service_name(), &wide("DeskHubService"));
    assert_eq!(service.handle(), None);
    assert_eq!(service.manager(), None);
    let accented = Service::new("Dienst\u{e9}\u{1F600}");
    assert_eq!(accented.service_name(), &wide("Dienst\u{e9}\u{1F600}"));
}

#[test]
fn open_reports_missing_service() {
    let mut service = Service::new("DeskHubService");
    let (result, released) = service.open(Ok(10), Some(Err(ERROR_SERVICE_DOES_NOT_EXIST)));
    assert_eq!(result, Err(ErrorKind::NotFound));
    assert!(released.is_empty());
    assert_eq!(service.manager(), Some(10));
    assert_eq!(service.handle(), None);
}

#[test]
fn open_reports_denied_manager() {
    let mut service = Service::new("DeskHubService");
    let (result, _) = service.open(Err(ERROR_ACCESS_DENIED), None);
    assert_eq!(result, Err(ErrorKind::Unauthorized));
    assert_eq!(service.manager(), None);
    assert_eq!(service.handle(), None);
}

#[test]
fn open_maps_only_missing_and_denied() {
    let mut service = Service::new("DeskHubService");
    assert_eq!(service.open(Ok(10), Some(Err(ERROR_SERVICE_MARKED_FOR_DELETE))).0, Err(ErrorKind::Unknown));
    assert_eq!(service.open(Ok(10), Some(Err(ERROR_SERVICE_EXISTS))).0, Err(ErrorKind::Unknown));
    assert_eq!(service.open(Ok(10), Some(Err(ERROR_ACCESS_DENIED))).0, Err(ErrorKind::Unauthorized));
    assert_eq!(service.open(Err(ERROR_SERVICE_DOES_NOT_EXIST), None).0, Err(ErrorKind::NotFound));
    assert_eq!(service.open(Err(1062), None).0, Err(ErrorKind::Unknown));
    assert_eq!(service.open(Ok(10), None).0, Err(ErrorKind::Unknown));
    assert_eq!(open_error_kind(1078), ErrorKind::Unknown);
}

#[test]
fn stop_request_uses_the_stop_code() {
    let mut service = Service::new("DeskHubService");
    service.open(Ok(10), Some(Ok(11)));
    assert_eq!(service.stop_request(), Some((11, services::SERVICE_CONTROL_STOP)));
}

#[test]
fn registration_constants_match_the_platform() {
    assert_eq!(SERVICE_AUTO_START, services::SERVICE_AUTO_START);
    assert_eq!(SERVICE_ERROR_NORMAL, services::SERVICE_ERROR_NORMAL);
    assert_eq!(SERVICE_ALL_ACCESS, services::SERVICE_ALL_ACCESS);
}

#[test]
fn reopening_releases_previous_handles() {
    let mut service = Service::new("DeskHubService");
    let (first, _) = service.open(Ok(10), Some(Ok(11)));
    assert_eq!(first, Ok(()));
    let (second, released) = service.open(Ok(20), Some(Ok(21)));
    assert_eq!(second, Ok(()));
    assert_eq!(released, vec![11, 10]);
    assert_eq!(service.handle(), Some(21));
    assert_eq!(service.close(), vec![21, 20]);
    assert_eq!(service.handle(), None);
    assert_eq!(service.manager(), None);
}

#[test]
fn register_request_needs_a_manager() {
    let service = Service::new("DeskHubService");
    assert!(service.register_request("DeskHubService", "\"C:\\deskhub.exe\" -service").is_none());
}

#[test]
fn missing_service_is_registered_then_present() {
    let mut service = Service::new("DeskHubService");
    let (opened, _) = service.open(Ok(10), Some(Err(1060)));
    assert_eq!(opened, Err(ErrorKind::NotFound));
    let request = service
        .register_request("DeskHubService", "\"C:\\deskhub.exe\" -service")
        .unwrap();
    assert_eq!(request.manager, 10);
    assert_eq!(request.service_name, wide("DeskHubService"));
    assert_eq!(request.display_name, wide("DeskHubService"));
    assert_eq!(request.binary_path, wide("\"C:\\deskhub.exe\" -service"));
    assert_eq!(request.desired_access, services::SERVICE_ALL_ACCESS);
    assert_eq!(request.service_type, services::SERVICE_WIN32_OWN_PROCESS);
    assert_eq!(request.start_type, services::SERVICE_AUTO_START);
    assert_eq!(request.error_control, services::SERVICE_ERROR_NORMAL);
    let (registered, replaced) = service.register(Some(Ok(12)));
    assert_eq!(registered, Ok(()));
    assert_eq!(replaced, None);
    assert_eq!(service.handle(), Some(12));
    let status = service.query_status(Some(Ok(services::SERVICE_STOPPED)));
    assert_eq!(status, ServiceStatus::Stopped);
    assert_ne!(service.query_status(Some(Err(6))), ServiceStatus::DoesNotExist);
    assert_ne!(service.query_status(None), ServiceStatus::DoesNotExist);
}

#[test]
fn duplicate_registration_is_reported() {
    let mut service = Service::new("DeskHubService");
    service.open(Ok(10), Some(Ok(11)));
    let (registered, replaced) = service.register(Some(Err(ERROR_SERVICE_EXISTS)));
    assert_eq!(registered, Err(ErrorKind::AlreadyExists));
    assert_eq!(replaced, None);
    assert_eq!(service.handle(), Some(11));
    assert_eq!(service.register(None).0, Err(ErrorKind::Unknown));
}

#[test]
fn unregister_twice() {
    let mut service = Service::new("DeskHubService");
    service.open(Ok(10), Some(Ok(11)));
    let (first, released) = service.unregister(Some(Ok(())));
    assert_eq!(first, Ok(()));
    assert_eq!(released, Some(11));
    let (second, released_again) = service.unregister(Some(Ok(())));
    assert_eq!(second, Err(ErrorKind::NotFound));
    assert_eq!(released_again, None);
    assert_eq!(service.manager(), Some(10));
    assert_eq!(service.query_status(None), ServiceStatus::Unknown);
    assert_eq!(service.stop_request(), None);
}

#[test]
fn unregister_pending_deletion_is_busy() {
    let mut service = Service::new("DeskHubService");
    service.open(Ok(10), Some(Ok(11)));
    let (result, released) = service.unregister(Some(Err(ERROR_SERVICE_MARKED_FOR_DELETE)));
    assert_eq!(result, Err(ErrorKind::Busy));
    assert_eq!(released, None);
    assert_eq!(service.handle(), Some(11));
    let (denied, _) = service.unregister(Some(Err(5)));
    assert_eq!(denied, Err(ErrorKind::Unauthorized));
}

#[test]
fn start_and_stop_acknowledge() {
    let mut service = Service::new("DeskHubService");
    assert!(!service.start(Some(Ok(()))));
    service.open(Ok(10), Some(Ok(11)));
    assert!(service.start(Some(Ok(()))));
    assert!(!service.start(Some(Err(1056))));
    assert!(service.stop(Some(Ok(()))));
    assert!(!service.stop(None));
}

#[test]
fn query_reads_the_state() {
    let mut service = Service::new("DeskHubService");
    assert_eq!(service.query_status(Some(Ok(4))), ServiceStatus::Unknown);
    assert_eq!(service.query_status(None), ServiceStatus::Unknown);
    service.open(Ok(10), Some(Ok(11)));
    assert_eq!(service.query_status(Some(Ok(4))), ServiceStatus::Running);
    assert_eq!(service.query_status(Some(Ok(6))), ServiceStatus::Stopped);
    assert_eq!(service.query_status(Some(Ok(42))), ServiceStatus::Unknown);
    assert_eq!(service.query_status(Some(Err(5))), ServiceStatus::Unknown);
}
