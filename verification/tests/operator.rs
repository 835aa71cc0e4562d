use winroute::code_to_error;
use winroute::error::check_status;
use winroute::operator::add_request;
use winroute::operator::best_interface_result;
use winroute::operator::delete_request;
use winroute::operator::event_for;
use winroute::operator::needs_interface;
use winroute::operator::plan_add;
use winroute::operator::routes_from_rows;
use winroute::operator::AddPlan;
use winroute::operator::Listener;
use winroute::operator::Operation;
use winroute::ErrorKind;
use winroute::IpAddr;
use winroute::Ipv4Addr;
use winroute::NativeRow;
use winroute::Route;
use winroute::RouteError;
use winroute::RouteEvent;

fn sample() -> Route {
    Route::new(IpAddr::V4(Ipv4Addr::new(223, 6, 6, 6)), 32)
        .gateway(IpAddr::V4(Ipv4Addr::new(192, 168, 1, 1)))
}

#[test]
fn codes_map_to_kinds() {
    assert_eq!(code_to_error(2, "x").kind, ErrorKind::NotFound);
    assert_eq!(code_to_error(1168, "x").kind, ErrorKind::NotFound);
    assert_eq!(code_to_error(5, "x").kind, ErrorKind::PermissionDenied);
    assert_eq!(code_to_error(87, "x").kind, ErrorKind::InvalidInput);
    assert_eq!(code_to_error(5010, "x").kind, ErrorKind::AlreadyExists);
    assert_eq!(code_to_error(0, "x").kind, ErrorKind::Other);
    assert_eq!(code_to_error(1, "x").kind, ErrorKind::Other);
    assert_eq!(code_to_error(4294967295, "x").kind, ErrorKind::Other);
}

#[test]
fn message_names_operation_and_kind() {
    assert_eq!(
        code_to_error(5, "error creating entry").message,
        "error creating entry: permission denied"
    );
    assert_eq!(code_to_error(2, "a").message, "a: entity not found");
    assert_eq!(code_to_error(87, "").message, ": invalid input parameter");
    assert_eq!(code_to_error(5010, "b").message, "b: entity already exists");
    assert_eq!(code_to_error(9, "c").message, "c: other error");
    assert_eq!(
        RouteError::new(ErrorKind::NotFound, "lookup"),
        RouteError { kind: ErrorKind::NotFound, message: "lookup: entity not found".to_string() }
    );
}

#[test]
fn status_zero_is_success() {
    assert_eq!(check_status(0, "x"), Ok(()));
    assert_eq!(check_status(5, "x"), Err(code_to_error(5, "x")));
    assert_eq!(Operation::AddRoute.outcome(0), Ok(()));
    assert_eq!(
        Operation::AddRoute.outcome(5).unwrap_err().message,
        "error creating entry: permission denied"
    );
    assert_eq!(
        Operation::DeleteRoute.outcome(1168).unwrap_err(),
        code_to_error(1168, "error deleting entry")
    );
    assert_eq!(
        Operation::ReadTable.outcome(87).unwrap_err(),
        code_to_error(87, "Error getting table")
    );
    assert_eq!(
        Operation::Register.outcome(1).unwrap_err(),
        code_to_error(1, "error notify route change")
    );
}

#[test]
fn second_init_is_refused() {
    let mut listener = Listener::new();
    assert!(!listener.is_registered());
    assert_eq!(listener.begin_init(), Ok(()));
    assert_eq!(listener.finish_init(0, Some(77)), Ok(()));
    assert!(listener.is_registered());
    let err = listener.begin_init().unwrap_err();
    assert_eq!(err.kind, ErrorKind::AlreadyExists);
    assert_eq!(err.message, "Already registered: entity already exists");
    assert_eq!(listener.notify_handle, Some(77));
}

#[test]
fn failed_registration_keeps_nothing() {
    let mut listener = Listener::new();
    let err = listener.finish_init(5, Some(77)).unwrap_err();
    assert_eq!(err.kind, ErrorKind::PermissionDenied);
    assert_eq!(err.message, "error notify route change: permission denied");
    assert_eq!(listener, Listener::new());
    assert_eq!(listener.notify_handle, None);
    assert!(!listener.is_registered());
    assert_eq!(listener.begin_init(), Ok(()));
}

#[test]
fn second_init_is_refused_without_a_valid_handle() {
    let mut listener = Listener::new();
    assert_eq!(listener.begin_init(), Ok(()));
    assert_eq!(listener.finish_init(0, None), Ok(()));
    assert!(listener.is_registered());
    assert_eq!(listener.notify_handle, None);
    let err = listener.begin_init().unwrap_err();
    assert_eq!(err.kind, ErrorKind::AlreadyExists);
    assert_eq!(err.message, "Already registered: entity already exists");
    assert_eq!(listener.release(), None);
}

#[test]
fn init_stays_refused_after_release() {
    let mut listener = Listener::new();
    assert_eq!(listener.finish_init(0, Some(9)), Ok(()));
    assert_eq!(listener.release(), Some(9));
    assert_eq!(listener.begin_init().unwrap_err().kind, ErrorKind::AlreadyExists);
}

#[test]
fn release_hands_out_the_handle_once() {
    let mut listener = Listener::new();
    assert_eq!(listener.release(), None);
    assert_eq!(listener.finish_init(0, Some(-3)), Ok(()));
    assert_eq!(listener.release(), Some(-3));
    assert_eq!(listener.release(), None);
    assert_eq!(listener.notify_handle, None);
    assert!(listener.is_registered());
}

#[test]
fn notification_kinds_select_the_event() {
    let route = sample().ifindex(3).luid(4).metric(5);
    let row = NativeRow::from_route(&route);
    assert_eq!(event_for(0, &row), Some(RouteEvent::Change(route)));
    assert_eq!(event_for(1, &row), Some(RouteEvent::Add(route)));
    assert_eq!(event_for(2, &row), Some(RouteEvent::Delete(route)));
    assert_eq!(event_for(3, &row), None);
    assert_eq!(event_for(-1, &row), None);
}

#[test]
fn route_without_interface_asks_for_the_best_one() {
    let route = sample();
    assert!(needs_interface(&route));
    assert_eq!(plan_add(&route), AddPlan::ResolveInterface(route.gateway));
    let row = add_request(&route, 14);
    assert_eq!(row, NativeRow::from_route(&route.ifindex(14)));
    assert_eq!(row.interface_index, 14);
}

#[test]
fn route_with_interface_is_submitted_as_given() {
    let by_index = sample().ifindex(2);
    assert!(!needs_interface(&by_index));
    assert_eq!(plan_add(&by_index), AddPlan::Submit(NativeRow::from_route(&by_index)));
    assert_eq!(add_request(&by_index, 14).interface_index, 2);
    let by_luid = sample().luid(99);
    assert!(!needs_interface(&by_luid));
    let row = add_request(&by_luid, 14);
    assert_eq!(row.interface_index, 0);
    assert_eq!(row.interface_luid, 99);
    assert_eq!(delete_request(&by_luid), NativeRow::from_route(&by_luid));
}

#[test]
fn best_interface_answer() {
    assert_eq!(best_interface_result(0, 12), Ok(12));
    let err = best_interface_result(1168, 12).unwrap_err();
    assert_eq!(err.kind, ErrorKind::NotFound);
    assert_eq!(err.message, "Failed to get best interface: entity not found");
}

#[test]
fn table_rows_become_routes_in_order() {
    let a = sample().ifindex(1).luid(2).metric(3);
    let b = Route::new(IpAddr::V4(Ipv4Addr::new(10, 0, 0, 0)), 8)
        .ifindex(0)
        .luid(0)
        .metric(0);
    let rows = vec![NativeRow::from_route(&a), NativeRow::from_route(&b)];
    assert_eq!(routes_from_rows(&rows), vec![a, b]);
    assert!(routes_from_rows(&Vec::new()).is_empty());
}
