use anticheat_bridge::anticheat::{
    begin, check_root_status, check_time_reliability, fallback, get_secure_location,
    init_anticheat, Host,
};
use anticheat_bridge::bridge::{Command, Directive, Event, ForeignOp, Reply, Session};
use anticheat_bridge::json::JsonValue;

fn mapping(entries: Vec<(&str, JsonValue)>) -> JsonValue {
    JsonValue::Object(entries.into_iter().map(|(k, v)| (k.to_string(), v)).collect())
}

fn finished(value: JsonValue) -> Directive {
    Directive::Finish(Ok(Reply::Mapping(value)))
}

fn first_operation(command: Command) -> Directive {
    Directive::Perform(ForeignOp::ObtainRuntime, Session { command, position: 0 })
}

#[test]
fn simulated_time_reliability_is_exact() {
    let expected = mapping(vec![
        ("isCheatingTime", JsonValue::Bool(false)),
        ("reliabilityValue", JsonValue::Number("100".to_string())),
    ]);
    assert_eq!(check_time_reliability(Host::Simulated), finished(expected));
}

#[test]
fn simulated_location_is_the_origin() {
    let expected = mapping(vec![
        ("latitude", JsonValue::Number("0.0".to_string())),
        ("longitude", JsonValue::Number("0.0".to_string())),
        ("status", JsonValue::Text("simulated".to_string())),
    ]);
    assert_eq!(get_secure_location(Host::Simulated), finished(expected));
}

#[test]
fn simulated_root_status_is_not_rooted() {
    let expected = mapping(vec![("isRooted", JsonValue::Bool(false))]);
    assert_eq!(check_root_status(Host::Simulated), finished(expected));
}

#[test]
fn simulated_initialization_succeeds_at_once() {
    assert_eq!(init_anticheat(Host::Simulated), Directive::Finish(Ok(Reply::Nothing)));
}

#[test]
fn no_command_fails_or_waits_without_the_foreign_runtime() {
    for command in [
        Command::InitAnticheat,
        Command::GetSecureLocation,
        Command::CheckTimeReliability,
        Command::CheckRootStatus,
    ] {
        assert_eq!(begin(command, Host::Simulated), Directive::Finish(Ok(fallback(command))));
    }
}

#[test]
fn the_simulated_values_read_as_the_text_they_stand_for() {
    assert_eq!(
        fallback(Command::GetSecureLocation),
        Reply::Mapping(anticheat_bridge::json::normalize(
            "{ \"status\": \"simulated\", \"latitude\": 0.0, \"longitude\": 0.0 }"
        ))
    );
    assert_eq!(
        fallback(Command::CheckTimeReliability),
        Reply::Mapping(anticheat_bridge::json::normalize(
            "{ \"isCheatingTime\": false, \"reliabilityValue\": 100 }"
        ))
    );
    assert_eq!(
        fallback(Command::CheckRootStatus),
        Reply::Mapping(anticheat_bridge::json::normalize("{ \"isRooted\": false }"))
    );
    assert_eq!(fallback(Command::InitAnticheat), Reply::Nothing);
}

#[test]
fn commands_start_a_run_where_the_foreign_runtime_is() {
    assert_eq!(init_anticheat(Host::ForeignRuntime), first_operation(Command::InitAnticheat));
    assert_eq!(
        get_secure_location(Host::ForeignRuntime),
        first_operation(Command::GetSecureLocation)
    );
    assert_eq!(
        check_time_reliability(Host::ForeignRuntime),
        first_operation(Command::CheckTimeReliability)
    );
    assert_eq!(check_root_status(Host::ForeignRuntime), first_operation(Command::CheckRootStatus));
}

#[test]
fn queries_asked_twice_answer_alike() {
    for host in [Host::Simulated, Host::ForeignRuntime] {
        assert_eq!(get_secure_location(host), get_secure_location(host));
        assert_eq!(check_time_reliability(host), check_time_reliability(host));
        assert_eq!(check_root_status(host), check_root_status(host));
    }
}

#[test]
fn root_check_fails_when_the_class_is_not_found() {
    let mut directive = check_root_status(Host::ForeignRuntime);
    let reports = vec![
        Event::Done,
        Event::Done,
        Event::Done,
        Event::Failed("class not found".to_string()),
    ];
    for report in reports {
        directive = match directive {
            Directive::Perform(_, session) => session.advance(report),
            Directive::Finish(_) => panic!("the run ended early"),
        };
    }
    match directive {
        Directive::Finish(Err(message)) => assert!(message.contains("class not found")),
        other => panic!("no failure: {:?}", other),
    }
}

#[test]
fn time_check_answers_with_what_the_module_reports() {
    let mut directive = check_time_reliability(Host::ForeignRuntime);
    let mut reports: Vec<Event> = (0..5).map(|_| Event::Done).collect();
    reports.push(Event::Text("{\"isCheatingTime\": true, \"reliabilityValue\": 35}".to_string()));
    for report in reports {
        directive = match directive {
            Directive::Perform(_, session) => session.advance(report),
            Directive::Finish(_) => panic!("the run ended early"),
        };
    }
    let expected = mapping(vec![
        ("isCheatingTime", JsonValue::Bool(true)),
        ("reliabilityValue", JsonValue::Number("35".to_string())),
    ]);
    assert_eq!(directive, finished(expected));
}
