//! The commands of the front-end. On a host with the foreign runtime a command
//! starts a run over the bridge; on any other host it answers at once with a
//! fixed, simulated value.

use crate::bridge::{
    opening, plan, replay, same_reports_same_result, start, Command, Directive, DirectiveTerm,
    EventTerm, Reply, ReplyTerm,
};
use crate::json::{agree_before, key_precedes, keys_ascend, well_formed, JsonTerm, JsonValue};
use vstd::prelude::*;

verus! {

/// The kind of host that the commands run on.
#[derive(Clone, Copy, Debug, PartialEq, Eq, Structural)]
pub enum Host {
    /// The foreign runtime is present.
    ForeignRuntime,
    /// There is no foreign runtime: the commands answer with simulated values.
    Simulated,
}

/// The simulated location: a status and the origin.
pub open spec fn simulated_location() -> JsonTerm {
    JsonTerm::Object(
        seq![
            ("latitude"@, JsonTerm::Number("0.0"@)),
            ("longitude"@, JsonTerm::Number("0.0"@)),
            ("status"@, JsonTerm::Text("simulated"@)),
        ],
    )
}

/// The simulated verdict on the clock: no cheating, full reliability.
pub open spec fn simulated_time_reliability() -> JsonTerm {
    JsonTerm::Object(
        seq![
            ("isCheatingTime"@, JsonTerm::Bool(false)),
            ("reliabilityValue"@, JsonTerm::Number("100"@)),
        ],
    )
}

/// The simulated verdict on the device: not rooted.
pub open spec fn simulated_root_status() -> JsonTerm {
    JsonTerm::Object(seq![("isRooted"@, JsonTerm::Bool(false))])
}

/// What `command` answers on a host without the foreign runtime.
pub open spec fn simulated_reply(command: Command) -> ReplyTerm {
    match command {
        Command::InitAnticheat => ReplyTerm::Nothing,
        Command::GetSecureLocation => ReplyTerm::Mapping(simulated_location()),
        Command::CheckTimeReliability => ReplyTerm::Mapping(simulated_time_reliability()),
        Command::CheckRootStatus => ReplyTerm::Mapping(simulated_root_status()),
    }
}

/// The first directive of `command` on `host`.
pub open spec fn beginning(command: Command, host: Host) -> DirectiveTerm {
    match host {
        Host::ForeignRuntime => opening(command),
        Host::Simulated => DirectiveTerm::Finish(Ok(simulated_reply(command))),
    }
}

/// Two keys are in order where they first differ at `k` and the first has the
/// lesser character there.
proof fn lesser_at(a: Seq<char>, b: Seq<char>, k: int)
    requires
        agree_before(a, b, k),
        k < a.len(),
        k < b.len(),
        (a[k] as u32) < (b[k] as u32),
    ensures
        key_precedes(a, b),
{
}

/// Every simulated answer is a mapping in key order.
pub proof fn simulated_replies_are_well_formed(command: Command)
    ensures
        simulated_reply(command) matches ReplyTerm::Mapping(mapping) ==> mapping is Object
            && well_formed(mapping),
{
    match simulated_reply(command) {
        ReplyTerm::Mapping(mapping) => {
            let entries = mapping->Object_0;
            reveal_strlit("latitude");
            reveal_strlit("longitude");
            reveal_strlit("status");
            reveal_strlit("isCheatingTime");
            reveal_strlit("reliabilityValue");
            lesser_at("latitude"@, "longitude"@, 1);
            lesser_at("latitude"@, "status"@, 0);
            lesser_at("longitude"@, "status"@, 0);
            lesser_at("isCheatingTime"@, "reliabilityValue"@, 0);
            assert(keys_ascend(entries));
            assert forall|i: int| 0 <= i < entries.len() implies well_formed(
                (#[trigger] entries[i]).1,
            ) by {
                assert(!(entries[i].1 is Array) && !(entries[i].1 is Object));
            }
        },
        ReplyTerm::Nothing => {},
    }
}

fn location_fallback() -> (mapping: JsonValue)
    ensures
        mapping@ == simulated_location(),
{
    let latitude = JsonValue::Number("0.0".to_owned());
    let longitude = JsonValue::Number("0.0".to_owned());
    let status = JsonValue::Text("simulated".to_owned());
    assert(latitude@ == JsonTerm::Number("0.0"@));
    assert(longitude@ == JsonTerm::Number("0.0"@));
    assert(status@ == JsonTerm::Text("simulated"@));
    let mut entries: Vec<(String, JsonValue)> = Vec::new();
    entries.push(("latitude".to_owned(), latitude));
    entries.push(("longitude".to_owned(), longitude));
    entries.push(("status".to_owned(), status));
    let mapping = JsonValue::Object(entries);
    assert(mapping@->Object_0 =~= simulated_location()->Object_0);
    mapping
}

fn time_reliability_fallback() -> (mapping: JsonValue)
    ensures
        mapping@ == simulated_time_reliability(),
{
    let cheating = JsonValue::Bool(false);
    let reliability = JsonValue::Number("100".to_owned());
    assert(cheating@ == JsonTerm::Bool(false));
    assert(reliability@ == JsonTerm::Number("100"@));
    let mut entries: Vec<(String, JsonValue)> = Vec::new();
    entries.push(("isCheatingTime".to_owned(), cheating));
    entries.push(("reliabilityValue".to_owned(), reliability));
    let mapping = JsonValue::Object(entries);
    assert(mapping@->Object_0 =~= simulated_time_reliability()->Object_0);
    mapping
}

fn root_status_fallback() -> (mapping: JsonValue)
    ensures
        mapping@ == simulated_root_status(),
{
    let rooted = JsonValue::Bool(false);
    assert(rooted@ == JsonTerm::Bool(false));
    let mut entries: Vec<(String, JsonValue)> = Vec::new();
    entries.push(("isRooted".to_owned(), rooted));
    let mapping = JsonValue::Object(entries);
    assert(mapping@->Object_0 =~= simulated_root_status()->Object_0);
    mapping
}

/// The answer of `command` on a host without the foreign runtime.
pub fn fallback(command: Command) -> (given: Reply)
    ensures
        given@ == simulated_reply(command),
{
    match command {
        Command::InitAnticheat => Reply::Nothing,
        Command::GetSecureLocation => Reply::Mapping(location_fallback()),
        Command::CheckTimeReliability => Reply::Mapping(time_reliability_fallback()),
        Command::CheckRootStatus => Reply::Mapping(root_status_fallback()),
    }
}

/// Begins `command` on `host`: with the foreign runtime the first operation
/// of the run is due; without it the command is over at once, with its
/// simulated answer and no failure.
pub fn begin(command: Command, host: Host) -> (first: Directive)
    ensures
        first@ == beginning(command, host),
        host is Simulated ==> first@ == DirectiveTerm::Finish(Ok(simulated_reply(command))),
        first@ matches DirectiveTerm::Finish(Ok(ReplyTerm::Mapping(mapping))) ==> mapping is Object
            && well_formed(mapping),
{
    proof {
        simulated_replies_are_well_formed(command);
    }
    match host {
        Host::ForeignRuntime => start(command),
        Host::Simulated => Directive::Finish(Ok(fallback(command))),
    }
}

/// Starts the anti-cheat module: the instance is resolved, initialized, and
/// told to start its location updates. Without the foreign runtime there is
/// nothing to do, and the command succeeds at once.
pub fn init_anticheat(host: Host) -> (first: Directive)
    ensures
        first@ == beginning(Command::InitAnticheat, host),
        host is Simulated ==> first@ == DirectiveTerm::Finish(Ok(ReplyTerm::Nothing)),
{
    begin(Command::InitAnticheat, host)
}

/// Asks for the attested location. Without the foreign runtime the answer is
/// the simulated location.
pub fn get_secure_location(host: Host) -> (first: Directive)
    ensures
        first@ == beginning(Command::GetSecureLocation, host),
        host is Simulated ==> first@ == DirectiveTerm::Finish(
            Ok(ReplyTerm::Mapping(simulated_location())),
        ),
{
    begin(Command::GetSecureLocation, host)
}

/// Asks whether the clock can be trusted. Without the foreign runtime the
/// answer is the simulated verdict.
pub fn check_time_reliability(host: Host) -> (first: Directive)
    ensures
        first@ == beginning(Command::CheckTimeReliability, host),
        host is Simulated ==> first@ == DirectiveTerm::Finish(
            Ok(ReplyTerm::Mapping(simulated_time_reliability())),
        ),
{
    begin(Command::CheckTimeReliability, host)
}

/// Asks whether the device is rooted. Without the foreign runtime the answer
/// is the simulated verdict.
pub fn check_root_status(host: Host) -> (first: Directive)
    ensures
        first@ == beginning(Command::CheckRootStatus, host),
        host is Simulated ==> first@ == DirectiveTerm::Finish(
            Ok(ReplyTerm::Mapping(simulated_root_status())),
        ),
{
    begin(Command::CheckRootStatus, host)
}

/// Without the foreign runtime a command neither fails nor waits: it is over
/// at once with its simulated answer, whatever the host goes on to report.
pub proof fn simulated_command_never_fails(command: Command, events: Seq<EventTerm>)
    ensures
        replay(beginning(command, Host::Simulated), events) == DirectiveTerm::Finish(
            Ok(simulated_reply(command)),
        ),
{
}

/// A command takes nothing from its caller, so what it comes to depends on
/// the host alone: asked twice of a host that reports the same both times,
/// as far as the plan reaches, it gives the same result.
pub proof fn repeated_command_gives_the_same(
    command: Command,
    host: Host,
    first: Seq<EventTerm>,
    second: Seq<EventTerm>,
)
    requires
        first.len() >= plan(command).len() <==> second.len() >= plan(command).len(),
        first.len() < plan(command).len() ==> first.len() == second.len(),
        forall|j: int|
            0 <= j < plan(command).len() && j < first.len() ==> #[trigger] first[j] == second[j],
    ensures
        replay(beginning(command, host), first) == replay(beginning(command, host), second),
{
    match host {
        Host::ForeignRuntime => same_reports_same_result(command, first, second),
        Host::Simulated => {
            simulated_command_never_fails(command, first);
            simulated_command_never_fails(command, second);
        },
    }
}

} // verus!
