//! One round trip into the foreign runtime, as a run of operations that the
//! host performs one at a time. The library decides which operation is due and
//! what the run comes to; the host performs the operation and reports back.

use crate::json::{
    empty_mapping, json_document, normalize, normalized, structured, well_formed, JsonTerm,
    JsonValue,
};
use vstd::prelude::*;

verus! {

/// A method of the foreign anti-cheat object. None takes an argument.
#[derive(Clone, Copy, Debug, PartialEq, Eq, Structural)]
pub enum Method {
    Initialize,
    StartLocationUpdates,
    GetSecureLocationJson,
    CheckTimeReliabilityJson,
    CheckRootStatusJson,
}

impl Method {
    /// Whether the method returns text rather than nothing.
    pub open spec fn yields_text(self) -> bool {
        !(self is Initialize || self is StartLocationUpdates)
    }

    /// The method's name on the foreign side.
    pub open spec fn name_text(self) -> Seq<char> {
        match self {
            Method::Initialize => "initialize"@,
            Method::StartLocationUpdates => "startLocationUpdates"@,
            Method::GetSecureLocationJson => "getSecureLocationJson"@,
            Method::CheckTimeReliabilityJson => "checkTimeReliabilityJson"@,
            Method::CheckRootStatusJson => "checkRootStatusJson"@,
        }
    }

    /// The method's type on the foreign side: no parameter, and a result of
    /// text or none.
    pub open spec fn signature_text(self) -> Seq<char> {
        if self.yields_text() {
            "()Ljava/lang/String;"@
        } else {
            "()V"@
        }
    }

    /// Whether the method returns text rather than nothing.
    pub fn returns_text(self) -> (yes: bool)
        ensures
            yes == self.yields_text(),
    {
        match self {
            Method::Initialize | Method::StartLocationUpdates => false,
            _ => true,
        }
    }

    /// The method's name on the foreign side.
    pub fn name(self) -> (name: &'static str)
        ensures
            name@ == self.name_text(),
    {
        match self {
            Method::Initialize => "initialize",
            Method::StartLocationUpdates => "startLocationUpdates",
            Method::GetSecureLocationJson => "getSecureLocationJson",
            Method::CheckTimeReliabilityJson => "checkTimeReliabilityJson",
            Method::CheckRootStatusJson => "checkRootStatusJson",
        }
    }

    /// The method's type on the foreign side.
    pub fn signature(self) -> (signature: &'static str)
        ensures
            signature@ == self.signature_text(),
    {
        if self.returns_text() {
            "()Ljava/lang/String;"
        } else {
            "()V"
        }
    }
}

/// The fully qualified name of the foreign anti-cheat class.
pub fn class_name() -> (name: &'static str)
    ensures
        name@ == "com/dell/timekeeping/anticheat/AntiCheatPlugin"@,
{
    "com/dell/timekeeping/anticheat/AntiCheatPlugin"
}

/// The name of the static factory that hands out the one instance.
pub fn factory_name() -> (name: &'static str)
    ensures
        name@ == "getInstance"@,
{
    "getInstance"
}

/// The factory's type: it takes the application context and returns the
/// instance.
pub fn factory_signature() -> (signature: &'static str)
    ensures
        signature@ == "(Landroid/content/Context;)Lcom/dell/timekeeping/anticheat/AntiCheatPlugin;"@,
{
    "(Landroid/content/Context;)Lcom/dell/timekeeping/anticheat/AntiCheatPlugin;"
}

/// One operation on the foreign runtime. Each may fail.
#[derive(Clone, Copy, Debug, PartialEq, Eq, Structural)]
pub enum ForeignOp {
    /// Obtain the process-wide handle of the foreign runtime.
    ObtainRuntime,
    /// Attach the current thread to the runtime.
    AttachThread,
    /// Resolve the application context object.
    ResolveContext,
    /// Resolve the anti-cheat class by `class_name`.
    ResolveClass,
    /// Call the static factory with the context, for the instance.
    AcquireInstance,
    /// Call the method on the instance and, where it returns text, extract
    /// the text.
    Invoke(Method),
}

/// A command of the front-end.
#[derive(Clone, Copy, Debug, PartialEq, Eq, Structural)]
pub enum Command {
    InitAnticheat,
    GetSecureLocation,
    CheckTimeReliability,
    CheckRootStatus,
}

impl Command {
    /// The methods that the command calls on the instance, in order.
    pub open spec fn calls(self) -> Seq<Method> {
        match self {
            Command::InitAnticheat => seq![Method::Initialize, Method::StartLocationUpdates],
            Command::GetSecureLocation => seq![Method::GetSecureLocationJson],
            Command::CheckTimeReliability => seq![Method::CheckTimeReliabilityJson],
            Command::CheckRootStatus => seq![Method::CheckRootStatusJson],
        }
    }

    /// Whether the command answers with a mapping rather than with nothing.
    pub open spec fn answers_mapping(self) -> bool {
        !(self is InitAnticheat)
    }
}

/// The operations that lead to the instance, in order.
pub open spec fn resolution() -> Seq<ForeignOp> {
    seq![
        ForeignOp::ObtainRuntime,
        ForeignOp::AttachThread,
        ForeignOp::ResolveContext,
        ForeignOp::ResolveClass,
        ForeignOp::AcquireInstance,
    ]
}

/// The operations of one run of `command`, in order: the resolution of the
/// instance, then the command's calls.
pub open spec fn plan(command: Command) -> Seq<ForeignOp> {
    resolution() + command.calls().map_values(|method: Method| ForeignOp::Invoke(method))
}

/// The operations of one run of `command`, in order.
pub fn steps(command: Command) -> (ops: Vec<ForeignOp>)
    ensures
        ops@ == plan(command),
{
    let mut ops = vec![
        ForeignOp::ObtainRuntime,
        ForeignOp::AttachThread,
        ForeignOp::ResolveContext,
        ForeignOp::ResolveClass,
        ForeignOp::AcquireInstance,
    ];
    match command {
        Command::InitAnticheat => {
            ops.push(ForeignOp::Invoke(Method::Initialize));
            ops.push(ForeignOp::Invoke(Method::StartLocationUpdates));
        },
        Command::GetSecureLocation => {
            ops.push(ForeignOp::Invoke(Method::GetSecureLocationJson));
        },
        Command::CheckTimeReliability => {
            ops.push(ForeignOp::Invoke(Method::CheckTimeReliabilityJson));
        },
        Command::CheckRootStatus => {
            ops.push(ForeignOp::Invoke(Method::CheckRootStatusJson));
        },
    }
    assert(ops@ =~= plan(command));
    ops
}

/// What the host reports of the operation it has performed. Text counts
/// only where it comes from the last operation of a command that answers
/// with a mapping; elsewhere it is dropped.
#[derive(Debug, PartialEq, Eq)]
pub enum Event {
    /// The operation completed and gave no text.
    Done,
    /// The operation completed and gave this text.
    Text(String),
    /// The operation failed, with this message.
    Failed(String),
}

/// An event as a mathematical term.
pub enum EventTerm {
    Done,
    Text(Seq<char>),
    Failed(Seq<char>),
}

impl View for Event {
    type V = EventTerm;

    open spec fn view(&self) -> EventTerm {
        match self {
            Event::Done => EventTerm::Done,
            Event::Text(text) => EventTerm::Text(text@),
            Event::Failed(message) => EventTerm::Failed(message@),
        }
    }
}

/// What a command answers where it succeeds.
#[derive(Debug, PartialEq, Eq)]
pub enum Reply {
    Nothing,
    Mapping(JsonValue),
}

/// A reply as a mathematical term.
pub enum ReplyTerm {
    Nothing,
    Mapping(JsonTerm),
}

impl View for Reply {
    type V = ReplyTerm;

    open spec fn view(&self) -> ReplyTerm {
        match self {
            Reply::Nothing => ReplyTerm::Nothing,
            Reply::Mapping(mapping) => ReplyTerm::Mapping(mapping@),
        }
    }
}

/// A run that waits for the outcome of one operation.
#[derive(Clone, Copy, Debug, PartialEq, Eq, Structural)]
pub struct Session {
    pub command: Command,
    /// How many operations of the plan have completed; the next one is the
    /// one that the host is performing.
    pub position: usize,
}

/// What the host is to do next.
#[derive(Debug, PartialEq, Eq)]
pub enum Directive {
    /// Perform the operation, then hand its outcome to `Session::advance`.
    Perform(ForeignOp, Session),
    /// The run is over: answer the front-end with this.
    Finish(Result<Reply, String>),
}

/// A directive as a mathematical term.
pub enum DirectiveTerm {
    Perform(ForeignOp, Session),
    Finish(Result<ReplyTerm, Seq<char>>),
}

impl View for Directive {
    type V = DirectiveTerm;

    open spec fn view(&self) -> DirectiveTerm {
        match self {
            Directive::Perform(op, session) => DirectiveTerm::Perform(*op, *session),
            Directive::Finish(Ok(reply)) => DirectiveTerm::Finish(Ok(reply@)),
            Directive::Finish(Err(message)) => DirectiveTerm::Finish(Err(message@)),
        }
    }
}

/// The answer of `command` when its last operation has reported `last`:
/// nothing, or the normalized text; where no text came, the empty mapping.
pub open spec fn reply(command: Command, last: EventTerm) -> ReplyTerm {
    if command.answers_mapping() {
        match last {
            EventTerm::Text(text) => ReplyTerm::Mapping(normalized(json_document(text))),
            _ => ReplyTerm::Mapping(empty_mapping()),
        }
    } else {
        ReplyTerm::Nothing
    }
}

/// The first directive of a run of `command` on the foreign runtime.
pub open spec fn opening(command: Command) -> DirectiveTerm {
    DirectiveTerm::Perform(plan(command)[0], Session { command, position: 0 })
}

/// What follows when the operation that `session` waits for reports `event`:
/// a failure ends the run with its message; otherwise the next operation of
/// the plan is due, and after the last one the run ends with the answer.
pub open spec fn step(session: Session, event: EventTerm) -> DirectiveTerm {
    match event {
        EventTerm::Failed(message) => DirectiveTerm::Finish(Err(message)),
        _ => if session.position + 1 < plan(session.command).len() {
            DirectiveTerm::Perform(
                plan(session.command)[session.position + 1],
                Session { command: session.command, position: (session.position + 1) as usize },
            )
        } else {
            DirectiveTerm::Finish(Ok(reply(session.command, event)))
        },
    }
}

/// Where a run stands after the host has reported `events`, in order, from
/// the directive `from` on. What is reported after the end changes nothing.
pub open spec fn replay(from: DirectiveTerm, events: Seq<EventTerm>) -> DirectiveTerm
    decreases events.len(),
{
    if events.len() == 0 {
        from
    } else {
        match from {
            DirectiveTerm::Perform(_, session) => replay(
                step(session, events[0]),
                events.drop_first(),
            ),
            DirectiveTerm::Finish(_) => from,
        }
    }
}

/// Starts a run of `command` on the foreign runtime.
pub fn start(command: Command) -> (first: Directive)
    ensures
        first@ == opening(command),
{
    let ops = steps(command);
    Directive::Perform(ops[0], Session { command, position: 0 })
}

/// The answer of `command` after its last operation has reported `last`.
fn answer(command: Command, last: Event) -> (given: Reply)
    ensures
        given@ == reply(command, last@),
        given@ matches ReplyTerm::Mapping(mapping) ==> mapping is Object && well_formed(mapping),
{
    match command {
        Command::InitAnticheat => Reply::Nothing,
        _ => match last {
            Event::Text(text) => Reply::Mapping(normalize(text.as_str())),
            _ => Reply::Mapping(structured(None)),
        },
    }
}

impl Session {
    /// Takes the outcome of the operation that the host has performed and
    /// says what is next.
    pub fn advance(self, event: Event) -> (next: Directive)
        ensures
            next@ == step(self, event@),
            next@ matches DirectiveTerm::Finish(Ok(ReplyTerm::Mapping(mapping))) ==> mapping is Object
                && well_formed(mapping),
    {
        match event {
            Event::Failed(message) => Directive::Finish(Err(message)),
            other => {
                let ops = steps(self.command);
                if self.position < ops.len() - 1 {
                    let position: usize = self.position + 1;
                    Directive::Perform(ops[position], Session { command: self.command, position })
                } else {
                    Directive::Finish(Ok(answer(self.command, other)))
                }
            },
        }
    }
}

/// The directive of a run of `command` that has come to position `p`.
pub open spec fn waiting(command: Command, p: int) -> DirectiveTerm {
    DirectiveTerm::Perform(plan(command)[p], Session { command, position: p as usize })
}

/// Whether none of the first `n` of `events` is a failure.
pub open spec fn unfailing(events: Seq<EventTerm>, n: int) -> bool {
    forall|j: int| 0 <= j < n && j < events.len() ==> !((#[trigger] events[j]) is Failed)
}

/// A run that is over stays as it is.
proof fn finished_stays(given: Result<ReplyTerm, Seq<char>>, events: Seq<EventTerm>)
    ensures
        replay(DirectiveTerm::Finish(given), events) == DirectiveTerm::Finish(given),
{
}

/// A run at position `p` whose next `k` reports are no failures, and whose
/// report after them is one, ends with that failure.
proof fn fails_from(command: Command, p: int, events: Seq<EventTerm>, k: int)
    requires
        0 <= p,
        0 <= k < events.len(),
        p + k < plan(command).len(),
        unfailing(events, k),
        events[k] is Failed,
    ensures
        replay(waiting(command, p), events) == DirectiveTerm::Finish(Err(events[k]->Failed_0)),
    decreases k,
{
    let session = Session { command, position: p as usize };
    let rest = events.drop_first();
    if k == 0 {
        finished_stays(Err(events[0]->Failed_0), rest);
    } else {
        assert(!(events[0] is Failed));
        assert(step(session, events[0]) == waiting(command, p + 1));
        assert(unfailing(rest, k - 1)) by {
            assert forall|j: int| 0 <= j < k - 1 && j < rest.len() implies !(rest[j] is Failed) by {
                assert(rest[j] == events[j + 1]);
            }
        }
        fails_from(command, p + 1, rest, k - 1);
    }
}

/// A run at position `p` whose reports hold no failure as far as the plan
/// reaches ends with the answer to the last of them, and waits for the next
/// operation where they do not reach the plan's end.
proof fn succeeds_from(command: Command, p: int, events: Seq<EventTerm>)
    requires
        0 <= p < plan(command).len(),
        unfailing(events, plan(command).len() - p),
    ensures
        replay(waiting(command, p), events) == if p + events.len() >= plan(command).len() {
            DirectiveTerm::Finish(Ok(reply(command, events[plan(command).len() - 1 - p])))
        } else {
            waiting(command, p + events.len())
        },
    decreases events.len(),
{
    let session = Session { command, position: p as usize };
    if events.len() > 0 {
        let rest = events.drop_first();
        assert(!(events[0] is Failed));
        if p + 1 < plan(command).len() {
            assert(step(session, events[0]) == waiting(command, p + 1));
            let left = plan(command).len() - (p + 1);
            assert(unfailing(rest, left)) by {
                assert forall|j: int| 0 <= j < left && j < rest.len() implies !(rest[j] is Failed) by {
                    assert(rest[j] == events[j + 1]);
                }
            }
            succeeds_from(command, p + 1, rest);
            if p + events.len() >= plan(command).len() {
                assert(rest[left - 1] == events[left]);
            }
        } else {
            finished_stays(Ok(reply(command, events[0])), rest);
        }
    }
}

/// The first failure ends a run, with its message and with no value: however
/// many operations had succeeded before it, and whatever is reported after
/// it, the command answers with that failure.
pub proof fn first_failure_ends_the_run(command: Command, events: Seq<EventTerm>, k: int)
    requires
        0 <= k < events.len(),
        k < plan(command).len(),
        unfailing(events, k),
        events[k] is Failed,
    ensures
        replay(opening(command), events) == DirectiveTerm::Finish(Err(events[k]->Failed_0)),
{
    fails_from(command, 0, events, k);
}

/// A run whose operations have all been reported, none of them failed, ends
/// with the answer to what the last operation reported.
pub proof fn unfailing_run_answers(command: Command, events: Seq<EventTerm>)
    requires
        events.len() >= plan(command).len(),
        unfailing(events, plan(command).len() as int),
    ensures
        replay(opening(command), events) == DirectiveTerm::Finish(
            Ok(reply(command, events[plan(command).len() - 1])),
        ),
{
    succeeds_from(command, 0, events);
}

/// While operations of the plan are outstanding and none has failed, the run
/// has no result: the next operation of the plan is due.
pub proof fn unfinished_run_waits(command: Command, events: Seq<EventTerm>)
    requires
        events.len() < plan(command).len(),
        unfailing(events, events.len() as int),
    ensures
        replay(opening(command), events) == waiting(command, events.len() as int),
{
    succeeds_from(command, 0, events);
}

/// All or nothing: a run that has ended in success has seen every operation
/// of its plan reported, and none of them failed.
pub proof fn success_needs_every_operation(command: Command, events: Seq<EventTerm>)
    requires
        replay(opening(command), events) matches DirectiveTerm::Finish(Ok(_)),
    ensures
        events.len() >= plan(command).len(),
        unfailing(events, plan(command).len() as int),
{
    let n = plan(command).len() as int;
    if exists|k: int| 0 <= k < n && k < events.len() && (#[trigger] events[k]) is Failed {
        let k = least_failure(events, n);
        first_failure_ends_the_run(command, events, k);
    } else if events.len() < n {
        unfinished_run_waits(command, events);
    }
}

/// A run is a function of what the host reports: two runs of one command
/// whose reports agree as far as the plan reaches come to the same.
pub proof fn same_reports_same_result(
    command: Command,
    first: Seq<EventTerm>,
    second: Seq<EventTerm>,
)
    requires
        first.len() >= plan(command).len() <==> second.len() >= plan(command).len(),
        first.len() < plan(command).len() ==> first.len() == second.len(),
        forall|j: int|
            0 <= j < plan(command).len() && j < first.len() ==> #[trigger] first[j] == second[j],
    ensures
        replay(opening(command), first) == replay(opening(command), second),
{
    let n = plan(command).len() as int;
    if exists|k: int| 0 <= k < n && k < first.len() && (#[trigger] first[k]) is Failed {
        let k = least_failure(first, n);
        assert(unfailing(second, k)) by {
            assert forall|j: int| 0 <= j < k && j < second.len() implies !(second[j] is Failed) by {
                assert(first[j] == second[j]);
            }
        }
        assert(first[k] == second[k]);
        first_failure_ends_the_run(command, first, k);
        first_failure_ends_the_run(command, second, k);
    } else {
        assert(unfailing(first, n));
        assert(unfailing(second, n)) by {
            assert forall|j: int| 0 <= j < n && j < second.len() implies !(second[j] is Failed) by {
                assert(first[j] == second[j]);
            }
        }
        succeeds_from(command, 0, first);
        succeeds_from(command, 0, second);
        if first.len() >= n {
            assert(first[n - 1] == second[n - 1]);
        }
    }
}

/// The place of the first failure among the first `n` of `events`, where
/// there is one.
proof fn least_failure(events: Seq<EventTerm>, n: int) -> (k: int)
    requires
        exists|k: int| 0 <= k < n && k < events.len() && (#[trigger] events[k]) is Failed,
    ensures
        0 <= k < n,
        k < events.len(),
        events[k] is Failed,
        unfailing(events, k),
    decreases n,
{
    let found = choose|k: int| 0 <= k < n && k < events.len() && (#[trigger] events[k]) is Failed;
    if exists|k: int| 0 <= k < found && k < events.len() && (#[trigger] events[k]) is Failed {
        least_failure(events, found)
    } else {
        found
    }
}

} // verus!
