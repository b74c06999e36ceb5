//! The invocation bridge: a registry of named commands, the lifecycle state
//! machine, the startup sequencer, and request routing.

use vstd::prelude::*;
use vstd::string::*;

use crate::command::{
    first_violation, run_handler, run_handler_spec, validate, Command, CommandV, Violation,
};
use crate::plugin::{
    events_view, init_prefix_len, init_trace, lemma_init_prefix_len_from_scan, plugins_view,
    startup_trace, teardown_event, teardown_trace, Event, EventV, Plugin, PluginV,
};
use crate::value::{args_view, ArgsV, Value, ValueV};

verus! {

/// The bridge's lifecycle state. Commands may be registered only in
/// `Registering`; invocations are accepted only in `Ready`.
#[derive(Clone, Copy, Debug, PartialEq, Eq, Structural)]
pub enum Phase {
    Uninitialized,
    Registering,
    Starting,
    Ready,
    ShuttingDown,
    Stopped,
}

/// The error taxonomy of the bridge. `PluginInitError` is the one fatal
/// kind, reported by startup; a teardown failure is non-fatal, recorded as
/// a lifecycle event, and `PluginTeardownError` is the kind a host uses
/// when it logs one.
#[derive(Clone, Copy, Debug, PartialEq, Eq, Structural)]
pub enum ErrorKind {
    DuplicateCommand,
    RegistryClosed,
    UnknownCommand,
    InvalidArgument,
    BridgeNotReady,
    HandlerError,
    PluginInitError,
    PluginTeardownError,
}

/// A structured failure descriptor: the error kind, a human-readable
/// message, and an optional machine-readable code (the violated parameter's
/// name, or the failed plugin's identifier).
#[derive(Clone, Debug, PartialEq, Eq)]
pub struct ErrorInfo {
    pub kind: ErrorKind,
    pub message: String,
    pub code: Option<String>,
}

/// Mathematical model of an `ErrorInfo`.
pub struct ErrorInfoV {
    pub kind: ErrorKind,
    pub message: Seq<char>,
    pub code: Option<Seq<char>>,
}

impl View for ErrorInfo {
    type V = ErrorInfoV;

    open spec fn view(&self) -> ErrorInfoV {
        ErrorInfoV {
            kind: self.kind,
            message: self.message@,
            code: match self.code {
                Some(c) => Some(c@),
                None => None,
            },
        }
    }
}

/// One invocation's answer: the caller's correlation token, and either a
/// success payload or a failure descriptor.
#[derive(Debug, PartialEq, Eq)]
pub struct Response {
    pub token: String,
    pub outcome: Result<Value, ErrorInfo>,
}

/// Mathematical model of a `Response`.
pub struct ResponseV {
    pub token: Seq<char>,
    pub outcome: Result<ValueV, ErrorInfoV>,
}

impl View for Response {
    type V = ResponseV;

    open spec fn view(&self) -> ResponseV {
        ResponseV {
            token: self.token@,
            outcome: match &self.outcome {
                Ok(v) => Ok(v@),
                Err(e) => Err(e@),
            },
        }
    }
}

/// A failure response, fully determined by its parts.
pub open spec fn failure(
    token: Seq<char>,
    kind: ErrorKind,
    message: Seq<char>,
    code: Option<Seq<char>>,
) -> ResponseV {
    ResponseV { token, outcome: Err(ErrorInfoV { kind, message, code }) }
}

/// The registered command named `name`; the registry never holds two
/// commands of one name, so the first match is the only one.
pub open spec fn lookup_command(reg: Seq<CommandV>, name: Seq<char>) -> Option<CommandV>
    decreases reg.len(),
{
    if reg.len() == 0 {
        None
    } else if reg[0].name == name {
        Some(reg[0])
    } else {
        lookup_command(reg.drop_first(), name)
    }
}

pub proof fn lemma_lookup_none_means_absent(reg: Seq<CommandV>, name: Seq<char>)
    requires
        lookup_command(reg, name) is None,
    ensures
        forall|i: int| 0 <= i < reg.len() ==> reg[i].name != name,
    decreases reg.len(),
{
    if reg.len() > 0 {
        lemma_lookup_none_means_absent(reg.drop_first(), name);
        assert forall|i: int| 0 <= i < reg.len() implies reg[i].name != name by {
            if i > 0 {
                assert(reg.drop_first()[i - 1] == reg[i]);
            }
        }
    }
}

/// No two registered commands share a name.
pub open spec fn names_unique(reg: Seq<CommandV>) -> bool {
    forall|i: int, j: int| 0 <= i < j < reg.len() ==> reg[i].name != reg[j].name
}

/// The human-readable message of an argument violation.
pub open spec fn violation_message(v: Violation) -> Seq<char> {
    match v {
        Violation::MissingRequired => "missing required parameter"@,
        Violation::TypeMismatch => "argument type mismatch"@,
    }
}

/// The response the bridge owes for a request, as a function of the bridge's
/// state and the request alone: outside `Ready` the request is refused;
/// an unregistered name is refused; arguments that violate the declared
/// parameters are refused without consulting the handler; otherwise the
/// handler's result or failure is wrapped. The caller's token is always
/// carried back.
pub open spec fn spec_invoke(
    b: BridgeV,
    name: Seq<char>,
    args: ArgsV,
    token: Seq<char>,
) -> ResponseV {
    if !(b.phase is Ready) {
        failure(token, ErrorKind::BridgeNotReady, "bridge is not ready"@, None)
    } else {
        match lookup_command(b.registry, name) {
            None => failure(token, ErrorKind::UnknownCommand, "unknown command"@, None),
            Some(c) => match first_violation(c.params, args) {
                Some(pv) => failure(
                    token,
                    ErrorKind::InvalidArgument,
                    violation_message(pv.1),
                    Some(pv.0),
                ),
                None => match run_handler_spec(c.handler, args) {
                    Ok(v) => ResponseV { token, outcome: Ok(v) },
                    Err(m) => failure(token, ErrorKind::HandlerError, m, None),
                },
            },
        }
    }
}

/// Mathematical model of a `Bridge`.
pub struct BridgeV {
    pub phase: Phase,
    pub registry: Seq<CommandV>,
    pub plugins: Seq<PluginV>,
}

/// The single bridge instance: lifecycle phase, the command registry, and
/// the plugins initialized at startup (kept for teardown at shutdown).
#[derive(Debug)]
pub struct Bridge {
    pub phase: Phase,
    pub registry: Vec<Command>,
    pub plugins: Vec<Plugin>,
}

/// Model of a command registry.
pub open spec fn registry_view(reg: Seq<Command>) -> Seq<CommandV> {
    reg.map_values(|c: Command| c@)
}

impl View for Bridge {
    type V = BridgeV;

    open spec fn view(&self) -> BridgeV {
        BridgeV {
            phase: self.phase,
            registry: registry_view(self.registry@),
            plugins: plugins_view(self.plugins@),
        }
    }
}

impl Bridge {
    /// Well-formedness: registered command names are unique.
    pub open spec fn wf(&self) -> bool {
        names_unique(self@.registry)
    }

    /// A fresh bridge: uninitialized, with an empty registry.
    pub fn new() -> (b: Bridge)
        ensures
            b.wf(),
            b@.phase is Uninitialized,
            b@.registry == Seq::<CommandV>::empty(),
            b@.plugins == Seq::<PluginV>::empty(),
    {
        let b = Bridge { phase: Phase::Uninitialized, registry: Vec::new(), plugins: Vec::new() };
        proof {
            assert(registry_view(b.registry@) =~= Seq::<CommandV>::empty());
            assert(plugins_view(b.plugins@) =~= Seq::<PluginV>::empty());
        }
        b
    }

    /// Opens the registry: the one transition out of `Uninitialized`.
    pub fn begin_registration(&mut self)
        requires
            old(self)@.phase is Uninitialized,
        ensures
            final(self)@ == (BridgeV { phase: Phase::Registering, ..old(self)@ }),
    {
        self.phase = Phase::Registering;
    }

    /// The bridge's current lifecycle phase.
    pub fn phase(&self) -> (p: Phase)
        ensures
            p == self@.phase,
    {
        self.phase
    }

    /// Adds a command to the registry. Outside the `Registering` phase the
    /// registry is closed; a name registered twice is refused; otherwise the
    /// command is appended, and nothing else changes.
    pub fn register(&mut self, cmd: Command) -> (r: Result<(), ErrorInfo>)
        requires
            old(self).wf(),
        ensures
            final(self).wf(),
            final(self)@.phase == old(self)@.phase,
            final(self)@.plugins == old(self)@.plugins,
            !(old(self)@.phase is Registering) ==> {
                &&& r matches Err(e) && e@.kind == ErrorKind::RegistryClosed
                &&& final(self)@ == old(self)@
            },
            old(self)@.phase is Registering && lookup_command(
                old(self)@.registry,
                cmd@.name,
            ) is Some ==> {
                &&& r matches Err(e) && e@.kind == ErrorKind::DuplicateCommand
                &&& final(self)@ == old(self)@
            },
            old(self)@.phase is Registering && lookup_command(
                old(self)@.registry,
                cmd@.name,
            ) is None ==> {
                &&& r is Ok
                &&& final(self)@.registry == old(self)@.registry.push(cmd@)
            },
    {
        if self.phase != Phase::Registering {
            return Err(
                ErrorInfo {
                    kind: ErrorKind::RegistryClosed,
                    message: String::from_str("commands may be registered only during startup"),
                    code: None,
                },
            );
        }
        if find_command(&self.registry, cmd.name.as_str()).is_some() {
            return Err(
                ErrorInfo {
                    kind: ErrorKind::DuplicateCommand,
                    message: String::from_str("a command of this name is already registered"),
                    code: Some(cmd.name),
                },
            );
        }
        proof {
            lemma_lookup_none_means_absent(self@.registry, cmd@.name);
        }
        let ghost old_reg = self@.registry;
        self.registry.push(cmd);
        proof {
            assert(registry_view(self.registry@) =~= old_reg.push(cmd@));
        }
        Ok(())
    }

    /// Routes one invocation request and always returns a response carrying
    /// the caller's correlation token; the bridge itself never panics on a
    /// handler failure. The registry is not touched, so distinct invocations
    /// are independent.
    pub fn invoke(&self, name: &str, args: &Vec<(String, Value)>, token: String) -> (r: Response)
        ensures
            r@ == spec_invoke(self@, name@, args_view(args@), token@),
            r@.token == token@,
    {
        if self.phase != Phase::Ready {
            return failure_response(token, ErrorKind::BridgeNotReady, "bridge is not ready", None);
        }
        match find_command(&self.registry, name) {
            None => failure_response(token, ErrorKind::UnknownCommand, "unknown command", None),
            Some(c) => match validate(&c.params, args) {
                Some(pv) => {
                    let msg = violation_text(pv.1);
                    failure_response(token, ErrorKind::InvalidArgument, msg, Some(pv.0))
                },
                None => match run_handler(c.handler, args) {
                    Ok(v) => Response { token, outcome: Ok(v) },
                    Err(m) => Response {
                        token,
                        outcome: Err(ErrorInfo { kind: ErrorKind::HandlerError, message: m, code: None }),
                    },
                },
            },
        }
    }

    /// Initializes the plugins in declared order and opens the bridge. When
    /// every initialization succeeds the bridge becomes `Ready` and keeps
    /// the plugins for teardown at shutdown. When one fails, the plugins
    /// already initialized are torn down in reverse order, the bridge ends
    /// `Stopped` — it never reaches `Ready` — and the failed plugin is named
    /// in the fatal error. The returned events record exactly what happened,
    /// in order.
    pub fn startup(&mut self, plugins: Vec<Plugin>) -> (r: (Result<(), ErrorInfo>, Vec<Event>))
        requires
            old(self).wf(),
            old(self)@.phase is Registering,
        ensures
            final(self).wf(),
            final(self)@.registry == old(self)@.registry,
            events_view(r.1@) == startup_trace(plugins_view(plugins@)),
            ({
                let psv = plugins_view(plugins@);
                let k = init_prefix_len(psv);
                match r.0 {
                    Ok(_) => {
                        &&& k == psv.len()
                        &&& final(self)@.phase is Ready
                        &&& final(self)@.plugins == psv
                    },
                    Err(e) => {
                        &&& k < psv.len()
                        &&& e@.kind == ErrorKind::PluginInitError
                        &&& e@.message == "plugin initialization failed"@
                        &&& e@.code == Some(psv[k].id)
                        &&& final(self)@.phase is Stopped
                        &&& final(self)@.plugins == Seq::<PluginV>::empty()
                    },
                }
            }),
    {
        let ghost psv = plugins_view(plugins@);
        self.phase = Phase::Starting;

        // Find how many plugins initialize before the first failure.
        let n = plugins.len();
        let mut k: usize = 0;
        while k < n && plugins[k].init_ok
            invariant
                0 <= k <= n,
                n == plugins@.len(),
                psv == plugins_view(plugins@),
                forall|j: int| 0 <= j < k ==> psv[j].init_ok,
            decreases n - k,
        {
            assert(psv[k as int].init_ok);
            k += 1;
        }
        proof {
            if k < n {
                assert(!psv[k as int].init_ok);
            }
            lemma_init_prefix_len_from_scan(psv, k as int);
        }

        // Record the successful initializations, in declared order.
        let mut events: Vec<Event> = Vec::new();
        proof {
            assert(events_view(events@) =~= init_trace(psv, 0));
        }
        let mut i: usize = 0;
        while i < k
            invariant
                0 <= i <= k <= plugins@.len(),
                psv == plugins_view(plugins@),
                events_view(events@) == init_trace(psv, i as int),
            decreases k - i,
        {
            let ghost es0 = events@;
            events.push(Event::InitOk(plugins[i].id.clone()));
            proof {
                assert(events_view(events@) =~= events_view(es0).push(
                    EventV::InitOk(psv[i as int].id),
                ));
                assert(init_trace(psv, i + 1) =~= init_trace(psv, i as int).push(
                    EventV::InitOk(psv[i as int].id),
                ));
            }
            i += 1;
        }

        if k == n {
            self.phase = Phase::Ready;
            self.plugins = plugins;
            return (Ok(()), events);
        }

        // A plugin failed to initialize: record the failure, tear down the
        // initialized plugins in reverse order, and stop.
        let ghost es1 = events@;
        events.push(Event::InitFailed(plugins[k].id.clone()));
        proof {
            assert(events_view(events@) =~= events_view(es1).push(
                EventV::InitFailed(psv[k as int].id),
            ));
        }
        let ghost base = events@;
        let mut tail = teardown_range(&plugins, k);
        events.append(&mut tail);
        proof {
            assert(events_view(events@) =~= events_view(base) + teardown_trace(psv, k as int));
            assert(events_view(events@) =~= startup_trace(psv));
        }
        let err = ErrorInfo {
            kind: ErrorKind::PluginInitError,
            message: String::from_str("plugin initialization failed"),
            code: Some(plugins[k].id.clone()),
        };
        self.phase = Phase::Stopped;
        self.plugins = Vec::new();
        proof {
            assert(plugins_view(self.plugins@) =~= Seq::<PluginV>::empty());
        }
        (Err(err), events)
    }

    /// Closes a ready bridge: tears the plugins down in reverse of their
    /// initialization order, best-effort — a teardown failure is recorded
    /// and does not block the rest — and ends `Stopped`.
    pub fn shutdown(&mut self) -> (events: Vec<Event>)
        requires
            old(self).wf(),
            old(self)@.phase is Ready,
        ensures
            final(self).wf(),
            final(self)@.registry == old(self)@.registry,
            final(self)@.phase is Stopped,
            final(self)@.plugins == Seq::<PluginV>::empty(),
            events_view(events@) == teardown_trace(
                old(self)@.plugins,
                old(self)@.plugins.len() as int,
            ),
    {
        self.phase = Phase::ShuttingDown;
        let n = self.plugins.len();
        let events = teardown_range(&self.plugins, n);
        self.phase = Phase::Stopped;
        self.plugins = Vec::new();
        proof {
            assert(plugins_view(self.plugins@) =~= Seq::<PluginV>::empty());
        }
        events
    }
}

/// Tears down the first `k` plugins in reverse order and records one event
/// for each, teardown failures included.
fn teardown_range(plugins: &Vec<Plugin>, k: usize) -> (events: Vec<Event>)
    requires
        k <= plugins@.len(),
    ensures
        events_view(events@) == teardown_trace(plugins_view(plugins@), k as int),
{
    let ghost psv = plugins_view(plugins@);
    let ghost trace = teardown_trace(psv, k as int);
    let mut events: Vec<Event> = Vec::new();
    proof {
        assert(events_view(events@) =~= trace.take(0));
    }
    let mut j: usize = k;
    while j > 0
        invariant
            0 <= j <= k <= plugins@.len(),
            psv == plugins_view(plugins@),
            trace == teardown_trace(psv, k as int),
            events_view(events@) == trace.take(k - j),
        decreases j,
    {
        j -= 1;
        let ghost es0 = events@;
        let p = &plugins[j];
        if p.teardown_ok {
            events.push(Event::TeardownOk(p.id.clone()));
        } else {
            events.push(Event::TeardownFailed(p.id.clone()));
        }
        proof {
            assert(events_view(events@) =~= events_view(es0).push(teardown_event(psv[j as int])));
            assert(trace[k - j - 1] == teardown_event(psv[j as int]));
            assert(trace.take(k - j) =~= trace.take(k - j - 1).push(trace[k - j - 1]));
        }
    }
    proof {
        assert(trace.take(k as int) =~= trace);
    }
    events
}

/// Builds a failure response.
fn failure_response(token: String, kind: ErrorKind, message: &str, code: Option<String>) -> (r:
    Response)
    ensures
        r@ == failure(
            token@,
            kind,
            message@,
            match code {
                Some(c) => Some(c@),
                None => None,
            },
        ),
{
    Response {
        token,
        outcome: Err(ErrorInfo { kind, message: message.to_owned(), code }),
    }
}

/// The registered command named `name`, if any.
fn find_command<'a>(reg: &'a Vec<Command>, name: &str) -> (r: Option<&'a Command>)
    ensures
        match r {
            Some(c) => lookup_command(registry_view(reg@), name@) == Some(c@),
            None => lookup_command(registry_view(reg@), name@) is None,
        },
{
    let key: String = name.to_owned();
    let ghost rv = registry_view(reg@);
    proof {
        assert(rv.skip(0) =~= rv);
    }
    let mut i: usize = 0;
    while i < reg.len()
        invariant
            0 <= i <= reg.len(),
            rv == registry_view(reg@),
            rv.len() == reg@.len(),
            key@ == name@,
            lookup_command(rv, name@) == lookup_command(rv.skip(i as int), name@),
        decreases reg.len() - i,
    {
        if reg[i].name == key {
            assert(rv.skip(i as int)[0] == rv[i as int]);
            return Some(&reg[i]);
        }
        proof {
            lemma_lookup_skip(rv, name@, i as int);
        }
        i += 1;
    }
    assert(rv.skip(i as int) =~= Seq::<CommandV>::empty());
    None
}

proof fn lemma_lookup_skip(reg: Seq<CommandV>, name: Seq<char>, i: int)
    requires
        0 <= i < reg.len(),
        reg[i].name != name,
        lookup_command(reg, name) == lookup_command(reg.skip(i), name),
    ensures
        lookup_command(reg, name) == lookup_command(reg.skip(i + 1), name),
{
    assert(reg.skip(i)[0] == reg[i]);
    assert(reg.skip(i).drop_first() =~= reg.skip(i + 1));
}

/// The human-readable text of an argument violation.
fn violation_text(v: Violation) -> (r: &'static str)
    ensures
        r@ == violation_message(v),
{
    match v {
        Violation::MissingRequired => "missing required parameter",
        Violation::TypeMismatch => "argument type mismatch",
    }
}

} // verus!
