//! Start-up of the agent: the state it keeps for its lifetime and the order
//! in which that state is filled.
//!
//! The library decides; the program around it acts. `JdwpServer::step` takes
//! what has just happened and says what to do next. The program does it and
//! reports back with the next event, until it is told to serve or to abort.

use crate::decimal::{decimal_digits, render_unsigned};
use crate::jvmti::{environment_error, get_jvmti_env, EnvHandle, VmHandle, JNI_OK, JVMTI_VERSION_21};
use crate::options::{listen_port, parse_options, parsed_options, resolve_port};
use vstd::prelude::*;

verus! {

/// How far the start-up has come.
#[derive(Clone, Copy, Debug, PartialEq, Eq, Structural)]
pub enum Phase {
    /// Nothing has happened yet.
    Idle,
    /// The options were read; a listener is being bound on `port`.
    Binding { port: u16, vm: VmHandle },
    /// The listener is bound; the execution context is being created.
    StartingRuntime { port: u16, vm: VmHandle },
    /// Listener and execution context exist; the environment handle is
    /// being negotiated. Nothing is kept yet.
    Negotiating { port: u16, vm: VmHandle },
    /// Everything is kept and requests are served on `port`.
    Serving { port: u16 },
    /// The start-up met a fatal error.
    Aborted,
}

/// State of the agent for the lifetime of the process. Every field starts
/// empty; a start-up that succeeds fills all four at once, and none is ever
/// emptied again.
#[derive(Clone, Copy, Debug, PartialEq, Eq, Structural)]
pub struct JdwpServer {
    pub phase: Phase,
    /// Port of the listener that is kept.
    pub server: Option<u16>,
    /// Whether an execution context is kept.
    pub runtime: bool,
    /// Environment handle that the host VM handed out.
    pub env: Option<EnvHandle>,
    /// Handle of the host VM.
    pub vm: Option<VmHandle>,
}

/// What has just happened.
#[derive(Clone, Copy, Debug, PartialEq, Eq)]
pub enum InitEvent<'a> {
    /// The host VM loaded or attached the agent.
    Load { vm: VmHandle, options: Option<&'a str> },
    /// The listener was bound.
    ListenerBound,
    /// The listener could not be bound.
    ListenerRefused,
    /// The execution context was created.
    RuntimeStarted,
    /// The execution context could not be created.
    RuntimeRefused,
    /// The host VM answered the negotiation with `status` and wrote `env`.
    Environment { status: i32, env: EnvHandle },
}

/// An `InitEvent`, its text as a sequence.
pub enum InitEventView {
    Load { vm: VmHandle, options: Option<Seq<char>> },
    ListenerBound,
    ListenerRefused,
    RuntimeStarted,
    RuntimeRefused,
    Environment { status: i32, env: EnvHandle },
}

impl<'a> View for InitEvent<'a> {
    type V = InitEventView;

    open spec fn view(&self) -> InitEventView {
        match *self {
            InitEvent::Load { vm, options } => InitEventView::Load {
                vm,
                options: match options {
                    Some(text) => Some(text@),
                    None => None,
                },
            },
            InitEvent::ListenerBound => InitEventView::ListenerBound,
            InitEvent::ListenerRefused => InitEventView::ListenerRefused,
            InitEvent::RuntimeStarted => InitEventView::RuntimeStarted,
            InitEvent::RuntimeRefused => InitEventView::RuntimeRefused,
            InitEvent::Environment { status, env } => InitEventView::Environment { status, env },
        }
    }
}

/// Why the start-up was given up.
#[derive(Clone, Debug, PartialEq, Eq)]
pub enum InitError {
    /// The value of the `port` option denotes no 16-bit unsigned number.
    InvalidPort,
    /// The listener could not be bound.
    ListenerRefused,
    /// The execution context could not be created.
    RuntimeRefused,
    /// The host VM handed out no environment handle.
    EnvironmentRefused { message: String },
    /// The event does not follow from the last action.
    UnexpectedEvent,
}

/// An `InitError`, its text as a sequence.
pub enum InitErrorView {
    InvalidPort,
    ListenerRefused,
    RuntimeRefused,
    EnvironmentRefused { message: Seq<char> },
    UnexpectedEvent,
}

impl View for InitError {
    type V = InitErrorView;

    open spec fn view(&self) -> InitErrorView {
        match *self {
            InitError::InvalidPort => InitErrorView::InvalidPort,
            InitError::ListenerRefused => InitErrorView::ListenerRefused,
            InitError::RuntimeRefused => InitErrorView::RuntimeRefused,
            InitError::EnvironmentRefused { message } => InitErrorView::EnvironmentRefused {
                message: message@,
            },
            InitError::UnexpectedEvent => InitErrorView::UnexpectedEvent,
        }
    }
}

/// What to do next.
#[derive(Clone, Debug, PartialEq, Eq)]
pub enum InitAction {
    /// Bind a listener at `address`.
    Bind { address: String },
    /// Create the execution context on which requests are served.
    StartRuntime,
    /// Ask the host VM `vm` for an environment handle of `version`.
    GetEnvironment { vm: VmHandle, version: i32 },
    /// Serve requests on the listener, which is bound on `port`.
    Serve { port: u16 },
    /// Give up.
    Abort { error: InitError },
}

/// An `InitAction`, its text as a sequence.
pub enum InitActionView {
    Bind { address: Seq<char> },
    StartRuntime,
    GetEnvironment { vm: VmHandle, version: i32 },
    Serve { port: u16 },
    Abort { error: InitErrorView },
}

impl View for InitAction {
    type V = InitActionView;

    open spec fn view(&self) -> InitActionView {
        match *self {
            InitAction::Bind { address } => InitActionView::Bind { address: address@ },
            InitAction::StartRuntime => InitActionView::StartRuntime,
            InitAction::GetEnvironment { vm, version } => InitActionView::GetEnvironment {
                vm,
                version,
            },
            InitAction::Serve { port } => InitActionView::Serve { port },
            InitAction::Abort { error } => InitActionView::Abort { error: error@ },
        }
    }
}

/// The loopback address with `port`, as the listener takes it.
pub open spec fn listen_address(port: u16) -> Seq<char> {
    "127.0.0.1:"@ + decimal_digits(port as nat)
}

/// Writes the address on which the listener is bound.
pub fn address_for(port: u16) -> (address: String)
    ensures
        address@ == listen_address(port),
{
    let digits = render_unsigned(port as u64);
    let mut address = String::from_str("127.0.0.1:");
    address.append(digits.as_str());
    address
}

/// The state after `event` and the action that follows it.
///
/// A load reads the options and asks for a listener on the port they name,
/// or gives up where they name none that is valid. Each success leads to the
/// next action: after the listener the execution context, after that the
/// negotiation. Only a successful negotiation fills the state: listener,
/// execution context and the two handles are kept together, and serving
/// begins. Each refusal gives up and keeps nothing. An event that does not
/// answer the last action changes nothing.
pub open spec fn transition(state: JdwpServer, event: InitEventView) -> (
    JdwpServer,
    InitActionView,
) {
    let unexpected = (state, InitActionView::Abort { error: InitErrorView::UnexpectedEvent });
    match event {
        InitEventView::Load { vm, options } => match listen_port(parsed_options(options)) {
            Some(port) => (
                JdwpServer { phase: Phase::Binding { port, vm }, ..state },
                InitActionView::Bind { address: listen_address(port) },
            ),
            None => (
                JdwpServer { phase: Phase::Aborted, ..state },
                InitActionView::Abort { error: InitErrorView::InvalidPort },
            ),
        },
        InitEventView::ListenerBound => match state.phase {
            Phase::Binding { port, vm } => (
                JdwpServer { phase: Phase::StartingRuntime { port, vm }, ..state },
                InitActionView::StartRuntime,
            ),
            _ => unexpected,
        },
        InitEventView::ListenerRefused => match state.phase {
            Phase::Binding { .. } => (
                JdwpServer { phase: Phase::Aborted, ..state },
                InitActionView::Abort { error: InitErrorView::ListenerRefused },
            ),
            _ => unexpected,
        },
        InitEventView::RuntimeStarted => match state.phase {
            Phase::StartingRuntime { port, vm } => (
                JdwpServer { phase: Phase::Negotiating { port, vm }, ..state },
                InitActionView::GetEnvironment { vm, version: JVMTI_VERSION_21 },
            ),
            _ => unexpected,
        },
        InitEventView::RuntimeRefused => match state.phase {
            Phase::StartingRuntime { .. } => (
                JdwpServer { phase: Phase::Aborted, ..state },
                InitActionView::Abort { error: InitErrorView::RuntimeRefused },
            ),
            _ => unexpected,
        },
        InitEventView::Environment { status, env } => match state.phase {
            Phase::Negotiating { port, vm } => if status == JNI_OK {
                (
                    JdwpServer {
                        phase: Phase::Serving { port },
                        server: Some(port),
                        runtime: true,
                        env: Some(env),
                        vm: Some(vm),
                    },
                    InitActionView::Serve { port },
                )
            } else {
                (
                    JdwpServer { phase: Phase::Aborted, ..state },
                    InitActionView::Abort {
                        error: InitErrorView::EnvironmentRefused {
                            message: environment_error(status),
                        },
                    },
                )
            },
            _ => unexpected,
        },
    }
}

/// A load whose options name a valid port asks for a listener on exactly
/// that port, on the default port where they name none, and the listener
/// that is kept once the negotiation has succeeded is on that port. Until
/// then nothing that is kept changes.
pub proof fn load_binds_the_configured_port(
    state: JdwpServer,
    vm: VmHandle,
    options: Option<Seq<char>>,
    port: u16,
    env: EnvHandle,
)
    requires
        listen_port(parsed_options(options)) == Some(port),
    ensures
        transition(state, InitEventView::Load { vm, options }).1 == (InitActionView::Bind {
            address: listen_address(port),
        }),
        ({
            let loaded = transition(state, InitEventView::Load { vm, options }).0;
            let bound = transition(loaded, InitEventView::ListenerBound).0;
            let started = transition(bound, InitEventView::RuntimeStarted).0;
            let served = transition(started, InitEventView::Environment { status: JNI_OK, env });
            &&& loaded.server == state.server
            &&& bound.server == state.server
            &&& started.server == state.server
            &&& served.0.server == Some(port)
            &&& served.0.phase == Phase::Serving { port }
            &&& served.1 == InitActionView::Serve { port }
        }),
{
}

/// A negotiation that the host VM refuses gives up with the code it
/// reported and keeps nothing: after a load with a valid port, a bound
/// listener and a started execution context, started from the empty state,
/// listener, execution context and both handles are still empty.
pub proof fn refused_negotiation_keeps_nothing(
    vm: VmHandle,
    options: Option<Seq<char>>,
    status: i32,
    env: EnvHandle,
)
    requires
        listen_port(parsed_options(options)) is Some,
        status != JNI_OK,
    ensures
        ({
            let loaded = transition(JdwpServer::empty(), InitEventView::Load { vm, options }).0;
            let bound = transition(loaded, InitEventView::ListenerBound).0;
            let started = transition(bound, InitEventView::RuntimeStarted).0;
            let refused = transition(started, InitEventView::Environment { status, env });
            &&& refused.1 == InitActionView::Abort {
                error: InitErrorView::EnvironmentRefused { message: environment_error(status) },
            }
            &&& refused.0 == JdwpServer { phase: Phase::Aborted, ..JdwpServer::empty() }
        }),
{
}

/// A load whose `port` option names no valid port gives up at once: no
/// listener is asked for and none is kept that was not kept before, and
/// whatever is reported afterwards, short of another load, leads to nothing.
pub proof fn invalid_port_aborts_before_binding(
    state: JdwpServer,
    vm: VmHandle,
    options: Option<Seq<char>>,
    later: InitEventView,
)
    requires
        listen_port(parsed_options(options)) is None,
    ensures
        transition(state, InitEventView::Load { vm, options }).1 == (InitActionView::Abort {
            error: InitErrorView::InvalidPort,
        }),
        ({
            let aborted = transition(state, InitEventView::Load { vm, options }).0;
            &&& aborted.phase == Phase::Aborted
            &&& aborted.server == state.server
            &&& !(later is Load) ==> transition(aborted, later) == (
                aborted,
                InitActionView::Abort { error: InitErrorView::UnexpectedEvent },
            )
        }),
{
}

/// Nothing is kept before every step has succeeded: no event but a
/// successful negotiation changes what is kept, the negotiation counts only
/// after the report that the execution context exists, and that report only
/// after the report that the listener is bound.
pub proof fn state_is_filled_only_by_negotiation(state: JdwpServer, event: InitEventView)
    ensures
        ({
            let next = transition(state, event).0;
            &&& (next.server != state.server || next.runtime != state.runtime || next.env
                != state.env || next.vm != state.vm) ==> event is Environment
                && event->status == JNI_OK && state.phase is Negotiating
            &&& next.phase is Negotiating && !(state.phase is Negotiating) ==> event
                is RuntimeStarted && state.phase is StartingRuntime
            &&& next.phase is StartingRuntime && !(state.phase is StartingRuntime) ==> event
                is ListenerBound && state.phase is Binding
        }),
{
}

impl JdwpServer {
    /// What holds of the state at every moment: nothing is kept before the
    /// start-up; listener, execution context and the two handles are kept
    /// together or not at all; while serving, the listener that is kept is
    /// the one of this start-up.
    pub open spec fn wf(self) -> bool {
        &&& self.phase == Phase::Idle ==> self.server is None
        &&& self.runtime <==> self.server is Some
        &&& self.env is Some <==> self.server is Some
        &&& self.vm is Some <==> self.server is Some
        &&& self.phase matches Phase::Serving { port } ==> self.server == Some(port)
    }

    /// The state in which nothing is kept.
    pub open spec fn empty() -> JdwpServer {
        JdwpServer { phase: Phase::Idle, server: None, runtime: false, env: None, vm: None }
    }

    /// The state before the host VM has loaded the agent.
    pub fn new() -> (state: JdwpServer)
        ensures
            state == JdwpServer::empty(),
            state.wf(),
    {
        JdwpServer { phase: Phase::Idle, server: None, runtime: false, env: None, vm: None }
    }

    /// The two handles that a command needs for its native calls, once both
    /// are kept.
    pub fn native_handles(&self) -> (handles: Option<(EnvHandle, VmHandle)>)
        ensures
            handles == match (self.env, self.vm) {
                (Some(env), Some(vm)) => Some((env, vm)),
                _ => None,
            },
    {
        match (self.env, self.vm) {
            (Some(env), Some(vm)) => Some((env, vm)),
            _ => None,
        }
    }

    /// Takes what has just happened and says what to do next.
    pub fn step(&mut self, event: InitEvent) -> (action: InitAction)
        ensures
            (*final(self), action@) == transition(*old(self), event@),
            old(self).wf() ==> final(self).wf(),
    {
        match event {
            InitEvent::Load { vm, options } => {
                let parsed = parse_options(options);
                match resolve_port(&parsed) {
                    Some(port) => {
                        self.phase = Phase::Binding { port, vm };
                        InitAction::Bind { address: address_for(port) }
                    },
                    None => {
                        self.phase = Phase::Aborted;
                        InitAction::Abort { error: InitError::InvalidPort }
                    },
                }
            },
            InitEvent::ListenerBound => match self.phase {
                Phase::Binding { port, vm } => {
                    self.phase = Phase::StartingRuntime { port, vm };
                    InitAction::StartRuntime
                },
                _ => InitAction::Abort { error: InitError::UnexpectedEvent },
            },
            InitEvent::ListenerRefused => match self.phase {
                Phase::Binding { .. } => {
                    self.phase = Phase::Aborted;
                    InitAction::Abort { error: InitError::ListenerRefused }
                },
                _ => InitAction::Abort { error: InitError::UnexpectedEvent },
            },
            InitEvent::RuntimeStarted => match self.phase {
                Phase::StartingRuntime { port, vm } => {
                    self.phase = Phase::Negotiating { port, vm };
                    InitAction::GetEnvironment { vm, version: JVMTI_VERSION_21 }
                },
                _ => InitAction::Abort { error: InitError::UnexpectedEvent },
            },
            InitEvent::RuntimeRefused => match self.phase {
                Phase::StartingRuntime { .. } => {
                    self.phase = Phase::Aborted;
                    InitAction::Abort { error: InitError::RuntimeRefused }
                },
                _ => InitAction::Abort { error: InitError::UnexpectedEvent },
            },
            InitEvent::Environment { status, env } => match self.phase {
                Phase::Negotiating { port, vm } => match get_jvmti_env(status, env) {
                    Ok(handle) => {
                        self.phase = Phase::Serving { port };
                        self.server = Some(port);
                        self.runtime = true;
                        self.env = Some(handle);
                        self.vm = Some(vm);
                        InitAction::Serve { port }
                    },
                    Err(message) => {
                        self.phase = Phase::Aborted;
                        InitAction::Abort { error: InitError::EnvironmentRefused { message } }
                    },
                },
                _ => InitAction::Abort { error: InitError::UnexpectedEvent },
            },
        }
    }
}

} // verus!
