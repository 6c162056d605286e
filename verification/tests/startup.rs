use jdwp_server::jvmti::{EnvHandle, VmHandle, JVMTI_VERSION_21};
use jdwp_server::lifecycle::{address_for, InitAction, InitError, InitEvent, JdwpServer, Phase};

const VM: VmHandle = VmHandle { raw: 0x1000 };
const ENV: EnvHandle = EnvHandle { raw: 0x2000 };

fn load(options: Option<&str>) -> InitEvent<'_> {
    InitEvent::Load { vm: VM, options }
}

fn unexpected() -> InitAction {
    InitAction::Abort { error: InitError::UnexpectedEvent }
}

#[test]
fn state_starts_empty() {
    let state = JdwpServer::new();
    assert_eq!(
        state,
        JdwpServer { phase: Phase::Idle, server: None, runtime: false, env: None, vm: None }
    );
    assert_eq!(state.native_handles(), None);
}

#[test]
fn listener_address_is_loopback_and_port() {
    assert_eq!(address_for(8001), "127.0.0.1:8001");
    assert_eq!(address_for(0), "127.0.0.1:0");
    assert_eq!(address_for(65535), "127.0.0.1:65535");
}

#[test]
fn start_up_runs_in_order() {
    let mut state = JdwpServer::new();
    assert_eq!(
        state.step(load(Some("port=9090,foo,bar=baz"))),
        InitAction::Bind { address: "127.0.0.1:9090".to_string() }
    );
    assert_eq!(state.phase, Phase::Binding { port: 9090, vm: VM });
    assert_eq!(state.server, None);

    assert_eq!(state.step(InitEvent::ListenerBound), InitAction::StartRuntime);
    assert_eq!(state.phase, Phase::StartingRuntime { port: 9090, vm: VM });
    assert_eq!(state.server, None);
    assert!(!state.runtime);

    assert_eq!(
        state.step(InitEvent::RuntimeStarted),
        InitAction::GetEnvironment { vm: VM, version: JVMTI_VERSION_21 }
    );
    assert_eq!(state.phase, Phase::Negotiating { port: 9090, vm: VM });
    assert_eq!(state.server, None);
    assert!(!state.runtime);
    assert_eq!(state.native_handles(), None);

    assert_eq!(
        state.step(InitEvent::Environment { status: 0, env: ENV }),
        InitAction::Serve { port: 9090 }
    );
    assert_eq!(
        state,
        JdwpServer {
            phase: Phase::Serving { port: 9090 },
            server: Some(9090),
            runtime: true,
            env: Some(ENV),
            vm: Some(VM),
        }
    );
    assert_eq!(state.native_handles(), Some((ENV, VM)));
}

#[test]
fn absent_port_binds_8001() {
    for options in [None, Some(""), Some("foo"), Some("foo=1,bar=2")] {
        let mut state = JdwpServer::new();
        assert_eq!(
            state.step(load(options)),
            InitAction::Bind { address: "127.0.0.1:8001".to_string() }
        );
        assert_eq!(state.phase, Phase::Binding { port: 8001, vm: VM });
    }
}

#[test]
fn every_valid_port_is_bound_as_named() {
    for port in [0u16, 1, 80, 8001, 9090, 65535] {
        let options = format!("port={}", port);
        let mut state = JdwpServer::new();
        assert_eq!(
            state.step(load(Some(&options))),
            InitAction::Bind { address: format!("127.0.0.1:{}", port) }
        );
        state.step(InitEvent::ListenerBound);
        state.step(InitEvent::RuntimeStarted);
        assert_eq!(state.server, None);
        assert_eq!(
            state.step(InitEvent::Environment { status: 0, env: ENV }),
            InitAction::Serve { port }
        );
        assert_eq!(state.server, Some(port));
        assert_eq!(state.phase, Phase::Serving { port });
    }
}

#[test]
fn invalid_port_aborts_before_any_listener() {
    for options in ["port=abc", "port=65536", "port=", "port", "port=-1", "port=80x", "port=8 0"] {
        let mut state = JdwpServer::new();
        assert_eq!(
            state.step(load(Some(options))),
            InitAction::Abort { error: InitError::InvalidPort },
            "{}",
            options
        );
        assert_eq!(state.phase, Phase::Aborted);
        assert_eq!(state.server, None);
        assert!(!state.runtime);
        assert_eq!(state.step(InitEvent::ListenerBound), unexpected());
        assert_eq!(state.step(InitEvent::RuntimeStarted), unexpected());
        assert_eq!(state.step(InitEvent::Environment { status: 0, env: ENV }), unexpected());
        assert_eq!(state.server, None);
        assert_eq!(state.native_handles(), None);
    }
}

#[test]
fn refused_listener_aborts() {
    let mut state = JdwpServer::new();
    state.step(load(None));
    assert_eq!(
        state.step(InitEvent::ListenerRefused),
        InitAction::Abort { error: InitError::ListenerRefused }
    );
    assert_eq!(
        state,
        JdwpServer { phase: Phase::Aborted, server: None, runtime: false, env: None, vm: None }
    );
}

#[test]
fn refused_runtime_aborts() {
    let mut state = JdwpServer::new();
    state.step(load(None));
    state.step(InitEvent::ListenerBound);
    assert_eq!(
        state.step(InitEvent::RuntimeRefused),
        InitAction::Abort { error: InitError::RuntimeRefused }
    );
    assert_eq!(state.phase, Phase::Aborted);
    assert_eq!(state.server, None);
    assert!(!state.runtime);
}

#[test]
fn refused_environment_aborts_with_the_code() {
    let mut state = JdwpServer::new();
    state.step(load(Some("port=7000")));
    state.step(InitEvent::ListenerBound);
    state.step(InitEvent::RuntimeStarted);
    assert_eq!(
        state.step(InitEvent::Environment { status: -3, env: EnvHandle { raw: 0 } }),
        InitAction::Abort {
            error: InitError::EnvironmentRefused {
                message: "Unable to get environment: -3".to_string()
            }
        }
    );
    assert_eq!(
        state,
        JdwpServer { phase: Phase::Aborted, server: None, runtime: false, env: None, vm: None }
    );
    assert_eq!(state.native_handles(), None);
}

#[test]
fn refused_environment_keeps_nothing_whatever_the_code() {
    for status in [1, -1, -2, -3, -4, -5, -6, 116, i32::MIN, i32::MAX] {
        let mut state = JdwpServer::new();
        state.step(load(None));
        state.step(InitEvent::ListenerBound);
        state.step(InitEvent::RuntimeStarted);
        let action = state.step(InitEvent::Environment { status, env: ENV });
        assert_eq!(
            action,
            InitAction::Abort {
                error: InitError::EnvironmentRefused {
                    message: format!("Unable to get environment: {}", status)
                }
            }
        );
        assert_eq!(state.phase, Phase::Aborted);
        assert_eq!(state.server, None);
        assert!(!state.runtime);
        assert_eq!(state.env, None);
        assert_eq!(state.vm, None);
    }
}

#[test]
fn events_out_of_order_change_nothing() {
    let mut state = JdwpServer::new();
    let events = [
        InitEvent::ListenerBound,
        InitEvent::ListenerRefused,
        InitEvent::RuntimeStarted,
        InitEvent::RuntimeRefused,
        InitEvent::Environment { status: 0, env: ENV },
    ];
    for event in events {
        assert_eq!(state.step(event), unexpected());
        assert_eq!(state, JdwpServer::new());
    }
    state.step(load(None));
    let binding = state;
    assert_eq!(state.step(InitEvent::RuntimeStarted), unexpected());
    assert_eq!(state.step(InitEvent::Environment { status: 0, env: ENV }), unexpected());
    assert_eq!(state, binding);
    state.step(InitEvent::ListenerBound);
    let starting = state;
    assert_eq!(state.step(InitEvent::ListenerBound), unexpected());
    assert_eq!(state.step(InitEvent::Environment { status: 0, env: ENV }), unexpected());
    assert_eq!(state, starting);
}

#[test]
fn second_load_starts_over_and_keeps_what_is_kept() {
    let mut state = JdwpServer::new();
    state.step(load(Some("port=9000")));
    state.step(InitEvent::ListenerBound);
    state.step(InitEvent::RuntimeStarted);
    state.step(InitEvent::Environment { status: 0, env: ENV });
    assert_eq!(
        state.step(load(Some("port=9001"))),
        InitAction::Bind { address: "127.0.0.1:9001".to_string() }
    );
    assert_eq!(state.phase, Phase::Binding { port: 9001, vm: VM });
    assert_eq!(state.server, Some(9000));
    assert_eq!(state.native_handles(), Some((ENV, VM)));
    state.step(InitEvent::ListenerBound);
    state.step(InitEvent::RuntimeStarted);
    assert_eq!(state.server, Some(9000));
    let other = EnvHandle { raw: 0x3000 };
    assert_eq!(
        state.step(InitEvent::Environment { status: 0, env: other }),
        InitAction::Serve { port: 9001 }
    );
    assert_eq!(state.server, Some(9001));
    assert_eq!(state.native_handles(), Some((other, VM)));
}
