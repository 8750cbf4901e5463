use deno_desktop::error::DesktopError;
use deno_desktop::flags::{DesktopFlags, Endpoint, IconConfig, RunFlags};
use deno_desktop::framework::FrameworkDetection;
use deno_desktop::launch::{
    inspector_endpoint, loopback_endpoint, run_desktop_hmr, BackendCommand, Launch, LaunchAction,
    LaunchEvent, LaunchStage, MuxConfig, Value, Variable,
};
use deno_desktop::path_rules::PathRules;
use deno_desktop::platform::HostOs;

fn text(text: &str) -> Option<String> {
    Some(text.to_string())
}

fn plain(text: &str) -> Value {
    Value::Plain(text.to_string())
}

fn variable(name: &str, value: Value) -> Variable {
    Variable { name: name.to_string(), value }
}

fn endpoint(port: u16) -> Endpoint {
    Endpoint { address: format!("0.0.0.0:{port}"), port }
}

fn flags(hmr: bool) -> DesktopFlags {
    DesktopFlags {
        source_file: "main.ts".to_string(),
        output: text("dist/Shop.app"),
        args: vec!["--use-gl".to_string(), "swiftshader".to_string()],
        target: None,
        icon: Some(IconConfig::Single("icon.png".to_string())),
        include_paths: vec![],
        exclude_paths: vec![],
        exclude_unused_npm: false,
        hmr,
        all_targets: false,
        backend: text("cef"),
        compress: None,
        deep_links: vec![],
        identifier: None,
        codesign_identity: None,
        inspect_renderer: None,
    }
}

fn run() -> RunFlags {
    RunFlags {
        inspect: None,
        inspect_brk: None,
        inspect_wait: None,
        type_check: true,
        detect_cjs: false,
    }
}

fn framework() -> Option<FrameworkDetection> {
    Some(FrameworkDetection {
        name: "Vite".to_string(),
        entrypoint_code: String::new(),
        has_hmr_command: true,
        include_paths: vec![],
    })
}

fn begin(
    flags: DesktopFlags,
    run: RunFlags,
    framework: &Option<FrameworkDetection>,
    source: &str,
    host: HostOs,
) -> Launch {
    run_desktop_hmr(flags, run, framework, source, PathRules::native(), host)
}

fn advance(launch: Launch, event: LaunchEvent) -> Launch {
    assert!(launch.expects(&event));
    launch.step(event).unwrap()
}

fn command(launch: &Launch) -> BackendCommand {
    match launch.action() {
        LaunchAction::Run { command } => command,
        action => panic!("{action:?}"),
    }
}

fn sets(command: &BackendCommand, name: &str) -> bool {
    command.variables.iter().any(|variable| variable.name == name)
}

#[test]
fn a_watched_app_runs_beside_its_dev_server() {
    let launch =
        begin(flags(true), run(), &framework(), "/home/me/shop", HostOs::Linux);
    assert_eq!(launch.action(), LaunchAction::FindBackend { backend: "cef".to_string() });
    let launch = advance(launch, LaunchEvent::BackendFound);
    assert_eq!(launch.action(), LaunchAction::SpawnDevServer);
    let launch =
        advance(launch, LaunchEvent::DevServerUp { url: "http://localhost:5173".to_string() });
    assert_eq!(
        command(&launch),
        BackendCommand {
            directory: Value::SourceDir,
            args: vec![
                plain("--runtime"),
                Value::Dylib,
                plain("--use-gl"),
                plain("swiftshader"),
            ],
            variables: vec![
                variable("LAUFEY_RUNTIME_PATH", Value::Dylib),
                variable("LAUFEY_APP_NAME", plain("Shop")),
                variable("DENO_DESKTOP_HMR", Value::SourceDir),
                variable("DENO_DESKTOP_DEV_URL", plain("http://localhost:5173")),
            ],
        }
    );
    let done = advance(
        launch,
        LaunchEvent::Exited { success: true, status: "exit status: 0".to_string() },
    );
    assert_eq!(done.action(), LaunchAction::Nothing);
    assert_eq!(done.stage, LaunchStage::Done);
}

#[test]
fn an_inspected_app_gets_its_ports() {
    let inspected = RunFlags { inspect: Some(endpoint(9229)), ..run() };
    let launch =
        begin(flags(false), inspected, &framework(), "/home/me/shop", HostOs::Linux);
    let launch = advance(launch, LaunchEvent::BackendFound);
    assert_eq!(launch.stage, LaunchStage::AllocateRuntimePort);
    assert_eq!(launch.action(), LaunchAction::AllocatePort);
    let launch = advance(launch, LaunchEvent::PortAllocated { port: 40001 });
    assert_eq!(launch.stage, LaunchStage::AllocateRendererPort);
    let launch = advance(launch, LaunchEvent::PortAllocated { port: 40002 });
    assert_eq!(
        launch.action(),
        LaunchAction::SpawnMux {
            config: MuxConfig {
                listen: endpoint(9229),
                deno_internal: loopback_endpoint(40001),
                cef_internal: loopback_endpoint(40002),
                inspect_brk: false,
                wait_for_debugger: false,
            }
        }
    );
    let launch =
        advance(launch, LaunchEvent::MuxListening { address: "0.0.0.0:9229".to_string() });
    assert_eq!(
        command(&launch).variables,
        vec![
            variable("LAUFEY_RUNTIME_PATH", Value::Dylib),
            variable("LAUFEY_APP_NAME", plain("Shop")),
            variable("DENO_DESKTOP_INSPECT_INTERNAL_PORT", plain("127.0.0.1:40001")),
            variable("DENO_DESKTOP_MUX_WS", plain("0.0.0.0:9229")),
            variable("LAUFEY_REMOTE_DEBUGGING_PORT", plain("40002")),
        ]
    );
    assert!(!sets(&command(&launch), "DENO_DESKTOP_HMR"));
}

#[test]
fn the_debugger_is_waited_for() {
    let waiting = RunFlags {
        inspect_brk: Some(endpoint(1)),
        inspect_wait: Some(endpoint(2)),
        ..run()
    };
    let given = DesktopFlags { inspect_renderer: Some(endpoint(9333)), ..flags(true) };
    let launch = begin(given, waiting, &None, "/home/me/shop", HostOs::Linux);
    let launch = advance(launch, LaunchEvent::BackendFound);
    let launch = advance(launch, LaunchEvent::PortAllocated { port: 40001 });
    assert_eq!(
        launch.action(),
        LaunchAction::SpawnMux {
            config: MuxConfig {
                listen: endpoint(1),
                deno_internal: loopback_endpoint(40001),
                cef_internal: endpoint(9333),
                inspect_brk: true,
                wait_for_debugger: true,
            }
        }
    );
    let launch = advance(launch, LaunchEvent::MuxListening { address: "0.0.0.0:1".to_string() });
    let command = command(&launch);
    assert!(command
        .variables
        .contains(&variable("LAUFEY_REMOTE_DEBUGGING_PORT", plain("9333"))));
    assert!(command.variables.contains(&variable("DENO_DESKTOP_INSPECT_BRK", plain("1"))));
    assert!(command.variables.contains(&variable("DENO_DESKTOP_INSPECT_WAIT", plain("1"))));
    assert!(sets(&command, "DENO_DESKTOP_HMR"));
    assert!(!sets(&command, "DENO_DESKTOP_DEV_URL"));
}

#[test]
fn the_first_inspector_flag_counts() {
    let all = RunFlags {
        inspect: Some(endpoint(1)),
        inspect_brk: Some(endpoint(2)),
        inspect_wait: Some(endpoint(3)),
        ..run()
    };
    assert_eq!(inspector_endpoint(&all), Some(endpoint(1)));
    let two = RunFlags { inspect: None, ..all };
    assert_eq!(inspector_endpoint(&two), Some(endpoint(2)));
    let one = RunFlags { inspect_brk: None, ..two };
    assert_eq!(inspector_endpoint(&one), Some(endpoint(3)));
    assert!(one.inspector_requested());
    assert_eq!(inspector_endpoint(&run()), None);
    assert!(!run().inspector_requested());
}

#[test]
fn macos_gets_an_icon() {
    let launch = begin(flags(true), run(), &None, "/home/me/shop", HostOs::Macos);
    let launch = advance(launch, LaunchEvent::BackendFound);
    assert_eq!(launch.action(), LaunchAction::ResolveIcon);
    let launch = advance(launch, LaunchEvent::IconResolved { found: true });
    let with_icon = command(&launch);
    assert_eq!(with_icon.variables[1], variable("LAUFEY_APP_ICON", Value::Icon));

    let launch = begin(flags(true), run(), &None, "/home/me/shop", HostOs::Macos);
    let launch = advance(launch, LaunchEvent::BackendFound);
    let launch = advance(launch, LaunchEvent::IconResolved { found: false });
    assert!(!sets(&command(&launch), "LAUFEY_APP_ICON"));

    let plain_flags = DesktopFlags { icon: None, ..flags(true) };
    let launch = begin(plain_flags, run(), &None, "/home/me/shop", HostOs::Macos);
    let launch = advance(launch, LaunchEvent::BackendFound);
    assert_eq!(launch.stage, LaunchStage::Run);
}

#[test]
fn apps_are_named_after_their_directory() {
    let unnamed = DesktopFlags { output: None, ..flags(true) };
    let launch = begin(unnamed.clone(), run(), &None, "/home/me/shop", HostOs::Linux);
    assert_eq!(launch.app_name, text("shop"));
    let launch = begin(unnamed, run(), &None, "/", HostOs::Linux);
    assert_eq!(launch.app_name, None);
    let launch = advance(launch, LaunchEvent::BackendFound);
    assert!(!sets(&command(&launch), "LAUFEY_APP_NAME"));
}

#[test]
fn a_failing_backend_is_an_error() {
    let launch = begin(flags(true), run(), &None, "/home/me/shop", HostOs::Linux);
    let launch = advance(launch, LaunchEvent::BackendFound);
    let error = launch
        .step(LaunchEvent::Exited { success: false, status: "exit status: 3".to_string() })
        .unwrap_err();
    assert_eq!(error, DesktopError::BackendFailed { status: "exit status: 3".to_string() });
    assert_eq!(error.message(), "LAUFEY backend exited with status: exit status: 3");
}

#[test]
fn loopback_endpoints_are_written_out() {
    for port in [0, 7, 443, 65535] {
        assert!(loopback_endpoint(port).address.ends_with(&format!(":{port}")));
    }
    assert_eq!(
        loopback_endpoint(9229),
        Endpoint { address: "127.0.0.1:9229".to_string(), port: 9229 }
    );
}
