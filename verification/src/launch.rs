//! Running a compiled app with hot reloading or under an inspector.
//!
//! As with a build, the decisions are made here and the work is done outside:
//! a launch names the action it needs and goes on by what came of it, until
//! it has the command that runs the backend.

use vstd::prelude::*;
use vstd::string::*;

use crate::error::{DesktopError, ErrorModel};
use crate::flags::{DesktopFlags, Endpoint, EndpointModel, FlagsModel, RunFlags, RunModel};
use crate::framework::{FrameworkDetection, FrameworkModel};
use crate::packaging::{backend_of, backend_or_default};
use crate::path_rules::PathRules;
use crate::paths::{
    is_file_name, is_project_name, name_by, path_file_name, project_name, stem_by,
};
use crate::platform::HostOs;
use crate::text::{decimal, decimal_text, Text};

verus! {

/// The stages of a launch, in the order in which they can come.
#[derive(Clone, Copy, Debug, PartialEq, Eq, Structural)]
pub enum LaunchStage {
    FindBackend,
    ResolveIcon,
    SpawnDevServer,
    AllocateRuntimePort,
    AllocateRendererPort,
    SpawnMux,
    Run,
    Done,
}

impl LaunchStage {
    /// How many stages can still come.
    pub open spec fn rank(self) -> nat {
        match self {
            LaunchStage::FindBackend => 7,
            LaunchStage::ResolveIcon => 6,
            LaunchStage::SpawnDevServer => 5,
            LaunchStage::AllocateRuntimePort => 4,
            LaunchStage::AllocateRendererPort => 3,
            LaunchStage::SpawnMux => 2,
            LaunchStage::Run => 1,
            LaunchStage::Done => 0,
        }
    }
}

/// The multiplexer that fronts the runtime's inspector and the renderer's
/// debug port.
#[derive(Debug, PartialEq, Eq)]
pub struct MuxConfig {
    pub listen: Endpoint,
    pub deno_internal: Endpoint,
    pub cef_internal: Endpoint,
    pub inspect_brk: bool,
    pub wait_for_debugger: bool,
}

/// What a `MuxConfig` holds.
pub struct MuxModel {
    pub listen: EndpointModel,
    pub deno_internal: EndpointModel,
    pub cef_internal: EndpointModel,
    pub inspect_brk: bool,
    pub wait_for_debugger: bool,
}

impl View for MuxConfig {
    type V = MuxModel;

    open spec fn view(&self) -> MuxModel {
        MuxModel {
            listen: self.listen.deep_view(),
            deno_internal: self.deno_internal.deep_view(),
            cef_internal: self.cef_internal.deep_view(),
            inspect_brk: self.inspect_brk,
            wait_for_debugger: self.wait_for_debugger,
        }
    }
}

/// A value handed to the backend.
#[derive(Debug, PartialEq, Eq)]
pub enum Value {
    /// The path of the compiled app.
    Dylib,
    /// The directory of the project.
    SourceDir,
    /// The path of the resolved icon.
    Icon,
    /// A text.
    Plain(String),
}

/// What a `Value` holds.
pub enum ValueModel {
    Dylib,
    SourceDir,
    Icon,
    Plain(Text),
}

impl DeepView for Value {
    type V = ValueModel;

    open spec fn deep_view(&self) -> ValueModel {
        match self {
            Value::Dylib => ValueModel::Dylib,
            Value::SourceDir => ValueModel::SourceDir,
            Value::Icon => ValueModel::Icon,
            Value::Plain(text) => ValueModel::Plain(text@),
        }
    }
}

/// An environment variable of the backend.
#[derive(Debug, PartialEq, Eq)]
pub struct Variable {
    pub name: String,
    pub value: Value,
}

/// What a `Variable` holds.
pub struct VariableModel {
    pub name: Text,
    pub value: ValueModel,
}

impl DeepView for Variable {
    type V = VariableModel;

    open spec fn deep_view(&self) -> VariableModel {
        VariableModel { name: self.name@, value: self.value.deep_view() }
    }
}

/// The command that runs the backend.
#[derive(Debug, PartialEq, Eq)]
pub struct BackendCommand {
    /// The working directory of the backend.
    pub directory: Value,
    pub args: Vec<Value>,
    pub variables: Vec<Variable>,
}

/// What a `BackendCommand` holds.
#[verifier::ext_equal]
pub struct CommandModel {
    pub directory: ValueModel,
    pub args: Seq<ValueModel>,
    pub variables: Seq<VariableModel>,
}

impl View for BackendCommand {
    type V = CommandModel;

    open spec fn view(&self) -> CommandModel {
        CommandModel {
            directory: self.directory.deep_view(),
            args: self.args.deep_view(),
            variables: self.variables.deep_view(),
        }
    }
}

/// What a launch needs done.
#[derive(Debug, PartialEq, Eq)]
pub enum LaunchAction {
    /// Find the prebuilt backend for this machine.
    FindBackend { backend: String },
    /// Resolve the app's icon to a file.
    ResolveIcon,
    /// Start the framework's dev server.
    SpawnDevServer,
    /// Allocate a free port.
    AllocatePort,
    /// Start the multiplexer.
    SpawnMux { config: MuxConfig },
    /// Run the backend until it ends.
    Run { command: BackendCommand },
    /// Nothing more.
    Nothing,
}

/// What a `LaunchAction` holds.
pub enum LaunchActionModel {
    FindBackend { backend: Text },
    ResolveIcon,
    SpawnDevServer,
    AllocatePort,
    SpawnMux { config: MuxModel },
    Run { command: CommandModel },
    Nothing,
}

impl View for LaunchAction {
    type V = LaunchActionModel;

    open spec fn view(&self) -> LaunchActionModel {
        match self {
            LaunchAction::FindBackend { backend } => LaunchActionModel::FindBackend {
                backend: backend@,
            },
            LaunchAction::ResolveIcon => LaunchActionModel::ResolveIcon,
            LaunchAction::SpawnDevServer => LaunchActionModel::SpawnDevServer,
            LaunchAction::AllocatePort => LaunchActionModel::AllocatePort,
            LaunchAction::SpawnMux { config } => LaunchActionModel::SpawnMux { config: config@ },
            LaunchAction::Run { command } => LaunchActionModel::Run { command: command@ },
            LaunchAction::Nothing => LaunchActionModel::Nothing,
        }
    }
}

/// What came of an action.
#[derive(Debug, PartialEq, Eq)]
pub enum LaunchEvent {
    BackendFound,
    /// The icon was looked for; a failure leaves the app without one.
    IconResolved { found: bool },
    DevServerUp { url: String },
    PortAllocated { port: u16 },
    MuxListening { address: String },
    Exited { success: bool, status: String },
}

/// What a `LaunchEvent` holds.
pub enum LaunchEventModel {
    BackendFound,
    IconResolved { found: bool },
    DevServerUp { url: Text },
    PortAllocated { port: u16 },
    MuxListening { address: Text },
    Exited { success: bool, status: Text },
}

impl View for LaunchEvent {
    type V = LaunchEventModel;

    open spec fn view(&self) -> LaunchEventModel {
        match self {
            LaunchEvent::BackendFound => LaunchEventModel::BackendFound,
            LaunchEvent::IconResolved { found } => LaunchEventModel::IconResolved {
                found: *found,
            },
            LaunchEvent::DevServerUp { url } => LaunchEventModel::DevServerUp { url: url@ },
            LaunchEvent::PortAllocated { port } => LaunchEventModel::PortAllocated {
                port: *port,
            },
            LaunchEvent::MuxListening { address } => LaunchEventModel::MuxListening {
                address: address@,
            },
            LaunchEvent::Exited { success, status } => LaunchEventModel::Exited {
                success: *success,
                status: status@,
            },
        }
    }
}

/// A launch at one of its stages.
#[derive(Debug, PartialEq, Eq)]
pub struct Launch {
    pub host: HostOs,
    pub flags: DesktopFlags,
    pub run: RunFlags,
    /// Whether the framework's dev server is needed.
    pub dev_server: bool,
    pub app_name: Option<String>,
    pub icon_found: bool,
    pub dev_url: Option<String>,
    pub runtime_port: Option<u16>,
    pub renderer_port: Option<u16>,
    pub mux_address: Option<String>,
    pub stage: LaunchStage,
}

/// What a `Launch` holds.
#[verifier::ext_equal]
pub struct LaunchModel {
    pub host: HostOs,
    pub flags: FlagsModel,
    pub run: RunModel,
    pub dev_server: bool,
    pub app_name: Option<Text>,
    pub icon_found: bool,
    pub dev_url: Option<Text>,
    pub runtime_port: Option<u16>,
    pub renderer_port: Option<u16>,
    pub mux_address: Option<Text>,
    pub stage: LaunchStage,
}

impl View for Launch {
    type V = LaunchModel;

    open spec fn view(&self) -> LaunchModel {
        LaunchModel {
            host: self.host,
            flags: self.flags@,
            run: self.run@,
            dev_server: self.dev_server,
            app_name: self.app_name.deep_view(),
            icon_found: self.icon_found,
            dev_url: self.dev_url.deep_view(),
            runtime_port: self.runtime_port,
            renderer_port: self.renderer_port,
            mux_address: self.mux_address.deep_view(),
            stage: self.stage,
        }
    }
}

/// A port of this machine.
pub open spec fn loopback(port: u16) -> EndpointModel {
    EndpointModel { address: "127.0.0.1:"@ + decimal(port as nat), port }
}

/// The address that an inspector was asked for at: of the three flags, the
/// first that is set.
pub open spec fn inspector_address(run: RunModel) -> Option<EndpointModel> {
    if run.inspect is Some {
        run.inspect
    } else if run.inspect_brk is Some {
        run.inspect_brk
    } else {
        run.inspect_wait
    }
}

/// A variable whose value is a text.
pub open spec fn plain_variable(name: Text, value: Text) -> VariableModel {
    VariableModel { name, value: ValueModel::Plain(value) }
}

impl LaunchModel {
    /// The launch at another stage.
    pub open spec fn at(self, stage: LaunchStage) -> LaunchModel {
        LaunchModel { stage, ..self }
    }

    /// The renderer's debug port: the one that was asked for, or the one that
    /// was allocated.
    pub open spec fn renderer(self) -> EndpointModel {
        match self.flags.inspect_renderer {
            Some(endpoint) => endpoint,
            None => loopback(self.renderer_port->0),
        }
    }

    /// The multiplexer that is needed.
    pub open spec fn mux(self) -> MuxModel {
        MuxModel {
            listen: inspector_address(self.run)->0,
            deno_internal: loopback(self.runtime_port->0),
            cef_internal: self.renderer(),
            inspect_brk: self.run.inspect_brk is Some,
            wait_for_debugger: self.run.inspect_brk is Some || self.run.inspect_wait is Some,
        }
    }

    /// The variables that wire up the inspector.
    pub open spec fn inspector_variables(self) -> Seq<VariableModel> {
        if self.mux_address is Some {
            seq![
                plain_variable(
                    "DENO_DESKTOP_INSPECT_INTERNAL_PORT"@,
                    loopback(self.runtime_port->0).address,
                ),
                plain_variable("DENO_DESKTOP_MUX_WS"@, self.mux_address->0),
                plain_variable(
                    "LAUFEY_REMOTE_DEBUGGING_PORT"@,
                    decimal(self.renderer().port as nat),
                ),
            ] + (if self.run.inspect_brk is Some {
                seq![plain_variable("DENO_DESKTOP_INSPECT_BRK"@, "1"@)]
            } else {
                Seq::empty()
            }) + (if self.run.inspect_wait is Some {
                seq![plain_variable("DENO_DESKTOP_INSPECT_WAIT"@, "1"@)]
            } else {
                Seq::empty()
            })
        } else {
            Seq::empty()
        }
    }

    /// The variables of the backend, apart from those of the inspector.
    pub open spec fn app_variables(self) -> Seq<VariableModel> {
        seq![VariableModel { name: "LAUFEY_RUNTIME_PATH"@, value: ValueModel::Dylib }] + (
        if self.icon_found {
            seq![VariableModel { name: "LAUFEY_APP_ICON"@, value: ValueModel::Icon }]
        } else {
            Seq::empty()
        }) + (match self.app_name {
            Some(name) => seq![plain_variable("LAUFEY_APP_NAME"@, name)],
            None => Seq::empty(),
        }) + (if self.flags.hmr {
            seq![VariableModel { name: "DENO_DESKTOP_HMR"@, value: ValueModel::SourceDir }]
        } else {
            Seq::empty()
        }) + (match self.dev_url {
            Some(url) => seq![plain_variable("DENO_DESKTOP_DEV_URL"@, url)],
            None => Seq::empty(),
        })
    }

    /// The arguments of the backend: the compiled app, then what the user
    /// passed on.
    pub open spec fn backend_args(self) -> Seq<ValueModel> {
        seq![ValueModel::Plain("--runtime"@), ValueModel::Dylib] + self.flags.args.map_values(
            |arg: Text| ValueModel::Plain(arg),
        )
    }

    /// The command that runs the backend, in the directory of the project.
    pub open spec fn command(self) -> CommandModel {
        CommandModel {
            directory: ValueModel::SourceDir,
            args: self.backend_args(),
            variables: self.app_variables() + self.inspector_variables(),
        }
    }

    /// Where the launch goes once the backend is found: only macOS can be
    /// given another icon at launch.
    pub open spec fn with_backend(self) -> LaunchModel {
        if self.host == HostOs::Macos && self.flags.icon is Some {
            self.at(LaunchStage::ResolveIcon)
        } else {
            self.with_icon()
        }
    }

    /// Where the launch goes once the icon is settled.
    pub open spec fn with_icon(self) -> LaunchModel {
        if self.dev_server {
            self.at(LaunchStage::SpawnDevServer)
        } else {
            self.with_dev_server()
        }
    }

    /// Where the launch goes once the dev server is settled.
    pub open spec fn with_dev_server(self) -> LaunchModel {
        if self.run.inspecting() {
            self.at(LaunchStage::AllocateRuntimePort)
        } else {
            self.at(LaunchStage::Run)
        }
    }

    /// The launch with a port for the inspector of the runtime, or for that of
    /// the renderer.
    pub open spec fn with_port(self, port: u16) -> LaunchModel {
        if self.stage == LaunchStage::AllocateRuntimePort {
            let launch = LaunchModel { runtime_port: Some(port), ..self };
            if self.flags.inspect_renderer is Some {
                launch.at(LaunchStage::SpawnMux)
            } else {
                launch.at(LaunchStage::AllocateRendererPort)
            }
        } else {
            LaunchModel { renderer_port: Some(port), ..self }.at(LaunchStage::SpawnMux)
        }
    }

    /// The stage at which an event comes.
    pub open spec fn expects(self, event: LaunchEventModel) -> bool {
        match event {
            LaunchEventModel::BackendFound => self.stage == LaunchStage::FindBackend,
            LaunchEventModel::IconResolved { .. } => self.stage == LaunchStage::ResolveIcon,
            LaunchEventModel::DevServerUp { .. } => self.stage == LaunchStage::SpawnDevServer,
            LaunchEventModel::PortAllocated { .. } => self.stage
                == LaunchStage::AllocateRuntimePort || self.stage
                == LaunchStage::AllocateRendererPort,
            LaunchEventModel::MuxListening { .. } => self.stage == LaunchStage::SpawnMux,
            LaunchEventModel::Exited { .. } => self.stage == LaunchStage::Run,
        }
    }

    /// Where an event takes the launch. Only a backend that ends with a
    /// failure ends it with an error.
    pub open spec fn next(self, event: LaunchEventModel) -> Result<LaunchModel, ErrorModel> {
        match event {
            LaunchEventModel::BackendFound => Ok(self.with_backend()),
            LaunchEventModel::IconResolved { found } => Ok(
                LaunchModel { icon_found: found, ..self }.with_icon(),
            ),
            LaunchEventModel::DevServerUp { url } => Ok(
                LaunchModel { dev_url: Some(url), ..self }.with_dev_server(),
            ),
            LaunchEventModel::PortAllocated { port } => Ok(self.with_port(port)),
            LaunchEventModel::MuxListening { address } => Ok(
                LaunchModel { mux_address: Some(address), ..self }.at(LaunchStage::Run),
            ),
            LaunchEventModel::Exited { success, status } => if success {
                Ok(self.at(LaunchStage::Done))
            } else {
                Err(ErrorModel::BackendFailed { status })
            },
        }
    }

    /// What the launch needs done at its stage.
    pub open spec fn action(self) -> LaunchActionModel {
        match self.stage {
            LaunchStage::FindBackend => LaunchActionModel::FindBackend {
                backend: backend_of(self.flags),
            },
            LaunchStage::ResolveIcon => LaunchActionModel::ResolveIcon,
            LaunchStage::SpawnDevServer => LaunchActionModel::SpawnDevServer,
            LaunchStage::AllocateRuntimePort => LaunchActionModel::AllocatePort,
            LaunchStage::AllocateRendererPort => LaunchActionModel::AllocatePort,
            LaunchStage::SpawnMux => LaunchActionModel::SpawnMux { config: self.mux() },
            LaunchStage::Run => LaunchActionModel::Run { command: self.command() },
            LaunchStage::Done => LaunchActionModel::Nothing,
        }
    }

    /// Both ends of the multiplexer are settled.
    pub open spec fn mux_ready(self) -> bool {
        self.runtime_port is Some && (self.flags.inspect_renderer is Some || self.renderer_port
            is Some)
    }

    /// What holds of a launch at each stage.
    pub open spec fn wf(self) -> bool {
        &&& self.dev_server ==> self.flags.hmr
        &&& self.icon_found ==> self.host == HostOs::Macos && self.flags.icon is Some
        &&& match self.stage {
            LaunchStage::FindBackend => self.dev_url is None && self.mux_address is None,
            LaunchStage::ResolveIcon => self.host == HostOs::Macos && self.flags.icon is Some
                && self.dev_url is None && self.mux_address is None,
            LaunchStage::SpawnDevServer => self.dev_server && self.dev_url is None
                && self.mux_address is None,
            LaunchStage::AllocateRuntimePort => self.run.inspecting() && (self.dev_url is Some
                <==> self.dev_server) && self.mux_address is None,
            LaunchStage::AllocateRendererPort => self.run.inspecting() && (self.dev_url is Some
                <==> self.dev_server) && self.runtime_port is Some
                && self.flags.inspect_renderer is None && self.mux_address is None,
            LaunchStage::SpawnMux => self.run.inspecting() && (self.dev_url is Some
                <==> self.dev_server) && self.mux_ready() && self.mux_address is None,
            LaunchStage::Run => (self.dev_url is Some <==> self.dev_server) && (self.mux_address
                is Some <==> self.run.inspecting()) && (self.mux_address is Some
                ==> self.mux_ready()),
            LaunchStage::Done => true,
        }
    }
}

/// A launch begins with finding the backend. The framework's dev server is
/// needed where hot reloading was asked for and the framework has one.
pub open spec fn first_launch_stage(
    flags: FlagsModel,
    run: RunModel,
    framework: Option<FrameworkModel>,
    app_name: Option<Text>,
    host: HostOs,
) -> LaunchModel {
    LaunchModel {
        host,
        flags,
        run,
        dev_server: flags.hmr && framework is Some && framework->0.has_hmr_command,
        app_name,
        icon_found: false,
        dev_url: None,
        runtime_port: None,
        renderer_port: None,
        mux_address: None,
        stage: LaunchStage::FindBackend,
    }
}

/// `name` is the name of an app: that of its output, or else that of the
/// directory of the project.
pub open spec fn is_app_name(
    windows: bool,
    output: Option<Text>,
    source: Text,
    name: Option<Text>,
) -> bool {
    exists|directory: Option<Text>|
        #[trigger] is_file_name(windows, source, directory) && is_project_name(
            windows,
            output,
            directory,
            name,
        )
}

/// Appends a variable.
fn add_variable(variables: &mut Vec<Variable>, name: &str, value: Value)
    ensures
        final(variables).deep_view() == old(variables).deep_view().push(
            VariableModel { name: name@, value: value.deep_view() },
        ),
{
    let ghost before = variables.deep_view();
    variables.push(Variable { name: name.to_owned(), value });
    assert(variables.deep_view() =~= before.push(
        VariableModel { name: name@, value: value.deep_view() },
    ));
}

/// A port of this machine.
pub fn loopback_endpoint(port: u16) -> (endpoint: Endpoint)
    ensures
        endpoint.deep_view() == loopback(port),
        endpoint.deep_view().wf(),
{
    proof {
        lemma_loopback(port);
    }
    Endpoint { address: "127.0.0.1:".to_owned().concat(decimal_text(port).as_str()), port }
}

/// An address of this machine ends in its port.
proof fn lemma_loopback(port: u16)
    ensures
        loopback(port).wf(),
{
    reveal_strlit("127.0.0.1:");
    reveal_strlit(":");
    let end = ":"@ + decimal(port as nat);
    let address = loopback(port).address;
    assert(address.subrange(address.len() - end.len(), address.len() as int) =~= end);
}

/// The address that an inspector was asked for at.
pub fn inspector_endpoint(run: &RunFlags) -> (endpoint: Option<Endpoint>)
    ensures
        endpoint.deep_view() == inspector_address(run@),
{
    if let Some(endpoint) = &run.inspect {
        Some(endpoint.clone())
    } else if let Some(endpoint) = &run.inspect_brk {
        Some(endpoint.clone())
    } else if let Some(endpoint) = &run.inspect_wait {
        Some(endpoint.clone())
    } else {
        None
    }
}

impl Launch {
    fn renderer(&self) -> (endpoint: Endpoint)
        requires
            self@.mux_ready(),
        ensures
            endpoint.deep_view() == self@.renderer(),
    {
        match &self.flags.inspect_renderer {
            Some(endpoint) => endpoint.clone(),
            None => loopback_endpoint(self.renderer_port.unwrap()),
        }
    }

    fn mux(&self) -> (config: MuxConfig)
        requires
            self@.mux_ready(),
            self@.run.inspecting(),
        ensures
            config@ == self@.mux(),
    {
        MuxConfig {
            listen: inspector_endpoint(&self.run).unwrap(),
            deno_internal: loopback_endpoint(self.runtime_port.unwrap()),
            cef_internal: self.renderer(),
            inspect_brk: self.run.inspect_brk.is_some(),
            wait_for_debugger: self.run.inspect_brk.is_some() || self.run.inspect_wait.is_some(),
        }
    }

    fn backend_args(&self) -> (args: Vec<Value>)
        ensures
            args.deep_view() == self@.backend_args(),
    {
        let mut args: Vec<Value> = Vec::new();
        args.push(Value::Plain("--runtime".to_owned()));
        args.push(Value::Dylib);
        let mut i: usize = 0;
        while i < self.flags.args.len()
            invariant
                i <= self.flags.args@.len(),
                args@.len() == i + 2,
                forall|j: int|
                    0 <= j < i + 2 ==> (#[trigger] args@[j]).deep_view()
                        == self@.backend_args()[j],
            decreases self.flags.args@.len() - i,
        {
            args.push(Value::Plain(self.flags.args[i].clone()));
            i += 1;
        }
        assert(args.deep_view() =~= self@.backend_args());
        args
    }

    fn app_variables(&self) -> (variables: Vec<Variable>)
        ensures
            variables.deep_view() == self@.app_variables(),
    {
        let mut variables: Vec<Variable> = Vec::new();
        add_variable(&mut variables, "LAUFEY_RUNTIME_PATH", Value::Dylib);
        if self.icon_found {
            add_variable(&mut variables, "LAUFEY_APP_ICON", Value::Icon);
        }
        if let Some(name) = &self.app_name {
            add_variable(&mut variables, "LAUFEY_APP_NAME", Value::Plain(name.clone()));
        }
        if self.flags.hmr {
            add_variable(&mut variables, "DENO_DESKTOP_HMR", Value::SourceDir);
        }
        if let Some(url) = &self.dev_url {
            add_variable(&mut variables, "DENO_DESKTOP_DEV_URL", Value::Plain(url.clone()));
        }
        assert(variables.deep_view() =~= self@.app_variables());
        variables
    }

    fn command(&self) -> (command: BackendCommand)
        requires
            self@.mux_address is Some ==> self@.mux_ready(),
        ensures
            command@ == self@.command(),
    {
        let mut variables = self.app_variables();
        let ghost front = variables.deep_view();
        if let Some(address) = &self.mux_address {
            let runtime = loopback_endpoint(self.runtime_port.unwrap());
            let renderer = self.renderer();
            add_variable(
                &mut variables,
                "DENO_DESKTOP_INSPECT_INTERNAL_PORT",
                Value::Plain(runtime.address),
            );
            add_variable(&mut variables, "DENO_DESKTOP_MUX_WS", Value::Plain(address.clone()));
            add_variable(
                &mut variables,
                "LAUFEY_REMOTE_DEBUGGING_PORT",
                Value::Plain(decimal_text(renderer.port)),
            );
            if self.run.inspect_brk.is_some() {
                add_variable(
                    &mut variables,
                    "DENO_DESKTOP_INSPECT_BRK",
                    Value::Plain("1".to_owned()),
                );
            }
            if self.run.inspect_wait.is_some() {
                add_variable(
                    &mut variables,
                    "DENO_DESKTOP_INSPECT_WAIT",
                    Value::Plain("1".to_owned()),
                );
            }
        }
        assert(variables.deep_view() =~= front + self@.inspector_variables());
        BackendCommand { directory: Value::SourceDir, args: self.backend_args(), variables }
    }

    fn with_backend(self) -> (launch: Launch)
        ensures
            launch@ == self@.with_backend(),
    {
        if self.host == HostOs::Macos && self.flags.icon.is_some() {
            Launch { stage: LaunchStage::ResolveIcon, ..self }
        } else {
            self.with_icon()
        }
    }

    fn with_icon(self) -> (launch: Launch)
        ensures
            launch@ == self@.with_icon(),
    {
        if self.dev_server {
            Launch { stage: LaunchStage::SpawnDevServer, ..self }
        } else {
            self.with_dev_server()
        }
    }

    fn with_dev_server(self) -> (launch: Launch)
        ensures
            launch@ == self@.with_dev_server(),
    {
        if self.run.inspector_requested() {
            Launch { stage: LaunchStage::AllocateRuntimePort, ..self }
        } else {
            Launch { stage: LaunchStage::Run, ..self }
        }
    }

    fn with_port(self, port: u16) -> (launch: Launch)
        ensures
            launch@ == self@.with_port(port),
    {
        if self.stage == LaunchStage::AllocateRuntimePort {
            let stage = if self.flags.inspect_renderer.is_some() {
                LaunchStage::SpawnMux
            } else {
                LaunchStage::AllocateRendererPort
            };
            Launch { runtime_port: Some(port), stage, ..self }
        } else {
            Launch { renderer_port: Some(port), stage: LaunchStage::SpawnMux, ..self }
        }
    }

    /// Whether an event can come at this stage.
    pub fn expects(&self, event: &LaunchEvent) -> (yes: bool)
        ensures
            yes == self@.expects(event@),
    {
        match event {
            LaunchEvent::BackendFound => self.stage == LaunchStage::FindBackend,
            LaunchEvent::IconResolved { found: _ } => self.stage == LaunchStage::ResolveIcon,
            LaunchEvent::DevServerUp { url: _ } => self.stage == LaunchStage::SpawnDevServer,
            LaunchEvent::PortAllocated { port: _ } => self.stage
                == LaunchStage::AllocateRuntimePort || self.stage
                == LaunchStage::AllocateRendererPort,
            LaunchEvent::MuxListening { address: _ } => self.stage == LaunchStage::SpawnMux,
            LaunchEvent::Exited { success: _, status: _ } => self.stage == LaunchStage::Run,
        }
    }

    /// What the launch needs done.
    pub fn action(&self) -> (action: LaunchAction)
        requires
            self@.wf(),
        ensures
            action@ == self@.action(),
    {
        match self.stage {
            LaunchStage::FindBackend => LaunchAction::FindBackend {
                backend: backend_or_default(&self.flags),
            },
            LaunchStage::ResolveIcon => LaunchAction::ResolveIcon,
            LaunchStage::SpawnDevServer => LaunchAction::SpawnDevServer,
            LaunchStage::AllocateRuntimePort => LaunchAction::AllocatePort,
            LaunchStage::AllocateRendererPort => LaunchAction::AllocatePort,
            LaunchStage::SpawnMux => LaunchAction::SpawnMux { config: self.mux() },
            LaunchStage::Run => LaunchAction::Run { command: self.command() },
            LaunchStage::Done => LaunchAction::Nothing,
        }
    }

    /// Takes the launch on by what came of its action.
    pub fn step(self, event: LaunchEvent) -> (result: Result<Launch, DesktopError>)
        requires
            self@.wf(),
            self@.expects(event@),
        ensures
            match result {
                Ok(launch) => launch@.wf() && self@.next(event@) == Ok::<LaunchModel, ErrorModel>(
                    launch@,
                ),
                Err(error) => self@.next(event@) == Err::<LaunchModel, ErrorModel>(error@),
            },
    {
        match event {
            LaunchEvent::BackendFound => Ok(self.with_backend()),
            LaunchEvent::IconResolved { found } => Ok(
                Launch { icon_found: found, ..self }.with_icon(),
            ),
            LaunchEvent::DevServerUp { url } => Ok(
                Launch { dev_url: Some(url), ..self }.with_dev_server(),
            ),
            LaunchEvent::PortAllocated { port } => Ok(self.with_port(port)),
            LaunchEvent::MuxListening { address } => Ok(
                Launch { mux_address: Some(address), stage: LaunchStage::Run, ..self },
            ),
            LaunchEvent::Exited { success, status } => if success {
                Ok(Launch { stage: LaunchStage::Done, ..self })
            } else {
                Err(DesktopError::BackendFailed { status })
            },
        }
    }
}

/// Begins to run a compiled app from the given directory of its project.
pub fn run_desktop_hmr(
    desktop_flags: DesktopFlags,
    run: RunFlags,
    framework: &Option<FrameworkDetection>,
    source: &str,
    rules: PathRules,
    host: HostOs,
) -> (launch: Launch)
    ensures
        launch@.wf(),
        is_app_name(rules.windows(), desktop_flags@.output, source@, launch@.app_name),
        launch@ == first_launch_stage(
            desktop_flags@,
            run@,
            framework.deep_view(),
            launch@.app_name,
            host,
        ),
{
    let dev_server = desktop_flags.hmr && match framework {
        Some(framework) => framework.has_hmr_command,
        None => false,
    };
    let directory = path_file_name(rules, source);
    assert(is_file_name(rules.windows(), source@, directory.deep_view()));
    let output = match &desktop_flags.output {
        Some(output) => Some(output.as_str()),
        None => None,
    };
    let app_name = project_name(rules, output, directory);
    Launch {
        host,
        flags: desktop_flags,
        run,
        dev_server,
        app_name,
        icon_found: false,
        dev_url: None,
        runtime_port: None,
        renderer_port: None,
        mux_address: None,
        stage: LaunchStage::FindBackend,
    }
}

/// An event tells what came of an action.
pub open spec fn launch_answers(event: LaunchEventModel, action: LaunchActionModel) -> bool {
    match event {
        LaunchEventModel::BackendFound => action is FindBackend,
        LaunchEventModel::IconResolved { .. } => action is ResolveIcon,
        LaunchEventModel::DevServerUp { .. } => action is SpawnDevServer,
        LaunchEventModel::PortAllocated { .. } => action is AllocatePort,
        LaunchEventModel::MuxListening { .. } => action is SpawnMux,
        LaunchEventModel::Exited { .. } => action is Run,
    }
}

/// A launch expects just the events that answer its action, so that it can go
/// on whenever its action has been done.
pub proof fn law_launch_answers_are_expected(launch: LaunchModel, event: LaunchEventModel)
    ensures
        launch.expects(event) <==> launch_answers(event, launch.action()),
{
}

/// What holds of a launch at its stage holds again at the next one.
pub proof fn law_launch_stays_well_formed(launch: LaunchModel, event: LaunchEventModel)
    requires
        launch.wf(),
        launch.expects(event),
    ensures
        launch.next(event) matches Ok(next) ==> next.wf(),
{
}

/// A launch fails just where the backend ends with a failure, and says how it
/// ended.
pub proof fn law_only_failing_backends_fail(launch: LaunchModel, event: LaunchEventModel)
    ensures
        launch.next(event) is Err <==> (event matches LaunchEventModel::Exited { success, status }
            && !success),
        launch.next(event) matches Err(error) ==> (event matches LaunchEventModel::Exited {
            success,
            status,
        } && error == (ErrorModel::BackendFailed { status })),
{
}

/// Every step leaves fewer stages to come, and a launch that is done expects
/// nothing more.
pub proof fn law_launch_stages_run_out(launch: LaunchModel, event: LaunchEventModel)
    requires
        launch.expects(event),
    ensures
        launch.stage != LaunchStage::Done,
        launch.next(event) matches Ok(next) ==> next.stage.rank() < launch.stage.rank(),
{
}

/// No step changes the flags or the name of the app.
pub proof fn law_launch_keeps_flags(launch: LaunchModel, event: LaunchEventModel)
    ensures
        launch.next(event) matches Ok(next) ==> {
            &&& next.flags == launch.flags
            &&& next.run == launch.run
            &&& next.host == launch.host
            &&& next.app_name == launch.app_name
            &&& next.dev_server == launch.dev_server
        },
{
}

/// The backend runs in the directory of the project. What the user passed on
/// reaches it, all of it and in order, after the compiled app.
pub proof fn law_user_args_are_forwarded(launch: LaunchModel)
    ensures
        launch.command().directory == ValueModel::SourceDir,
        launch.command().args.len() == launch.flags.args.len() + 2,
        launch.command().args[0] == ValueModel::Plain("--runtime"@),
        launch.command().args[1] == ValueModel::Dylib,
        forall|i: int|
            0 <= i < launch.flags.args.len() ==> launch.command().args[i + 2]
                == ValueModel::Plain(#[trigger] launch.flags.args[i]),
{
}

/// The debugger is waited for just where one of the two flags asks for it, and
/// the multiplexer listens where the first of the three flags says.
pub proof fn law_mux_follows_flags(launch: LaunchModel)
    requires
        launch.wf(),
        launch.stage == LaunchStage::SpawnMux,
    ensures
        launch.action() matches LaunchActionModel::SpawnMux { config } && {
            &&& config.wait_for_debugger <==> launch.run.inspect_brk is Some
                || launch.run.inspect_wait is Some
            &&& config.inspect_brk <==> launch.run.inspect_brk is Some
            &&& launch.run.inspect is Some ==> Some(config.listen) == launch.run.inspect
            &&& launch.run.inspect is None && launch.run.inspect_brk is Some ==> Some(
                config.listen,
            ) == launch.run.inspect_brk
            &&& launch.run.inspect is None && launch.run.inspect_brk is None ==> Some(
                config.listen,
            ) == launch.run.inspect_wait
            &&& launch.flags.inspect_renderer is Some ==> Some(config.cef_internal)
                == launch.flags.inspect_renderer
        },
{
}

/// Where the endpoints of the flags agree with their ports, so do those of the
/// multiplexer.
pub proof fn law_mux_endpoints_agree(launch: LaunchModel)
    requires
        launch.wf(),
        launch.stage == LaunchStage::SpawnMux,
        launch.run.endpoints_wf(),
        launch.flags.inspect_renderer is Some ==> launch.flags.inspect_renderer->0.wf(),
    ensures
        launch.mux().listen.wf(),
        launch.mux().deno_internal.wf(),
        launch.mux().cef_internal.wf(),
{
    lemma_loopback(launch.runtime_port->0);
    if launch.flags.inspect_renderer is None {
        lemma_loopback(launch.renderer_port->0);
    }
}

/// A port for the renderer is allocated only where none was asked for, and
/// after that of the runtime; both are there before the multiplexer starts.
pub proof fn law_ports_are_allocated(launch: LaunchModel)
    requires
        launch.wf(),
    ensures
        launch.stage == LaunchStage::AllocateRendererPort ==> launch.flags.inspect_renderer is None
            && launch.runtime_port is Some,
        launch.stage == LaunchStage::SpawnMux ==> launch.runtime_port is Some
            && (launch.flags.inspect_renderer is None ==> launch.renderer_port is Some),
{
}

/// An app that has a name has one that is not empty.
pub proof fn law_app_name_is_not_empty(
    windows: bool,
    output: Option<Text>,
    source: Text,
    name: Option<Text>,
)
    requires
        is_app_name(windows, output, source, name),
    ensures
        name is Some ==> name->0.len() > 0,
{
}

/// A variable with the given name is among those of the backend.
pub open spec fn sets(variables: Seq<VariableModel>, name: Text) -> bool {
    exists|i: int| 0 <= i < variables.len() && (#[trigger] variables[i]).name == name
}

proof fn lemma_sets_both(left: Seq<VariableModel>, right: Seq<VariableModel>, name: Text)
    ensures
        sets(left + right, name) <==> sets(left, name) || sets(right, name),
{
    let all = left + right;
    if sets(left, name) {
        let i = choose|i: int| 0 <= i < left.len() && (#[trigger] left[i]).name == name;
        assert(all[i].name == name);
    }
    if sets(right, name) {
        let i = choose|i: int| 0 <= i < right.len() && (#[trigger] right[i]).name == name;
        assert(all[left.len() + i].name == name);
    }
    if sets(all, name) {
        let i = choose|i: int| 0 <= i < all.len() && (#[trigger] all[i]).name == name;
        if i < left.len() {
            assert(left[i].name == name);
        } else {
            assert(right[i - left.len()].name == name);
        }
    }
}

proof fn lemma_sets_one(variable: VariableModel, name: Text)
    ensures
        sets(seq![variable], name) <==> variable.name == name,
        !sets(Seq::empty(), name),
{
    if variable.name == name {
        assert(seq![variable][0].name == name);
    }
}

/// The names of the variables are all different.
proof fn lemma_names_differ()
    ensures
        "LAUFEY_RUNTIME_PATH"@ != "LAUFEY_APP_ICON"@,
        "LAUFEY_RUNTIME_PATH"@ != "LAUFEY_APP_NAME"@,
        "LAUFEY_RUNTIME_PATH"@ != "DENO_DESKTOP_HMR"@,
        "LAUFEY_RUNTIME_PATH"@ != "DENO_DESKTOP_DEV_URL"@,
        "LAUFEY_RUNTIME_PATH"@ != "DENO_DESKTOP_INSPECT_INTERNAL_PORT"@,
        "LAUFEY_RUNTIME_PATH"@ != "DENO_DESKTOP_MUX_WS"@,
        "LAUFEY_RUNTIME_PATH"@ != "LAUFEY_REMOTE_DEBUGGING_PORT"@,
        "LAUFEY_RUNTIME_PATH"@ != "DENO_DESKTOP_INSPECT_BRK"@,
        "LAUFEY_RUNTIME_PATH"@ != "DENO_DESKTOP_INSPECT_WAIT"@,
        "LAUFEY_APP_ICON"@ != "LAUFEY_APP_NAME"@,
        "LAUFEY_APP_ICON"@ != "DENO_DESKTOP_HMR"@,
        "LAUFEY_APP_ICON"@ != "DENO_DESKTOP_DEV_URL"@,
        "LAUFEY_APP_ICON"@ != "DENO_DESKTOP_INSPECT_INTERNAL_PORT"@,
        "LAUFEY_APP_ICON"@ != "DENO_DESKTOP_MUX_WS"@,
        "LAUFEY_APP_ICON"@ != "LAUFEY_REMOTE_DEBUGGING_PORT"@,
        "LAUFEY_APP_ICON"@ != "DENO_DESKTOP_INSPECT_BRK"@,
        "LAUFEY_APP_ICON"@ != "DENO_DESKTOP_INSPECT_WAIT"@,
        "LAUFEY_APP_NAME"@ != "DENO_DESKTOP_HMR"@,
        "LAUFEY_APP_NAME"@ != "DENO_DESKTOP_DEV_URL"@,
        "LAUFEY_APP_NAME"@ != "DENO_DESKTOP_INSPECT_INTERNAL_PORT"@,
        "LAUFEY_APP_NAME"@ != "DENO_DESKTOP_MUX_WS"@,
        "LAUFEY_APP_NAME"@ != "LAUFEY_REMOTE_DEBUGGING_PORT"@,
        "LAUFEY_APP_NAME"@ != "DENO_DESKTOP_INSPECT_BRK"@,
        "LAUFEY_APP_NAME"@ != "DENO_DESKTOP_INSPECT_WAIT"@,
        "DENO_DESKTOP_HMR"@ != "DENO_DESKTOP_DEV_URL"@,
        "DENO_DESKTOP_HMR"@ != "DENO_DESKTOP_INSPECT_INTERNAL_PORT"@,
        "DENO_DESKTOP_HMR"@ != "DENO_DESKTOP_MUX_WS"@,
        "DENO_DESKTOP_HMR"@ != "LAUFEY_REMOTE_DEBUGGING_PORT"@,
        "DENO_DESKTOP_HMR"@ != "DENO_DESKTOP_INSPECT_BRK"@,
        "DENO_DESKTOP_HMR"@ != "DENO_DESKTOP_INSPECT_WAIT"@,
        "DENO_DESKTOP_DEV_URL"@ != "DENO_DESKTOP_INSPECT_INTERNAL_PORT"@,
        "DENO_DESKTOP_DEV_URL"@ != "DENO_DESKTOP_MUX_WS"@,
        "DENO_DESKTOP_DEV_URL"@ != "LAUFEY_REMOTE_DEBUGGING_PORT"@,
        "DENO_DESKTOP_DEV_URL"@ != "DENO_DESKTOP_INSPECT_BRK"@,
        "DENO_DESKTOP_DEV_URL"@ != "DENO_DESKTOP_INSPECT_WAIT"@,
        "DENO_DESKTOP_INSPECT_INTERNAL_PORT"@ != "DENO_DESKTOP_MUX_WS"@,
        "DENO_DESKTOP_INSPECT_INTERNAL_PORT"@ != "LAUFEY_REMOTE_DEBUGGING_PORT"@,
        "DENO_DESKTOP_INSPECT_INTERNAL_PORT"@ != "DENO_DESKTOP_INSPECT_BRK"@,
        "DENO_DESKTOP_INSPECT_INTERNAL_PORT"@ != "DENO_DESKTOP_INSPECT_WAIT"@,
        "DENO_DESKTOP_MUX_WS"@ != "LAUFEY_REMOTE_DEBUGGING_PORT"@,
        "DENO_DESKTOP_MUX_WS"@ != "DENO_DESKTOP_INSPECT_BRK"@,
        "DENO_DESKTOP_MUX_WS"@ != "DENO_DESKTOP_INSPECT_WAIT"@,
        "LAUFEY_REMOTE_DEBUGGING_PORT"@ != "DENO_DESKTOP_INSPECT_BRK"@,
        "LAUFEY_REMOTE_DEBUGGING_PORT"@ != "DENO_DESKTOP_INSPECT_WAIT"@,
        "DENO_DESKTOP_INSPECT_BRK"@ != "DENO_DESKTOP_INSPECT_WAIT"@,
{
    reveal_strlit("LAUFEY_RUNTIME_PATH");
    reveal_strlit("LAUFEY_APP_ICON");
    reveal_strlit("LAUFEY_APP_NAME");
    reveal_strlit("DENO_DESKTOP_HMR");
    reveal_strlit("DENO_DESKTOP_DEV_URL");
    reveal_strlit("DENO_DESKTOP_INSPECT_INTERNAL_PORT");
    reveal_strlit("DENO_DESKTOP_MUX_WS");
    reveal_strlit("LAUFEY_REMOTE_DEBUGGING_PORT");
    reveal_strlit("DENO_DESKTOP_INSPECT_BRK");
    reveal_strlit("DENO_DESKTOP_INSPECT_WAIT");
    assert("LAUFEY_RUNTIME_PATH"@.len() == 19);
    assert("LAUFEY_APP_ICON"@.len() == 15);
    assert("LAUFEY_APP_NAME"@.len() == 15);
    assert("DENO_DESKTOP_HMR"@.len() == 16);
    assert("DENO_DESKTOP_DEV_URL"@.len() == 20);
    assert("DENO_DESKTOP_INSPECT_INTERNAL_PORT"@.len() == 34);
    assert("DENO_DESKTOP_MUX_WS"@.len() == 19);
    assert("LAUFEY_REMOTE_DEBUGGING_PORT"@.len() == 28);
    assert("DENO_DESKTOP_INSPECT_BRK"@.len() == 24);
    assert("DENO_DESKTOP_INSPECT_WAIT"@.len() == 25);
    assert("LAUFEY_RUNTIME_PATH"@[0] != "DENO_DESKTOP_MUX_WS"@[0]);
    assert("LAUFEY_APP_ICON"@[11] != "LAUFEY_APP_NAME"@[11]);
}

/// Which variables the backend gets is decided by the flags alone. The file
/// watcher is turned on just by hot reloading, never by an inspector; the
/// inspector is wired up just where one of its flags is set.
pub proof fn law_variables_follow_flags(launch: LaunchModel)
    requires
        launch.wf(),
        launch.stage == LaunchStage::Run,
    ensures
        ({
            let variables = launch.command().variables;
            &&& sets(variables, "LAUFEY_RUNTIME_PATH"@)
            &&& sets(variables, "LAUFEY_APP_ICON"@) <==> launch.icon_found
            &&& sets(variables, "LAUFEY_APP_NAME"@) <==> launch.app_name is Some
            &&& sets(variables, "DENO_DESKTOP_HMR"@) <==> launch.flags.hmr
            &&& sets(variables, "DENO_DESKTOP_DEV_URL"@) <==> launch.dev_server
            &&& sets(variables, "DENO_DESKTOP_INSPECT_INTERNAL_PORT"@)
                <==> launch.run.inspecting()
            &&& sets(variables, "DENO_DESKTOP_MUX_WS"@) <==> launch.run.inspecting()
            &&& sets(variables, "LAUFEY_REMOTE_DEBUGGING_PORT"@) <==> launch.run.inspecting()
            &&& sets(variables, "DENO_DESKTOP_INSPECT_BRK"@) <==> launch.run.inspect_brk is Some
            &&& sets(variables, "DENO_DESKTOP_INSPECT_WAIT"@)
                <==> launch.run.inspect_wait is Some
        }),
{
    lemma_sets_by_flags(launch, "LAUFEY_RUNTIME_PATH"@);
    lemma_sets_by_flags(launch, "LAUFEY_APP_ICON"@);
    lemma_sets_by_flags(launch, "LAUFEY_APP_NAME"@);
    lemma_sets_by_flags(launch, "DENO_DESKTOP_HMR"@);
    lemma_sets_by_flags(launch, "DENO_DESKTOP_DEV_URL"@);
    lemma_sets_by_flags(launch, "DENO_DESKTOP_INSPECT_INTERNAL_PORT"@);
    lemma_sets_by_flags(launch, "DENO_DESKTOP_MUX_WS"@);
    lemma_sets_by_flags(launch, "LAUFEY_REMOTE_DEBUGGING_PORT"@);
    lemma_sets_by_flags(launch, "DENO_DESKTOP_INSPECT_BRK"@);
    lemma_sets_by_flags(launch, "DENO_DESKTOP_INSPECT_WAIT"@);
    lemma_names_differ();
}

/// The pieces that a variable can come from.
proof fn lemma_sets_by_flags(launch: LaunchModel, name: Text)
    requires
        launch.wf(),
        launch.stage == LaunchStage::Run,
    ensures
        sets(launch.command().variables, name) <==> {
            ||| name == "LAUFEY_RUNTIME_PATH"@
            ||| launch.icon_found && name == "LAUFEY_APP_ICON"@
            ||| launch.app_name is Some && name == "LAUFEY_APP_NAME"@
            ||| launch.flags.hmr && name == "DENO_DESKTOP_HMR"@
            ||| launch.dev_server && name == "DENO_DESKTOP_DEV_URL"@
            ||| launch.run.inspecting() && (name == "DENO_DESKTOP_INSPECT_INTERNAL_PORT"@ || name
                == "DENO_DESKTOP_MUX_WS"@ || name == "LAUFEY_REMOTE_DEBUGGING_PORT"@)
            ||| launch.run.inspect_brk is Some && name == "DENO_DESKTOP_INSPECT_BRK"@
            ||| launch.run.inspect_wait is Some && name == "DENO_DESKTOP_INSPECT_WAIT"@
        },
{
    let none = Seq::<VariableModel>::empty();
    let runtime = VariableModel { name: "LAUFEY_RUNTIME_PATH"@, value: ValueModel::Dylib };
    let icon = VariableModel { name: "LAUFEY_APP_ICON"@, value: ValueModel::Icon };
    let app = plain_variable("LAUFEY_APP_NAME"@, launch.app_name->0);
    let hmr = VariableModel { name: "DENO_DESKTOP_HMR"@, value: ValueModel::SourceDir };
    let url = plain_variable("DENO_DESKTOP_DEV_URL"@, launch.dev_url->0);
    let brk = plain_variable("DENO_DESKTOP_INSPECT_BRK"@, "1"@);
    let wait = plain_variable("DENO_DESKTOP_INSPECT_WAIT"@, "1"@);
    lemma_sets_one(runtime, name);
    lemma_sets_one(icon, name);
    lemma_sets_one(app, name);
    lemma_sets_one(hmr, name);
    lemma_sets_one(url, name);
    lemma_sets_one(brk, name);
    lemma_sets_one(wait, name);

    let a = seq![runtime];
    let b = if launch.icon_found {
        seq![icon]
    } else {
        none
    };
    let c = match launch.app_name {
        Some(text) => seq![plain_variable("LAUFEY_APP_NAME"@, text)],
        None => none,
    };
    let d = if launch.flags.hmr {
        seq![hmr]
    } else {
        none
    };
    let e = match launch.dev_url {
        Some(text) => seq![plain_variable("DENO_DESKTOP_DEV_URL"@, text)],
        None => none,
    };
    lemma_sets_both(a, b, name);
    lemma_sets_both(a + b, c, name);
    lemma_sets_both(a + b + c, d, name);
    lemma_sets_both(a + b + c + d, e, name);
    assert(launch.app_variables() == a + b + c + d + e);
    lemma_sets_both(launch.app_variables(), launch.inspector_variables(), name);
    if launch.mux_address is Some {
        let port = plain_variable(
            "DENO_DESKTOP_INSPECT_INTERNAL_PORT"@,
            loopback(launch.runtime_port->0).address,
        );
        let socket = plain_variable("DENO_DESKTOP_MUX_WS"@, launch.mux_address->0);
        let debugging = plain_variable(
            "LAUFEY_REMOTE_DEBUGGING_PORT"@,
            decimal(launch.renderer().port as nat),
        );
        lemma_sets_one(port, name);
        lemma_sets_one(socket, name);
        lemma_sets_one(debugging, name);
        let f = seq![port] + seq![socket] + seq![debugging];
        lemma_sets_both(seq![port], seq![socket], name);
        lemma_sets_both(seq![port] + seq![socket], seq![debugging], name);
        assert(f =~= seq![port, socket, debugging]);
        let g = if launch.run.inspect_brk is Some {
            seq![brk]
        } else {
            none
        };
        let h = if launch.run.inspect_wait is Some {
            seq![wait]
        } else {
            none
        };
        lemma_sets_both(f, g, name);
        lemma_sets_both(f + g, h, name);
        assert(launch.inspector_variables() == f + g + h);
    }
}

/// A launch begins with nothing settled but the flags and the name. The
/// framework's dev server is wanted just with hot reloading and a framework
/// that has one.
pub proof fn law_launch_begins(
    flags: FlagsModel,
    run: RunModel,
    framework: Option<FrameworkModel>,
    app_name: Option<Text>,
    host: HostOs,
)
    ensures
        ({
            let launch = first_launch_stage(flags, run, framework, app_name, host);
            &&& launch.stage == LaunchStage::FindBackend
            &&& launch.flags == flags
            &&& launch.run == run
            &&& launch.host == host
            &&& launch.app_name == app_name
            &&& framework is None ==> !launch.dev_server
            &&& framework matches Some(found) ==> (launch.dev_server <==> flags.hmr
                && found.has_hmr_command)
            &&& !launch.icon_found
            &&& launch.dev_url is None && launch.mux_address is None
            &&& launch.runtime_port is None && launch.renderer_port is None
        }),
{
}

/// An app is named by the stem of its output, where that has one; otherwise by
/// the directory it is run from. An empty name is none.
pub proof fn law_apps_are_named(
    windows: bool,
    output: Option<Text>,
    source: Text,
    name: Option<Text>,
)
    requires
        is_app_name(windows, output, source, name),
    ensures
        ({
            let stem = stem_by(windows, output->0);
            let stemmed = output is Some && stem is Some;
            let directory = name_by(windows, source);
            &&& stemmed && stem->0.len() > 0 ==> name == stem
            &&& stemmed && stem->0.len() == 0 ==> name is None
            &&& !stemmed && directory is Some && directory->0.len() > 0 ==> name == directory
            &&& !stemmed && (directory is None || directory->0.len() == 0) ==> name is None
        }),
{
}

/// Once the backend is found, the icon is resolved on macOS and only for an app
/// with an icon; then the dev server is started where it is wanted; then ports
/// are allocated where one of the three inspector flags is set; then the
/// backend runs. Nothing but the stage changes.
pub proof fn law_after_the_backend_is_found(launch: LaunchModel)
    ensures
        ({
            let iconic = launch.host == HostOs::Macos && launch.flags.icon is Some;
            let inspected = launch.run.inspect is Some || launch.run.inspect_brk is Some
                || launch.run.inspect_wait is Some;
            &&& launch.next(LaunchEventModel::BackendFound) matches Ok(next)
            &&& next == (LaunchModel { stage: next.stage, ..launch })
            &&& next.stage == LaunchStage::ResolveIcon <==> iconic
            &&& next.stage == LaunchStage::SpawnDevServer <==> !iconic && launch.dev_server
            &&& next.stage == LaunchStage::AllocateRuntimePort <==> !iconic && !launch.dev_server
                && inspected
            &&& next.stage == LaunchStage::Run <==> !iconic && !launch.dev_server && !inspected
        }),
{
}

/// An icon is kept as found or not found; then as above.
pub proof fn law_after_the_icon_is_resolved(launch: LaunchModel, found: bool)
    ensures
        ({
            let inspected = launch.run.inspect is Some || launch.run.inspect_brk is Some
                || launch.run.inspect_wait is Some;
            &&& launch.next(LaunchEventModel::IconResolved { found }) matches Ok(next)
            &&& next == (LaunchModel { icon_found: found, stage: next.stage, ..launch })
            &&& next.stage == LaunchStage::SpawnDevServer <==> launch.dev_server
            &&& next.stage == LaunchStage::AllocateRuntimePort <==> !launch.dev_server && inspected
            &&& next.stage == LaunchStage::Run <==> !launch.dev_server && !inspected
        }),
{
}

/// The URL of the dev server is kept; then as above.
pub proof fn law_after_the_dev_server_is_up(launch: LaunchModel, url: Text)
    ensures
        ({
            let inspected = launch.run.inspect is Some || launch.run.inspect_brk is Some
                || launch.run.inspect_wait is Some;
            &&& launch.next(LaunchEventModel::DevServerUp { url }) matches Ok(next)
            &&& next == (LaunchModel { dev_url: Some(url), stage: next.stage, ..launch })
            &&& next.stage == LaunchStage::AllocateRuntimePort <==> inspected
            &&& next.stage == LaunchStage::Run <==> !inspected
        }),
{
}

/// The first port is for the runtime, the second for the renderer, and the
/// second is allocated just where the renderer was given none. The multiplexer
/// comes last, and then the backend runs.
pub proof fn law_ports_and_multiplexer_are_kept(launch: LaunchModel, port: u16, address: Text)
    ensures
        launch.stage == LaunchStage::AllocateRuntimePort ==> {
            &&& launch.next(LaunchEventModel::PortAllocated { port }) matches Ok(next)
            &&& next == (LaunchModel { runtime_port: Some(port), stage: next.stage, ..launch })
            &&& launch.flags.inspect_renderer is None ==> next.stage
                == LaunchStage::AllocateRendererPort
            &&& launch.flags.inspect_renderer is Some ==> next.stage == LaunchStage::SpawnMux
        },
        launch.stage == LaunchStage::AllocateRendererPort ==> {
            &&& launch.next(LaunchEventModel::PortAllocated { port }) matches Ok(next)
            &&& next == (LaunchModel {
                renderer_port: Some(port),
                stage: LaunchStage::SpawnMux,
                ..launch
            })
        },
        ({
            &&& launch.next(LaunchEventModel::MuxListening { address }) matches Ok(next)
            &&& next == (LaunchModel {
                mux_address: Some(address),
                stage: LaunchStage::Run,
                ..launch
            })
        }),
{
}

/// A backend that ends well ends the launch; any other end is the error.
pub proof fn law_the_end_of_the_backend_decides(launch: LaunchModel, status: Text)
    ensures
        ({
            &&& launch.next(LaunchEventModel::Exited { success: true, status }) matches Ok(next)
            &&& next == (LaunchModel { stage: LaunchStage::Done, ..launch })
        }),
        ({
            &&& launch.next(LaunchEventModel::Exited { success: false, status }) matches Err(error)
            &&& error == (ErrorModel::BackendFailed { status })
        }),
{
}

/// Each stage asks for its own work: the backend that the flags name, or the
/// web view; the icon; the dev server; a port; the multiplexer; the run.
pub proof fn law_launch_asks_for_its_work(launch: LaunchModel)
    ensures
        ({
            let action = launch.action();
            &&& action is FindBackend <==> launch.stage == LaunchStage::FindBackend
            &&& action matches LaunchActionModel::FindBackend { backend } ==> {
                &&& launch.flags.backend is Some ==> Some(backend) == launch.flags.backend
                &&& launch.flags.backend is None ==> backend == "webview"@
            }
            &&& action is ResolveIcon <==> launch.stage == LaunchStage::ResolveIcon
            &&& action is SpawnDevServer <==> launch.stage == LaunchStage::SpawnDevServer
            &&& action is AllocatePort <==> launch.stage == LaunchStage::AllocateRuntimePort
                || launch.stage == LaunchStage::AllocateRendererPort
            &&& action is SpawnMux <==> launch.stage == LaunchStage::SpawnMux
            &&& action is Run <==> launch.stage == LaunchStage::Run
            &&& action matches LaunchActionModel::Run { command } ==> command == launch.command()
            &&& action is Nothing <==> launch.stage == LaunchStage::Done
        }),
{
}

/// The multiplexer listens where the first of the three flags says. It reaches
/// the runtime at its own port of this machine, and the renderer where the
/// flags say or else at the other allocated port of this machine.
pub proof fn law_mux_joins_both_ends(launch: LaunchModel)
    requires
        launch.stage == LaunchStage::SpawnMux,
        launch.runtime_port is Some,
        launch.flags.inspect_renderer is Some || launch.renderer_port is Some,
    ensures
        ({
            &&& launch.action() matches LaunchActionModel::SpawnMux { config }
            &&& config.deno_internal.port == launch.runtime_port->0
            &&& config.deno_internal.address == "127.0.0.1:"@ + decimal(
                launch.runtime_port->0 as nat,
            )
            &&& launch.flags.inspect_renderer is Some ==> Some(config.cef_internal)
                == launch.flags.inspect_renderer
            &&& launch.flags.inspect_renderer is None ==> config.cef_internal.port
                == launch.renderer_port->0 && config.cef_internal.address == "127.0.0.1:"@
                + decimal(launch.renderer_port->0 as nat)
            &&& launch.run.inspect is Some ==> Some(config.listen) == launch.run.inspect
            &&& launch.run.inspect is None && launch.run.inspect_brk is Some ==> Some(
                config.listen,
            ) == launch.run.inspect_brk
            &&& launch.run.inspect is None && launch.run.inspect_brk is None
                && launch.run.inspect_wait is Some ==> Some(config.listen)
                == launch.run.inspect_wait
            &&& config.inspect_brk <==> launch.run.inspect_brk is Some
            &&& config.wait_for_debugger <==> launch.run.inspect_brk is Some
                || launch.run.inspect_wait is Some
        }),
{
}

/// An endpoint of this machine is its address with the port, and the port.
pub proof fn law_loopback_endpoints(port: u16)
    ensures
        loopback(port).port == port,
        loopback(port).address == "127.0.0.1:"@ + decimal(port as nat),
{
}

/// Of the three flags the first that is set says where the inspector listens.
pub proof fn law_first_inspector_flag_counts(run: RunModel)
    ensures
        run.inspect is Some ==> inspector_address(run) == run.inspect,
        run.inspect is None && run.inspect_brk is Some ==> inspector_address(run)
            == run.inspect_brk,
        run.inspect is None && run.inspect_brk is None ==> inspector_address(run)
            == run.inspect_wait,
{
}

/// A variable has the value that is due to its name.
pub open spec fn has_due_value(launch: LaunchModel, variable: VariableModel) -> bool {
    let value = variable.value;
    ||| variable.name == "LAUFEY_RUNTIME_PATH"@ && value == ValueModel::Dylib
    ||| variable.name == "LAUFEY_APP_ICON"@ && value == ValueModel::Icon
    ||| variable.name == "LAUFEY_APP_NAME"@ && value == ValueModel::Plain(launch.app_name->0)
    ||| variable.name == "DENO_DESKTOP_HMR"@ && value == ValueModel::SourceDir
    ||| variable.name == "DENO_DESKTOP_DEV_URL"@ && value == ValueModel::Plain(launch.dev_url->0)
    ||| variable.name == "DENO_DESKTOP_INSPECT_INTERNAL_PORT"@ && value == ValueModel::Plain(
        "127.0.0.1:"@ + decimal(launch.runtime_port->0 as nat),
    )
    ||| variable.name == "DENO_DESKTOP_MUX_WS"@ && value == ValueModel::Plain(
        launch.mux_address->0,
    )
    ||| variable.name == "LAUFEY_REMOTE_DEBUGGING_PORT"@ && launch.flags.inspect_renderer is Some
        && value == ValueModel::Plain(decimal((launch.flags.inspect_renderer->0).port as nat))
    ||| variable.name == "LAUFEY_REMOTE_DEBUGGING_PORT"@ && launch.flags.inspect_renderer is None
        && value == ValueModel::Plain(decimal(launch.renderer_port->0 as nat))
    ||| variable.name == "DENO_DESKTOP_INSPECT_BRK"@ && value == ValueModel::Plain("1"@)
    ||| variable.name == "DENO_DESKTOP_INSPECT_WAIT"@ && value == ValueModel::Plain("1"@)
}

/// Every variable of the backend has the value that is due to its name.
pub proof fn law_variables_have_their_values(launch: LaunchModel)
    ensures
        forall|i: int|
            0 <= i < launch.command().variables.len() ==> has_due_value(
                launch,
                #[trigger] launch.command().variables[i],
            ),
{
    let app = launch.app_variables();
    let inspector = launch.inspector_variables();
    let variables = launch.command().variables;
    lemma_app_values(launch);
    lemma_inspector_values(launch);
    assert forall|i: int| 0 <= i < variables.len() implies has_due_value(
        launch,
        #[trigger] variables[i],
    ) by {
        if i < app.len() {
            assert(variables[i] == app[i]);
        } else {
            assert(variables[i] == inspector[i - app.len()]);
        }
    }
}

proof fn lemma_app_values(launch: LaunchModel)
    ensures
        forall|i: int|
            0 <= i < launch.app_variables().len() ==> has_due_value(
                launch,
                #[trigger] launch.app_variables()[i],
            ),
{
}

proof fn lemma_inspector_values(launch: LaunchModel)
    ensures
        forall|i: int|
            0 <= i < launch.inspector_variables().len() ==> has_due_value(
                launch,
                #[trigger] launch.inspector_variables()[i],
            ),
{
}

/// The models of a launch and of what it hands out leave out nothing and mix up
/// nothing.
pub proof fn law_launches_are_read(
    launch: Launch,
    config: MuxConfig,
    variable: Variable,
    command: BackendCommand,
    value: Value,
)
    ensures
        launch@.host == launch.host,
        launch@.flags == launch.flags@,
        launch@.run == launch.run@,
        launch@.dev_server <==> launch.dev_server,
        launch@.app_name == launch.app_name.deep_view(),
        launch@.icon_found <==> launch.icon_found,
        launch@.dev_url == launch.dev_url.deep_view(),
        launch@.runtime_port == launch.runtime_port,
        launch@.renderer_port == launch.renderer_port,
        launch@.mux_address == launch.mux_address.deep_view(),
        launch@.stage == launch.stage,
        config@.listen == config.listen.deep_view(),
        config@.deno_internal == config.deno_internal.deep_view(),
        config@.cef_internal == config.cef_internal.deep_view(),
        config@.inspect_brk <==> config.inspect_brk,
        config@.wait_for_debugger <==> config.wait_for_debugger,
        variable.deep_view().name == variable.name@,
        variable.deep_view().value == variable.value.deep_view(),
        command@.directory == command.directory.deep_view(),
        command@.args == command.args.deep_view(),
        command@.variables == command.variables.deep_view(),
        value is Dylib <==> value.deep_view() is Dylib,
        value is SourceDir <==> value.deep_view() is SourceDir,
        value is Icon <==> value.deep_view() is Icon,
        value matches Value::Plain(text) ==> value.deep_view() == ValueModel::Plain(text@),
{
}

/// So do those of its actions and events.
pub proof fn law_launch_actions_and_events_are_read(action: LaunchAction, event: LaunchEvent)
    ensures
        action matches LaunchAction::FindBackend { backend } ==> action@ == (
        LaunchActionModel::FindBackend { backend: backend@ }),
        action is ResolveIcon <==> action@ is ResolveIcon,
        action is SpawnDevServer <==> action@ is SpawnDevServer,
        action is AllocatePort <==> action@ is AllocatePort,
        action matches LaunchAction::SpawnMux { config } ==> action@ == (
        LaunchActionModel::SpawnMux { config: config@ }),
        action matches LaunchAction::Run { command } ==> action@ == (LaunchActionModel::Run {
            command: command@,
        }),
        action is Nothing <==> action@ is Nothing,
        event is BackendFound <==> event@ is BackendFound,
        event matches LaunchEvent::IconResolved { found } ==> event@ == (
        LaunchEventModel::IconResolved { found }),
        event matches LaunchEvent::DevServerUp { url } ==> event@ == (
        LaunchEventModel::DevServerUp { url: url@ }),
        event matches LaunchEvent::PortAllocated { port } ==> event@ == (
        LaunchEventModel::PortAllocated { port }),
        event matches LaunchEvent::MuxListening { address } ==> event@ == (
        LaunchEventModel::MuxListening { address: address@ }),
        event matches LaunchEvent::Exited { success, status } ==> event@ == (
        LaunchEventModel::Exited { success, status: status@ }),
{
}

/// Each event comes at the stage whose work it tells of, and at no other.
pub proof fn law_launch_events_come_at_their_stage(launch: LaunchModel, event: LaunchEventModel)
    ensures
        event is BackendFound ==> (launch.expects(event) <==> launch.stage
            == LaunchStage::FindBackend),
        event is IconResolved ==> (launch.expects(event) <==> launch.stage
            == LaunchStage::ResolveIcon),
        event is DevServerUp ==> (launch.expects(event) <==> launch.stage
            == LaunchStage::SpawnDevServer),
        event is PortAllocated ==> (launch.expects(event) <==> launch.stage
            == LaunchStage::AllocateRuntimePort || launch.stage
            == LaunchStage::AllocateRendererPort),
        event is MuxListening ==> (launch.expects(event) <==> launch.stage
            == LaunchStage::SpawnMux),
        event is Exited ==> (launch.expects(event) <==> launch.stage == LaunchStage::Run),
{
}

} // verus!
