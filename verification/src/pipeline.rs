//! One desktop build, from the flags to the finished artifact.
//!
//! A build alternates between decisions and work outside: looking for a
//! framework, writing files, compiling, packaging. The decisions are made
//! here. At each stage the build names the action it needs; the caller performs
//! it and hands back what came of it, and the build goes on to its next stage.

use vstd::prelude::*;
use vstd::string::*;

use crate::compile::{
    compile_flags, compile_flags_of, law_compiler_gets_the_flags, CompileFlags, CompileModel,
};
use crate::config::{builds_of, law_all_targets_are_built, set_or, ConfigModel};
use crate::dev::{artifact_name, artifact_path, dev_dir, dev_dir_of, is_artifact};
use crate::error::{DesktopError, ErrorModel};
use crate::flags::{
    copy_text, DesktopFlags, FlagsModel, IconConfig, IconModel, RunFlags, RunModel,
};
use crate::framework::{
    add_paths, compiles_itself, framework_compiles_itself, with_paths, FrameworkDetection,
    FrameworkModel,
};
use crate::installer::{find_installers, installers_of, Installers, InstallersModel};
use crate::launch::{first_launch_stage, is_app_name, run_desktop_hmr, Launch};
use crate::packaging::{
    installer_made, installer_to_make, make_self_extracting, self_extracting_on, InstallerKind,
    SelfExtracting, SelfExtractingModel,
};
use crate::path_rules::PathRules;
use crate::paths::{
    is_file_name, is_project_name, joined_by, last_part, lemma_parts_are_plain, names_file,
    path_file_name, plain_join, plain_name, portable, project_name, stem_by, stem_of_name,
};
use crate::platform::{os_of, target_os, HostOs, TargetOs};
use crate::text::{same_text, Text};

verus! {

/// The stages of a build, in the order in which they can come.
#[derive(Clone, Copy, Debug, PartialEq, Eq, Structural)]
pub enum Stage {
    DetectFramework,
    RunBuildCommand,
    WriteEntrypoint,
    FindFavicon,
    MakeDevDir,
    Compile,
    RemoveEntrypoint,
    Launch,
    Package,
    Compress,
    Wrap,
    Report,
    Done,
}

impl Stage {
    /// How many stages can still come.
    pub open spec fn rank(self) -> nat {
        match self {
            Stage::DetectFramework => 12,
            Stage::RunBuildCommand => 11,
            Stage::WriteEntrypoint => 10,
            Stage::FindFavicon => 9,
            Stage::MakeDevDir => 8,
            Stage::Compile => 7,
            Stage::RemoveEntrypoint => 6,
            Stage::Launch => 5,
            Stage::Package => 4,
            Stage::Compress => 3,
            Stage::Wrap => 2,
            Stage::Report => 1,
            Stage::Done => 0,
        }
    }
}

/// The code of a generated entrypoint.
#[derive(Debug, PartialEq, Eq)]
pub enum EntrypointCode {
    /// Code that does nothing: the framework's dev server runs the app.
    Noop,
    /// The framework's own code.
    Framework(String),
}

/// What an `EntrypointCode` holds.
pub enum EntrypointModel {
    Noop,
    Framework(Text),
}

impl View for EntrypointCode {
    type V = EntrypointModel;

    open spec fn view(&self) -> EntrypointModel {
        match self {
            EntrypointCode::Noop => EntrypointModel::Noop,
            EntrypointCode::Framework(code) => EntrypointModel::Framework(code@),
        }
    }
}

/// What a build needs done.
#[derive(Debug, PartialEq, Eq)]
pub enum Action {
    /// Look for a framework in the working directory.
    DetectFramework,
    /// Run the framework's build command.
    RunBuildCommand,
    /// Remove stale entrypoints and write a new one.
    WriteEntrypoint { code: EntrypointCode },
    /// Look for the framework's favicon.
    FindFavicon { os: TargetOs },
    /// Create a directory below the cache directory.
    MakeDevDir { components: Vec<String> },
    /// Compile.
    Compile { flags: CompileFlags, type_check: bool, detect_cjs: bool },
    /// Remove the generated entrypoint.
    RemoveEntrypoint,
    /// Run the compiled app, as its launch says.
    Launch,
    /// Package the compiled app for its system.
    Package,
    /// Make the packaged app self-extracting.
    MakeSelfExtracting { how: SelfExtracting },
    /// Wrap the packaged app in an installer at the given path, seen from the
    /// working directory.
    Wrap { kind: InstallerKind, path: String },
    /// Tell where the result is: the installer, or the packaged app itself.
    Report { installer: Option<String> },
    /// Nothing more.
    Nothing,
}

/// What an `Action` holds.
pub enum ActionModel {
    DetectFramework,
    RunBuildCommand,
    WriteEntrypoint { code: EntrypointModel },
    FindFavicon { os: TargetOs },
    MakeDevDir { components: Seq<Text> },
    Compile { flags: CompileModel, type_check: bool, detect_cjs: bool },
    RemoveEntrypoint,
    Launch,
    Package,
    MakeSelfExtracting { how: SelfExtractingModel },
    Wrap { kind: InstallerKind, path: Text },
    Report { installer: Option<Text> },
    Nothing,
}

impl View for Action {
    type V = ActionModel;

    open spec fn view(&self) -> ActionModel {
        match self {
            Action::DetectFramework => ActionModel::DetectFramework,
            Action::RunBuildCommand => ActionModel::RunBuildCommand,
            Action::WriteEntrypoint { code } => ActionModel::WriteEntrypoint { code: code@ },
            Action::FindFavicon { os } => ActionModel::FindFavicon { os: *os },
            Action::MakeDevDir { components } => ActionModel::MakeDevDir {
                components: components.deep_view(),
            },
            Action::Compile { flags, type_check, detect_cjs } => ActionModel::Compile {
                flags: flags@,
                type_check: *type_check,
                detect_cjs: *detect_cjs,
            },
            Action::RemoveEntrypoint => ActionModel::RemoveEntrypoint,
            Action::Launch => ActionModel::Launch,
            Action::Package => ActionModel::Package,
            Action::MakeSelfExtracting { how } => ActionModel::MakeSelfExtracting { how: how@ },
            Action::Wrap { kind, path } => ActionModel::Wrap { kind: *kind, path: path@ },
            Action::Report { installer } => ActionModel::Report {
                installer: installer.deep_view(),
            },
            Action::Nothing => ActionModel::Nothing,
        }
    }
}

/// What came of an action.
#[derive(Debug, PartialEq, Eq)]
pub enum Event {
    FrameworkDetected { framework: Option<FrameworkDetection> },
    BuildCommandRan,
    EntrypointWritten { path: String },
    FaviconSearched { favicon: Option<String> },
    DevDirMade { dir: String },
    Compiled,
    EntrypointRemoved,
    LaunchEnded,
    Packaged,
    Compressed,
    Wrapped,
    Reported,
}

/// What an `Event` holds.
pub enum EventModel {
    FrameworkDetected { framework: Option<FrameworkModel> },
    BuildCommandRan,
    EntrypointWritten { path: Text },
    FaviconSearched { favicon: Option<Text> },
    DevDirMade { dir: Text },
    Compiled,
    EntrypointRemoved,
    LaunchEnded,
    Packaged,
    Compressed,
    Wrapped,
    Reported,
}

impl View for Event {
    type V = EventModel;

    open spec fn view(&self) -> EventModel {
        match self {
            Event::FrameworkDetected { framework } => EventModel::FrameworkDetected {
                framework: framework.deep_view(),
            },
            Event::BuildCommandRan => EventModel::BuildCommandRan,
            Event::EntrypointWritten { path } => EventModel::EntrypointWritten { path: path@ },
            Event::FaviconSearched { favicon } => EventModel::FaviconSearched {
                favicon: favicon.deep_view(),
            },
            Event::DevDirMade { dir } => EventModel::DevDirMade { dir: dir@ },
            Event::Compiled => EventModel::Compiled,
            Event::EntrypointRemoved => EventModel::EntrypointRemoved,
            Event::LaunchEnded => EventModel::LaunchEnded,
            Event::Packaged => EventModel::Packaged,
            Event::Compressed => EventModel::Compressed,
            Event::Wrapped => EventModel::Wrapped,
            Event::Reported => EventModel::Reported,
        }
    }
}

/// A build at one of its stages.
#[derive(Debug, PartialEq, Eq)]
pub struct Build {
    pub host: HostOs,
    pub rules: PathRules,
    pub flags: DesktopFlags,
    pub run: RunFlags,
    /// The working directory, and its name.
    pub directory: String,
    pub directory_name: Option<String>,
    pub installers: Installers,
    pub framework: Option<FrameworkDetection>,
    /// Whether the generated entrypoint is on disk.
    pub entrypoint: bool,
    /// Whether the app unpacks itself when it starts.
    pub self_extracting: bool,
    /// The output of a dev session.
    pub dev_output: Option<String>,
    pub stage: Stage,
}

/// What a `Build` holds.
#[verifier::ext_equal]
pub struct BuildModel {
    pub host: HostOs,
    /// Paths go by the rules of Windows.
    pub windows: bool,
    pub flags: FlagsModel,
    pub run: RunModel,
    pub directory: Text,
    pub directory_name: Option<Text>,
    pub installers: InstallersModel,
    pub framework: Option<FrameworkModel>,
    pub entrypoint: bool,
    pub self_extracting: bool,
    pub dev_output: Option<Text>,
    pub stage: Stage,
}

impl View for Build {
    type V = BuildModel;

    open spec fn view(&self) -> BuildModel {
        BuildModel {
            host: self.host,
            windows: self.rules.windows(),
            flags: self.flags@,
            run: self.run@,
            directory: self.directory@,
            directory_name: self.directory_name.deep_view(),
            installers: self.installers@,
            framework: self.framework.deep_view(),
            entrypoint: self.entrypoint,
            self_extracting: self.self_extracting,
            dev_output: self.dev_output.deep_view(),
            stage: self.stage,
        }
    }
}

impl BuildModel {
    /// The app is run right away instead of being packaged.
    pub open spec fn dev_session(self) -> bool {
        self.flags.hmr || self.run.inspecting()
    }

    /// The framework's own dev server serves the app.
    pub open spec fn framework_hmr(self) -> bool {
        self.flags.hmr && self.framework is Some && self.framework->0.has_hmr_command
    }

    /// The build at another stage.
    pub open spec fn at(self, stage: Stage) -> BuildModel {
        BuildModel { stage, ..self }
    }

    /// Where the build goes once the source is settled: a framework's favicon
    /// is looked for where no icon was given.
    pub open spec fn with_source(self) -> BuildModel {
        if self.flags.icon is None && self.framework is Some {
            self.at(Stage::FindFavicon)
        } else {
            self.with_icon()
        }
    }

    /// Where the build goes once the icon is settled: a dev session needs a
    /// directory for its artifacts.
    pub open spec fn with_icon(self) -> BuildModel {
        if self.dev_session() {
            self.at(Stage::MakeDevDir)
        } else {
            self.at(Stage::Compile)
        }
    }

    /// Where the build goes once the app is compiled and nothing is left of
    /// the entrypoint.
    pub open spec fn compiled(self) -> BuildModel {
        if self.dev_session() {
            self.at(Stage::Launch)
        } else {
            self.at(Stage::Package)
        }
    }

    /// Where the build goes once the app is compiled: a generated entrypoint is
    /// removed first.
    pub open spec fn with_artifact(self) -> BuildModel {
        if self.entrypoint {
            self.at(Stage::RemoveEntrypoint)
        } else {
            self.compiled()
        }
    }

    /// The build with its generated entrypoint removed.
    pub open spec fn without_entrypoint(self) -> BuildModel {
        BuildModel { entrypoint: false, ..self }.compiled()
    }

    /// Where the build goes once the app is packaged: it is made self-extracting
    /// first, where that was asked for.
    pub open spec fn with_bundle(self) -> BuildModel {
        if self.flags.compress is Some {
            self.at(Stage::Compress)
        } else {
            self.packaged()
        }
    }

    /// Where the build goes once the packaged app is ready.
    pub open spec fn packaged(self) -> BuildModel {
        if installer_made(self.installers) is Some {
            self.at(Stage::Wrap)
        } else {
            self.at(Stage::Report)
        }
    }

    /// The build with a framework found. CommonJS modules are detected, and
    /// where the framework compiles the app itself nothing is type-checked.
    /// The framework's build command runs unless its dev server takes over.
    pub open spec fn with_framework(self, framework: FrameworkModel) -> BuildModel {
        let found = BuildModel {
            framework: Some(framework),
            run: RunModel {
                detect_cjs: true,
                type_check: self.run.type_check && !compiles_itself(framework.name),
                ..self.run
            },
            ..self
        };
        if found.framework_hmr() {
            found.at(Stage::WriteEntrypoint)
        } else {
            found.at(Stage::RunBuildCommand)
        }
    }

    /// The build with its entrypoint written to the given path. The output
    /// falls back to the name of the working directory, and what the
    /// framework's build command made is taken along.
    pub open spec fn with_entrypoint(self, path: Text) -> BuildModel {
        BuildModel {
            flags: FlagsModel {
                source_file: path,
                output: set_or(self.flags.output, self.directory_name),
                include_paths: if self.framework_hmr() {
                    self.flags.include_paths
                } else {
                    with_paths(self.flags.include_paths, self.framework->0.include_paths)
                },
                ..self.flags
            },
            entrypoint: true,
            self_extracting: true,
            ..self
        }.with_source()
    }

    /// The build with the favicon that was found.
    pub open spec fn with_favicon(self, favicon: Option<Text>) -> BuildModel {
        BuildModel {
            flags: FlagsModel {
                icon: match favicon {
                    Some(path) => Some(IconModel::Single(path)),
                    None => self.flags.icon,
                },
                ..self.flags
            },
            ..self
        }.with_icon()
    }

    /// `path` is the output of a dev session in the given directory.
    pub open spec fn is_dev_output(self, dir: Text, path: Text) -> bool {
        exists|name: Option<Text>|
            #[trigger] is_project_name(
                self.windows,
                self.flags.output,
                self.directory_name,
                name,
            ) && is_artifact(self.windows, dir, name, path)
    }

    /// Once the directory of the dev session has been made, with the artifact
    /// at the given path, that path is what the app is compiled to.
    pub open spec fn compiles_to(self, dir: Text, path: Text) -> bool {
        &&& self.next(EventModel::DevDirMade { dir }, path) matches Ok(next)
        &&& next.action() matches ActionModel::Compile { flags, type_check, detect_cjs }
        &&& flags.output == Some(path)
    }

    /// The name of a dev artifact whose output, where there is one, names a
    /// file portably.
    pub open spec fn dev_name(self) -> Text {
        match self.flags.output {
            Some(output) => stem_of_name(last_part(output)),
            None => artifact_name(self.directory_name),
        }
    }

    /// The output of the dev session, where there is one.
    pub open spec fn session_output(self) -> Text {
        match self.dev_output {
            Some(path) => path,
            None => Text::empty(),
        }
    }

    /// The stage at which an event comes.
    pub open spec fn expects(self, event: EventModel) -> bool {
        match event {
            EventModel::FrameworkDetected { .. } => self.stage == Stage::DetectFramework,
            EventModel::BuildCommandRan => self.stage == Stage::RunBuildCommand,
            EventModel::EntrypointWritten { .. } => self.stage == Stage::WriteEntrypoint,
            EventModel::FaviconSearched { .. } => self.stage == Stage::FindFavicon,
            EventModel::DevDirMade { .. } => self.stage == Stage::MakeDevDir,
            EventModel::Compiled => self.stage == Stage::Compile,
            EventModel::EntrypointRemoved => self.stage == Stage::RemoveEntrypoint,
            EventModel::LaunchEnded => self.stage == Stage::Launch,
            EventModel::Packaged => self.stage == Stage::Package,
            EventModel::Compressed => self.stage == Stage::Compress,
            EventModel::Wrapped => self.stage == Stage::Wrap,
            EventModel::Reported => self.stage == Stage::Report,
        }
    }

    /// Where an event takes the build. Only a directory without a framework in
    /// it ends the build with an error. `dev_output` is the output of the dev
    /// session whose directory has been made.
    pub open spec fn next(
        self,
        event: EventModel,
        dev_output: Text,
    ) -> Result<BuildModel, ErrorModel> {
        match event {
            EventModel::FrameworkDetected { framework } => match framework {
                Some(framework) => Ok(self.with_framework(framework)),
                None => Err(ErrorModel::NoFramework),
            },
            EventModel::BuildCommandRan => Ok(self.at(Stage::WriteEntrypoint)),
            EventModel::EntrypointWritten { path } => Ok(self.with_entrypoint(path)),
            EventModel::FaviconSearched { favicon } => Ok(self.with_favicon(favicon)),
            EventModel::DevDirMade { dir } => Ok(
                BuildModel { dev_output: Some(dev_output), ..self }.at(Stage::Compile),
            ),
            EventModel::Compiled => Ok(self.with_artifact()),
            EventModel::EntrypointRemoved => Ok(self.without_entrypoint()),
            EventModel::LaunchEnded => Ok(self.at(Stage::Done)),
            EventModel::Packaged => Ok(self.with_bundle()),
            EventModel::Compressed => Ok(self.packaged()),
            EventModel::Wrapped => Ok(self.at(Stage::Report)),
            EventModel::Reported => Ok(self.at(Stage::Done)),
        }
    }

    /// What the build needs done at its stage.
    pub open spec fn action(self) -> ActionModel {
        match self.stage {
            Stage::DetectFramework => ActionModel::DetectFramework,
            Stage::RunBuildCommand => ActionModel::RunBuildCommand,
            Stage::WriteEntrypoint => ActionModel::WriteEntrypoint {
                code: if self.framework_hmr() {
                    EntrypointModel::Noop
                } else {
                    EntrypointModel::Framework(self.framework->0.entrypoint_code)
                },
            },
            Stage::FindFavicon => ActionModel::FindFavicon {
                os: os_of(self.flags.target, self.host),
            },
            Stage::MakeDevDir => ActionModel::MakeDevDir {
                components: dev_dir_of(self.directory),
            },
            Stage::Compile => ActionModel::Compile {
                flags: compile_flags_of(self.flags, self.dev_output, self.self_extracting),
                type_check: self.run.type_check,
                detect_cjs: self.run.detect_cjs,
            },
            Stage::RemoveEntrypoint => ActionModel::RemoveEntrypoint,
            Stage::Launch => ActionModel::Launch,
            Stage::Package => ActionModel::Package,
            Stage::Compress => ActionModel::MakeSelfExtracting {
                how: self_extracting_on(
                    os_of(self.flags.target, self.host),
                    self.flags.compress->0,
                ),
            },
            Stage::Wrap => ActionModel::Wrap {
                kind: (installer_made(self.installers)->0).0,
                path: (installer_made(self.installers)->0).1,
            },
            Stage::Report => ActionModel::Report {
                installer: match installer_made(self.installers) {
                    Some((kind, path)) => Some(path),
                    None => None,
                },
            },
            Stage::Done => ActionModel::Nothing,
        }
    }

    /// What holds of a build at each stage.
    pub open spec fn wf(self) -> bool {
        &&& self.entrypoint ==> self.self_extracting
        &&& self.self_extracting ==> self.framework is Some
        &&& self.framework is Some ==> self.run.detect_cjs && !(self.run.type_check
            && compiles_itself(self.framework->0.name))
        &&& match self.stage {
            Stage::DetectFramework => self.framework is None && self.dev_output is None,
            Stage::RunBuildCommand => self.framework is Some && !self.framework_hmr()
                && !self.self_extracting && self.dev_output is None,
            Stage::WriteEntrypoint => self.framework is Some && !self.self_extracting
                && self.dev_output is None,
            Stage::FindFavicon => self.flags.icon is None && self.framework is Some
                && self.entrypoint && self.dev_output is None,
            Stage::MakeDevDir => self.dev_session() && self.entrypoint == self.self_extracting
                && self.dev_output is None,
            Stage::Compile => self.entrypoint == self.self_extracting && (self.dev_output is Some
                <==> self.dev_session()),
            Stage::RemoveEntrypoint => self.entrypoint && (self.dev_output is Some
                <==> self.dev_session()),
            Stage::Launch => self.dev_session() && !self.entrypoint && self.dev_output is Some,
            Stage::Package => !self.dev_session() && !self.entrypoint && self.dev_output is None,
            Stage::Compress => !self.dev_session() && !self.entrypoint
                && self.flags.compress is Some,
            Stage::Wrap => !self.dev_session() && !self.entrypoint && installer_made(
                self.installers,
            ) is Some,
            Stage::Report => !self.dev_session() && !self.entrypoint,
            Stage::Done => !self.entrypoint,
        }
    }
}

/// A build begins with the given flags and the installers found in its output:
/// a directory as the source is searched for a framework first.
pub open spec fn first_stage(
    flags: FlagsModel,
    run: RunModel,
    directory: Text,
    directory_name: Option<Text>,
    windows: bool,
    host: HostOs,
    installers: InstallersModel,
    output: Option<Text>,
) -> BuildModel {
    let build = BuildModel {
        host,
        windows,
        flags: FlagsModel { output, ..flags },
        run,
        directory,
        directory_name,
        installers,
        framework: None,
        entrypoint: false,
        self_extracting: false,
        dev_output: None,
        stage: Stage::DetectFramework,
    };
    if flags.source_file == "."@ {
        build
    } else {
        build.with_source()
    }
}

impl Build {
    fn dev_session(&self) -> (yes: bool)
        ensures
            yes == self@.dev_session(),
    {
        self.flags.hmr || self.run.inspector_requested()
    }

    fn framework_hmr(&self) -> (yes: bool)
        ensures
            yes == self@.framework_hmr(),
    {
        self.flags.hmr && match &self.framework {
            Some(framework) => framework.has_hmr_command,
            None => false,
        }
    }

    fn with_source(self) -> (build: Build)
        ensures
            build@ == self@.with_source(),
    {
        if self.flags.icon.is_none() && self.framework.is_some() {
            Build { stage: Stage::FindFavicon, ..self }
        } else {
            self.with_icon()
        }
    }

    fn with_icon(self) -> (build: Build)
        ensures
            build@ == self@.with_icon(),
    {
        if self.dev_session() {
            Build { stage: Stage::MakeDevDir, ..self }
        } else {
            Build { stage: Stage::Compile, ..self }
        }
    }

    fn compiled(self) -> (build: Build)
        ensures
            build@ == self@.compiled(),
    {
        if self.dev_session() {
            Build { stage: Stage::Launch, ..self }
        } else {
            Build { stage: Stage::Package, ..self }
        }
    }

    fn with_artifact(self) -> (build: Build)
        requires
            self@.wf(),
            self@.stage == Stage::Compile,
        ensures
            build@ == self@.with_artifact(),
            build@.wf(),
    {
        if self.entrypoint {
            Build { stage: Stage::RemoveEntrypoint, ..self }
        } else {
            self.compiled()
        }
    }

    fn without_entrypoint(self) -> (build: Build)
        requires
            self@.wf(),
            self@.stage == Stage::RemoveEntrypoint,
        ensures
            build@ == self@.without_entrypoint(),
            build@.wf(),
    {
        Build { entrypoint: false, ..self }.compiled()
    }

    fn with_bundle(self) -> (build: Build)
        requires
            self@.wf(),
            self@.stage == Stage::Package,
        ensures
            build@ == self@.with_bundle(),
            build@.wf(),
    {
        if self.flags.compress.is_some() {
            Build { stage: Stage::Compress, ..self }
        } else {
            self.packaged()
        }
    }

    fn packaged(self) -> (build: Build)
        requires
            self@.wf(),
            self@.stage == Stage::Package || self@.stage == Stage::Compress,
        ensures
            build@ == self@.packaged(),
            build@.wf(),
    {
        if installer_to_make(&self.installers).is_some() {
            Build { stage: Stage::Wrap, ..self }
        } else {
            Build { stage: Stage::Report, ..self }
        }
    }

    fn with_framework(self, framework: FrameworkDetection) -> (build: Build)
        requires
            self@.wf(),
            self@.stage == Stage::DetectFramework,
        ensures
            build@ == self@.with_framework(framework.deep_view()),
            build@.wf(),
    {
        let type_check = self.run.type_check && !framework_compiles_itself(
            framework.name.as_str(),
        );
        let found = Build {
            framework: Some(framework),
            run: RunFlags { detect_cjs: true, type_check, ..self.run },
            ..self
        };
        if found.framework_hmr() {
            Build { stage: Stage::WriteEntrypoint, ..found }
        } else {
            Build { stage: Stage::RunBuildCommand, ..found }
        }
    }

    fn with_entrypoint(self, path: String) -> (build: Build)
        requires
            self@.wf(),
            self@.stage == Stage::WriteEntrypoint,
        ensures
            build@ == self@.with_entrypoint(path@),
            build@.wf(),
    {
        let framework_hmr = self.framework_hmr();
        let mut flags = self.flags;
        flags.source_file = path;
        if flags.output.is_none() {
            flags.output = copy_text(&self.directory_name);
        }
        if !framework_hmr {
            if let Some(framework) = &self.framework {
                add_paths(&mut flags.include_paths, &framework.include_paths);
            }
        }
        Build { flags, entrypoint: true, self_extracting: true, ..self }.with_source()
    }

    fn with_favicon(self, favicon: Option<String>) -> (build: Build)
        requires
            self@.wf(),
            self@.stage == Stage::FindFavicon,
        ensures
            build@ == self@.with_favicon(favicon.deep_view()),
            build@.wf(),
    {
        let mut flags = self.flags;
        if let Some(path) = favicon {
            flags.icon = Some(IconConfig::Single(path));
        }
        Build { flags, ..self }.with_icon()
    }

    fn with_dev_dir(self, dir: String) -> (build: Build)
        requires
            self@.wf(),
            self@.stage == Stage::MakeDevDir,
        ensures
            build@.wf(),
            build@.dev_output is Some,
            build@ == (BuildModel { dev_output: build@.dev_output, ..self@ }.at(Stage::Compile)),
            self@.is_dev_output(dir@, build@.session_output()),
    {
        let output = match &self.flags.output {
            Some(output) => Some(output.as_str()),
            None => None,
        };
        let name = project_name(self.rules, output, copy_text(&self.directory_name));
        assert(is_project_name(
            self@.windows,
            self@.flags.output,
            self@.directory_name,
            name.deep_view(),
        ));
        let path = artifact_path(self.rules, dir.as_str(), name);
        Build { dev_output: Some(path), stage: Stage::Compile, ..self }
    }

    fn after_build_command(self) -> (build: Build)
        requires
            self@.wf(),
            self@.stage == Stage::RunBuildCommand,
        ensures
            build@ == self@.at(Stage::WriteEntrypoint),
            build@.wf(),
    {
        Build { stage: Stage::WriteEntrypoint, ..self }
    }

    fn wrapped(self) -> (build: Build)
        requires
            self@.wf(),
            self@.stage == Stage::Wrap,
        ensures
            build@ == self@.at(Stage::Report),
            build@.wf(),
    {
        Build { stage: Stage::Report, ..self }
    }

    fn done(self) -> (build: Build)
        requires
            self@.wf(),
            self@.stage == Stage::Launch || self@.stage == Stage::Report,
        ensures
            build@ == self@.at(Stage::Done),
            build@.wf(),
    {
        Build { stage: Stage::Done, ..self }
    }

    /// Whether an event can come at this stage.
    pub fn expects(&self, event: &Event) -> (yes: bool)
        ensures
            yes == self@.expects(event@),
    {
        match event {
            Event::FrameworkDetected { framework: _ } => self.stage == Stage::DetectFramework,
            Event::BuildCommandRan => self.stage == Stage::RunBuildCommand,
            Event::EntrypointWritten { path: _ } => self.stage == Stage::WriteEntrypoint,
            Event::FaviconSearched { favicon: _ } => self.stage == Stage::FindFavicon,
            Event::DevDirMade { dir: _ } => self.stage == Stage::MakeDevDir,
            Event::Compiled => self.stage == Stage::Compile,
            Event::EntrypointRemoved => self.stage == Stage::RemoveEntrypoint,
            Event::LaunchEnded => self.stage == Stage::Launch,
            Event::Packaged => self.stage == Stage::Package,
            Event::Compressed => self.stage == Stage::Compress,
            Event::Wrapped => self.stage == Stage::Wrap,
            Event::Reported => self.stage == Stage::Report,
        }
    }

    /// What the build needs done.
    pub fn action(&self) -> (action: Action)
        requires
            self@.wf(),
        ensures
            action@ == self@.action(),
    {
        match self.stage {
            Stage::DetectFramework => Action::DetectFramework,
            Stage::RunBuildCommand => Action::RunBuildCommand,
            Stage::WriteEntrypoint => {
                let code = if self.framework_hmr() {
                    EntrypointCode::Noop
                } else {
                    match &self.framework {
                        Some(framework) => EntrypointCode::Framework(
                            framework.entrypoint_code.clone(),
                        ),
                        None => EntrypointCode::Noop,
                    }
                };
                Action::WriteEntrypoint { code }
            },
            Stage::FindFavicon => Action::FindFavicon {
                os: target_os(&self.flags.target, self.host),
            },
            Stage::MakeDevDir => Action::MakeDevDir {
                components: dev_dir(self.directory.as_str()),
            },
            Stage::Compile => Action::Compile {
                flags: compile_flags(&self.flags, &self.dev_output, self.self_extracting),
                type_check: self.run.type_check,
                detect_cjs: self.run.detect_cjs,
            },
            Stage::RemoveEntrypoint => Action::RemoveEntrypoint,
            Stage::Launch => Action::Launch,
            Stage::Package => Action::Package,
            Stage::Compress => match &self.flags.compress {
                Some(format) => Action::MakeSelfExtracting {
                    how: make_self_extracting(format.as_str(), &self.flags, self.host),
                },
                None => Action::Nothing,
            },
            Stage::Wrap => match installer_to_make(&self.installers) {
                Some((kind, path)) => Action::Wrap { kind, path },
                None => Action::Nothing,
            },
            Stage::Report => Action::Report {
                installer: match installer_to_make(&self.installers) {
                    Some((_, path)) => Some(path),
                    None => None,
                },
            },
            Stage::Done => Action::Nothing,
        }
    }

    /// Begins to run the compiled app from the given directory, with the flags
    /// and the framework of the build.
    pub fn launch(&self, source: &str) -> (launch: Launch)
        requires
            self@.wf(),
            self@.stage == Stage::Launch,
        ensures
            launch@.wf(),
            is_app_name(self@.windows, self@.flags.output, source@, launch@.app_name),
            launch@ == first_launch_stage(
                self@.flags,
                self@.run,
                self@.framework,
                launch@.app_name,
                self@.host,
            ),
    {
        run_desktop_hmr(
            self.flags.clone(),
            self.run.clone(),
            &self.framework,
            source,
            self.rules,
            self.host,
        )
    }

    /// Takes the build on by what came of its action.
    pub fn step(self, event: Event) -> (result: Result<Build, DesktopError>)
        requires
            self@.wf(),
            self@.expects(event@),
        ensures
            match result {
                Ok(build) => {
                    &&& build@.wf()
                    &&& self@.next(event@, build@.session_output()) == Ok::<
                        BuildModel,
                        ErrorModel,
                    >(build@)
                    &&& event@ matches EventModel::DevDirMade { dir } ==> self@.is_dev_output(
                        dir,
                        build@.session_output(),
                    )
                },
                Err(error) => self@.next(event@, Text::empty()) == Err::<BuildModel, ErrorModel>(
                    error@,
                ),
            },
    {
        match event {
            Event::FrameworkDetected { framework } => match framework {
                Some(framework) => Ok(self.with_framework(framework)),
                None => Err(DesktopError::NoFramework),
            },
            Event::BuildCommandRan => Ok(self.after_build_command()),
            Event::EntrypointWritten { path } => Ok(self.with_entrypoint(path)),
            Event::FaviconSearched { favicon } => Ok(self.with_favicon(favicon)),
            Event::DevDirMade { dir } => Ok(self.with_dev_dir(dir)),
            Event::Compiled => Ok(self.with_artifact()),
            Event::EntrypointRemoved => Ok(self.without_entrypoint()),
            Event::LaunchEnded => Ok(self.done()),
            Event::Packaged => Ok(self.with_bundle()),
            Event::Compressed => Ok(self.packaged()),
            Event::Wrapped => Ok(self.wrapped()),
            Event::Reported => Ok(self.done()),
        }
    }
}

/// Begins a build. An installer that the output asks for and that cannot be
/// built is an error.
pub fn compile_desktop(
    desktop_flags: DesktopFlags,
    run: RunFlags,
    directory: String,
    rules: PathRules,
    host: HostOs,
) -> (result: Result<Build, DesktopError>)
    ensures
        match result {
            Ok(build) => {
                &&& build@.wf()
                &&& is_file_name(rules.windows(), directory@, build@.directory_name)
                &&& installers_of(
                    rules.windows(),
                    desktop_flags@.output,
                    desktop_flags@.target,
                    host,
                    Ok((build@.installers, build@.flags.output)),
                )
                &&& build@ == first_stage(
                    desktop_flags@,
                    run@,
                    directory@,
                    build@.directory_name,
                    rules.windows(),
                    host,
                    build@.installers,
                    build@.flags.output,
                )
            },
            Err(error) => installers_of(
                rules.windows(),
                desktop_flags@.output,
                desktop_flags@.target,
                host,
                Err(error@),
            ),
        },
{
    let mut flags = desktop_flags;
    let directory_name = path_file_name(rules, directory.as_str());
    let (installers, output) = match find_installers(flags.output, &flags.target, rules, host) {
        Ok(found) => found,
        Err(error) => {
            return Err(error);
        },
    };
    flags.output = output;
    let from_directory = same_text(flags.source_file.as_str(), ".");
    let build = Build {
        host,
        rules,
        flags,
        run,
        directory,
        directory_name,
        installers,
        framework: None,
        entrypoint: false,
        self_extracting: false,
        dev_output: None,
        stage: Stage::DetectFramework,
    };
    if from_directory {
        Ok(build)
    } else {
        Ok(build.with_source())
    }
}

/// An event tells what came of an action.
pub open spec fn answers(event: EventModel, action: ActionModel) -> bool {
    match event {
        EventModel::FrameworkDetected { .. } => action is DetectFramework,
        EventModel::BuildCommandRan => action is RunBuildCommand,
        EventModel::EntrypointWritten { .. } => action is WriteEntrypoint,
        EventModel::FaviconSearched { .. } => action is FindFavicon,
        EventModel::DevDirMade { .. } => action is MakeDevDir,
        EventModel::Compiled => action is Compile,
        EventModel::EntrypointRemoved => action is RemoveEntrypoint,
        EventModel::LaunchEnded => action is Launch,
        EventModel::Packaged => action is Package,
        EventModel::Compressed => action is MakeSelfExtracting,
        EventModel::Wrapped => action is Wrap,
        EventModel::Reported => action is Report,
    }
}

/// A build expects just the events that answer its action, so that it can go
/// on whenever its action has been done.
pub proof fn law_answers_are_expected(build: BuildModel, event: EventModel)
    ensures
        build.expects(event) <==> answers(event, build.action()),
{
}

/// What holds of a build at its stage holds again at the next one.
pub proof fn law_stages_stay_well_formed(build: BuildModel, event: EventModel, dev_output: Text)
    requires
        build.wf(),
        build.expects(event),
    ensures
        build.next(event, dev_output) matches Ok(next) ==> next.wf(),
{
}

/// The only thing that a build itself can fail at is a directory without a
/// framework in it.
pub proof fn law_only_missing_frameworks_fail(
    build: BuildModel,
    event: EventModel,
    dev_output: Text,
)
    ensures
        build.next(event, dev_output) is Err <==> event == (EventModel::FrameworkDetected {
            framework: None,
        }),
        build.next(event, dev_output) matches Err(error) ==> error == ErrorModel::NoFramework,
{
}

/// Every step leaves fewer stages to come, and a build that is done expects
/// nothing more.
pub proof fn law_stages_run_out(build: BuildModel, event: EventModel, dev_output: Text)
    requires
        build.expects(event),
    ensures
        build.stage != Stage::Done,
        build.next(event, dev_output) matches Ok(next) ==> next.stage.rank()
            < build.stage.rank(),
{
}

/// A build takes the given events, one after the other.
pub open spec fn takes(build: BuildModel, events: Seq<EventModel>, dev_output: Text) -> bool
    decreases events.len(),
{
    events.len() == 0 || {
        &&& build.expects(events.first())
        &&& build.next(events.first(), dev_output) matches Ok(next) ==> takes(
            next,
            events.drop_first(),
            dev_output,
        )
        &&& build.next(events.first(), dev_output) is Ok
    }
}

/// A build comes to its end: it takes no more events than there are stages
/// left.
pub proof fn law_builds_end(build: BuildModel, events: Seq<EventModel>, dev_output: Text)
    requires
        takes(build, events, dev_output),
    ensures
        events.len() <= build.stage.rank(),
    decreases events.len(),
{
    if events.len() > 0 {
        law_stages_run_out(build, events.first(), dev_output);
        let next = build.next(events.first(), dev_output)->Ok_0;
        law_builds_end(next, events.drop_first(), dev_output);
    }
}

/// The generated entrypoint is removed directly after the compilation: once
/// the app is launched or packaged, nothing of it is left on disk.
pub proof fn law_entrypoint_is_removed(build: BuildModel, dev_output: Text)
    requires
        build.wf(),
    ensures
        build.stage.rank() < Stage::RemoveEntrypoint.rank() ==> !build.entrypoint,
        build.stage == Stage::Compile && build.entrypoint ==> build.next(
            EventModel::Compiled,
            dev_output,
        ) == Ok::<BuildModel, ErrorModel>(build.at(Stage::RemoveEntrypoint)),
{
}

/// An app is launched just in the sessions with hot reloading or an inspector
/// and packaged just in the others, and no step turns one into the other.
pub proof fn law_launched_or_packaged(build: BuildModel, event: EventModel, dev_output: Text)
    requires
        build.wf(),
    ensures
        build.stage == Stage::Launch ==> build.dev_session(),
        build.stage == Stage::Package || build.stage == Stage::Compress || build.stage
            == Stage::Wrap || build.stage == Stage::Report ==> !build.dev_session(),
        build.next(event, dev_output) matches Ok(next) ==> next.dev_session()
            == build.dev_session(),
{
}

/// No step changes a flag but the source, the output, the icon and the paths
/// that are taken along; an output and an icon that are set stay as they are.
pub proof fn law_steps_keep_flags(build: BuildModel, event: EventModel, dev_output: Text)
    requires
        build.wf(),
        build.expects(event),
    ensures
        build.next(event, dev_output) matches Ok(next) ==> {
            &&& next.flags == (FlagsModel {
                source_file: next.flags.source_file,
                output: next.flags.output,
                icon: next.flags.icon,
                include_paths: next.flags.include_paths,
                ..build.flags
            })
            &&& build.flags.output is Some ==> next.flags.output == build.flags.output
            &&& build.flags.icon is Some ==> next.flags.icon == build.flags.icon
            &&& next.installers == build.installers
            &&& next.directory == build.directory
            &&& next.directory_name == build.directory_name
            &&& next.host == build.host
            &&& next.windows == build.windows
        },
{
}

/// The framework's build command has run before what it makes is taken along:
/// the paths change only as the entrypoint is written, not at all where the
/// framework's dev server takes over, and otherwise the entrypoint is written
/// only after the build command ran.
pub proof fn law_built_before_taken_along(
    build: BuildModel,
    event: EventModel,
    dev_output: Text,
)
    requires
        build.wf(),
        build.expects(event),
    ensures
        build.next(event, dev_output) matches Ok(next) ==> {
            &&& next.flags.include_paths != build.flags.include_paths ==> build.stage
                == Stage::WriteEntrypoint && !build.framework_hmr()
            &&& next.stage == Stage::WriteEntrypoint && !next.framework_hmr() ==> event
                == EventModel::BuildCommandRan
        },
{
}

/// With compression asked for, a packaged app is made self-extracting before
/// it is wrapped in an installer or reported.
pub proof fn law_compressed_before_wrapped(
    build: BuildModel,
    event: EventModel,
    dev_output: Text,
)
    requires
        build.wf(),
        build.expects(event),
        build.flags.compress is Some,
    ensures
        build.next(event, dev_output) matches Ok(next) ==> {
            &&& next.stage == Stage::Wrap ==> build.stage == Stage::Compress
            &&& next.stage == Stage::Report ==> build.stage == Stage::Compress || build.stage
                == Stage::Wrap
        },
{
}

/// A dev session compiles into its own directory; every other build into the
/// requested output. The app unpacks itself just where its entrypoint was
/// generated, and it is always compiled as a desktop app.
pub proof fn law_compiled_output(build: BuildModel)
    requires
        build.wf(),
        build.stage == Stage::Compile,
    ensures
        build.action() matches ActionModel::Compile { flags, type_check, detect_cjs } && {
            &&& build.dev_session() ==> flags.output == build.dev_output && flags.output is Some
            &&& !build.dev_session() ==> flags.output == build.flags.output
            &&& flags.self_extracting == build.entrypoint
            &&& flags.is_desktop
            &&& build.framework is Some ==> detect_cjs
            &&& build.framework is Some && compiles_itself(build.framework->0.name) ==> !type_check
        },
{
}

/// The dev artifacts of a project always go to the same directory: it depends
/// on nothing but the path of the project.
pub proof fn law_dev_dir_is_stable(build: BuildModel, other: BuildModel)
    requires
        build.stage == Stage::MakeDevDir,
        other.stage == Stage::MakeDevDir,
        build.directory == other.directory,
    ensures
        build.action() == other.action(),
{
}

/// The artifact of a dev session always has the same path: two sessions for one
/// project with one output, on one platform, ask for the same directory and
/// compile to one path in it. The other flags have no say in it.
pub proof fn law_dev_artifact_is_stable(
    build: BuildModel,
    other: BuildModel,
    dir: Text,
    path: Text,
    other_path: Text,
)
    requires
        build.wf(),
        other.wf(),
        build.stage == Stage::MakeDevDir,
        other.stage == Stage::MakeDevDir,
        build.windows == other.windows,
        build.directory == other.directory,
        is_file_name(build.windows, build.directory, build.directory_name),
        is_file_name(other.windows, other.directory, other.directory_name),
        build.flags.output == other.flags.output,
        build.is_dev_output(dir, path),
        other.is_dev_output(dir, other_path),
    ensures
        build.action() == other.action(),
        build.action() == (ActionModel::MakeDevDir { components: dev_dir_of(build.directory) }),
        path == other_path,
        build.compiles_to(dir, path),
        other.compiles_to(dir, path),
{
}

/// The artifact of a dev session is named by the stem of the output, or else by
/// the name of the working directory, or else `app`, and lies directly in the
/// directory of the session. This holds of a portable directory and a plain
/// name.
pub proof fn law_dev_artifact_path(build: BuildModel, dir: Text, path: Text)
    requires
        build.is_dev_output(dir, path),
        build.flags.output is Some ==> names_file(build.flags.output->0),
        build.flags.output is None && build.directory_name is Some ==> plain_name(
            build.directory_name->0,
        ),
        portable(dir),
        dir.len() > 0,
    ensures
        path == plain_join(build.windows, dir, build.dev_name()),
{
    reveal_strlit("app");
    if build.flags.output is Some {
        lemma_parts_are_plain(build.flags.output->0);
    }
    let name = choose|name: Option<Text>|
        #[trigger] is_project_name(
            build.windows,
            build.flags.output,
            build.directory_name,
            name,
        ) && is_artifact(build.windows, dir, name, path);
    assert(artifact_name(name) == build.dev_name());
    assert(plain_name(build.dev_name()));
}

/// What was found out about the framework holds for the launch too: its dev
/// server is started just where the entrypoint was left to it.
pub proof fn law_launch_agrees_with_build(build: BuildModel, app_name: Option<Text>)
    requires
        build.wf(),
        build.stage == Stage::Launch,
    ensures
        first_launch_stage(
            build.flags,
            build.run,
            build.framework,
            app_name,
            build.host,
        ).dev_server <==> build.framework_hmr(),
{
}

/// Every installer that was asked for is made before anything is reported, with
/// or without compression: where there is one, the report comes only after the
/// wrapping.
pub proof fn law_wrapped_before_reported(build: BuildModel, event: EventModel, dev_output: Text)
    requires
        build.expects(event),
        build.installers.dmg is Some || build.installers.appimage is Some || build.installers.deb
            is Some || build.installers.rpm is Some || build.installers.msi is Some,
    ensures
        build.next(event, dev_output) matches Ok(next) ==> next.stage == Stage::Report
            ==> build.stage == Stage::Wrap,
        build.stage == Stage::Compress ==> {
            &&& build.next(EventModel::Compressed, dev_output) matches Ok(next)
            &&& next.stage == Stage::Wrap
        },
        build.stage == Stage::Package && build.flags.compress is None ==> {
            &&& build.next(EventModel::Packaged, dev_output) matches Ok(next)
            &&& next.stage == Stage::Wrap
        },
{
}

/// The app is run instead of being packaged just where hot reloading or one of
/// the three inspector flags was asked for. A build gets a directory for its
/// artifacts and is launched only so, is packaged, compressed, wrapped and
/// reported only otherwise, and is compiled into the directory just so.
pub proof fn law_four_flags_make_a_dev_session(build: BuildModel)
    requires
        build.wf(),
    ensures
        ({
            let asked = build.flags.hmr || build.run.inspect is Some || build.run.inspect_brk
                is Some || build.run.inspect_wait is Some;
            &&& build.stage == Stage::MakeDevDir || build.stage == Stage::Launch ==> asked
            &&& build.stage == Stage::Package || build.stage == Stage::Compress || build.stage
                == Stage::Wrap || build.stage == Stage::Report ==> !asked
            &&& build.stage == Stage::Compile || build.stage == Stage::RemoveEntrypoint ==> (
            build.dev_output is Some <==> asked)
        }),
{
}

/// The entrypoint does nothing just where the launch will start the framework's
/// dev server; otherwise it is the framework's own.
pub proof fn law_entrypoint_serves_the_app(build: BuildModel, app_name: Option<Text>)
    requires
        build.stage == Stage::WriteEntrypoint,
        build.framework is Some,
    ensures
        ({
            let found = build.framework->0;
            let served = build.flags.hmr && found.has_hmr_command;
            &&& build.action() matches ActionModel::WriteEntrypoint { code }
            &&& code == EntrypointModel::Noop <==> served
            &&& !served ==> code == EntrypointModel::Framework(found.entrypoint_code)
            &&& served <==> first_launch_stage(
                build.flags,
                build.run,
                build.framework,
                app_name,
                build.host,
            ).dev_server
        }),
{
}

/// The compiler gets what the user asked for: the flags of the build are
/// carried through, each as it is.
pub proof fn law_compiled_as_asked(build: BuildModel)
    requires
        build.stage == Stage::Compile,
    ensures
        ({
            &&& build.action() matches ActionModel::Compile { flags, type_check, detect_cjs }
            &&& build.flags.target == flags.target
            &&& build.flags.source_file == flags.source_file
            &&& build.flags.args == flags.args
            &&& build.flags.include_paths == flags.include_paths
            &&& build.flags.exclude_paths == flags.exclude_paths
            &&& build.flags.exclude_unused_npm == flags.exclude_unused_npm
            &&& build.dev_output is Some ==> flags.output == build.dev_output
            &&& build.dev_output is None ==> flags.output == build.flags.output
            &&& build.flags.icon is None ==> flags.icon is None
            &&& build.flags.icon matches Some(icon) ==> {
                &&& icon matches IconModel::Single(path) ==> flags.icon == Some(path)
                &&& icon is IconSet ==> flags.icon is None
            }
            &&& flags.self_extracting == build.self_extracting
            &&& flags.is_desktop
            &&& type_check == build.run.type_check
            &&& detect_cjs == build.run.detect_cjs
        }),
{
    law_compiler_gets_the_flags(build.flags, build.dev_output, build.self_extracting);
}

/// With `--all-targets` each build is compiled for its own target: the flags of
/// the build with the given number reach the compiler with the target of that
/// number, whatever stages lie between.
pub proof fn law_every_target_is_compiled(
    flags: FlagsModel,
    config: ConfigModel,
    host: HostOs,
    number: int,
    build: BuildModel,
)
    requires
        flags.all_targets,
        0 <= number < 5,
        build.stage == Stage::Compile,
        build.flags.target == builds_of(flags, config, host)[number].target,
    ensures
        ({
            &&& build.action() matches ActionModel::Compile { flags: asked, type_check, detect_cjs }
            &&& number == 0 ==> asked.target == Some("x86_64-apple-darwin"@)
            &&& number == 1 ==> asked.target == Some("aarch64-apple-darwin"@)
            &&& number == 2 ==> asked.target == Some("x86_64-unknown-linux-gnu"@)
            &&& number == 3 ==> asked.target == Some("aarch64-unknown-linux-gnu"@)
            &&& number == 4 ==> asked.target == Some("x86_64-pc-windows-msvc"@)
        }),
{
    law_all_targets_are_built(flags, None, config, host);
    law_compiled_as_asked(build);
}

/// A build begins with the flags that it was given, but for the output, and
/// with nothing else settled. The working directory is searched for a framework
/// just where it is the source; any other source goes on to be compiled, in a
/// dev session after its directory is made.
pub proof fn law_builds_begin(
    flags: FlagsModel,
    run: RunModel,
    directory: Text,
    directory_name: Option<Text>,
    windows: bool,
    host: HostOs,
    installers: InstallersModel,
    output: Option<Text>,
)
    ensures
        ({
            let build = first_stage(
                flags,
                run,
                directory,
                directory_name,
                windows,
                host,
                installers,
                output,
            );
            let asked = flags.hmr || run.inspect is Some || run.inspect_brk is Some
                || run.inspect_wait is Some;
            let here = flags.source_file == "."@;
            &&& build.flags == (FlagsModel { output, ..flags })
            &&& build.run == run
            &&& build.directory == directory
            &&& build.directory_name == directory_name
            &&& build.windows == windows
            &&& build.host == host
            &&& build.installers == installers
            &&& build.framework is None && build.dev_output is None
            &&& !build.entrypoint && !build.self_extracting
            &&& here ==> build.stage == Stage::DetectFramework
            &&& !here && asked ==> build.stage == Stage::MakeDevDir
            &&& !here && !asked ==> build.stage == Stage::Compile
        }),
{
}

/// A framework is kept as it was found. CommonJS modules are detected from then
/// on, and types are checked as before unless the framework is Next.js. The
/// build command is skipped just where the framework's dev server takes over.
pub proof fn law_after_a_framework_is_found(
    build: BuildModel,
    found: FrameworkModel,
    dev_output: Text,
)
    ensures
        ({
            let event = EventModel::FrameworkDetected { framework: Some(found) };
            &&& build.next(event, dev_output) matches Ok(next)
            &&& next == (BuildModel {
                framework: Some(found),
                run: next.run,
                stage: next.stage,
                ..build
            })
            &&& next.run == (RunModel {
                detect_cjs: true,
                type_check: next.run.type_check,
                ..build.run
            })
            &&& next.run.type_check <==> build.run.type_check && found.name != "Next.js"@
            &&& build.flags.hmr && found.has_hmr_command ==> next.stage == Stage::WriteEntrypoint
            &&& !(build.flags.hmr && found.has_hmr_command) ==> next.stage
                == Stage::RunBuildCommand
        }),
{
}

/// A directory without a framework is the error, whatever the build; after the
/// build command the entrypoint is written.
pub proof fn law_without_a_framework_or_after_its_build(build: BuildModel, dev_output: Text)
    ensures
        ({
            let event = EventModel::FrameworkDetected { framework: None };
            &&& build.next(event, dev_output) matches Err(error)
            &&& error == ErrorModel::NoFramework
        }),
        ({
            &&& build.next(EventModel::BuildCommandRan, dev_output) matches Ok(next)
            &&& next == (BuildModel { stage: Stage::WriteEntrypoint, ..build })
        }),
{
}

/// The written entrypoint becomes the source, and the app one that unpacks
/// itself. An output that is not set takes the name of the working directory.
/// The framework's paths are added unless its dev server takes over. A favicon
/// is looked for just where there is no icon.
pub proof fn law_after_the_entrypoint_is_written(build: BuildModel, path: Text, dev_output: Text)
    requires
        build.framework is Some,
    ensures
        ({
            let found = build.framework->0;
            let served = build.flags.hmr && found.has_hmr_command;
            let asked = build.flags.hmr || build.run.inspect is Some || build.run.inspect_brk
                is Some || build.run.inspect_wait is Some;
            &&& build.next(EventModel::EntrypointWritten { path }, dev_output) matches Ok(next)
            &&& next == (BuildModel {
                flags: next.flags,
                entrypoint: true,
                self_extracting: true,
                stage: next.stage,
                ..build
            })
            &&& next.flags == (FlagsModel {
                source_file: path,
                output: next.flags.output,
                include_paths: next.flags.include_paths,
                ..build.flags
            })
            &&& build.flags.output is Some ==> next.flags.output == build.flags.output
            &&& build.flags.output is None ==> next.flags.output == build.directory_name
            &&& served ==> next.flags.include_paths == build.flags.include_paths
            &&& !served ==> next.flags.include_paths == with_paths(
                build.flags.include_paths,
                found.include_paths,
            )
            &&& build.flags.icon is None ==> next.stage == Stage::FindFavicon
            &&& build.flags.icon is Some && asked ==> next.stage == Stage::MakeDevDir
            &&& build.flags.icon is Some && !asked ==> next.stage == Stage::Compile
        }),
{
}

/// A favicon that was found becomes the icon; without one the icon stays as it
/// is. Then the app is compiled, in a dev session after its directory is made.
pub proof fn law_after_the_favicon_is_searched(
    build: BuildModel,
    favicon: Option<Text>,
    dev_output: Text,
)
    ensures
        ({
            let asked = build.flags.hmr || build.run.inspect is Some || build.run.inspect_brk
                is Some || build.run.inspect_wait is Some;
            &&& build.next(EventModel::FaviconSearched { favicon }, dev_output) matches Ok(next)
            &&& next == (BuildModel { flags: next.flags, stage: next.stage, ..build })
            &&& next.flags == (FlagsModel { icon: next.flags.icon, ..build.flags })
            &&& favicon is Some ==> next.flags.icon == Some(IconModel::Single(favicon->0))
            &&& favicon is None ==> next.flags.icon == build.flags.icon
            &&& asked ==> next.stage == Stage::MakeDevDir
            &&& !asked ==> next.stage == Stage::Compile
        }),
{
}

/// Once its directory is made, a dev session is compiled to its artifact there.
pub proof fn law_after_the_dev_dir_is_made(build: BuildModel, dir: Text, dev_output: Text)
    ensures
        ({
            &&& build.next(EventModel::DevDirMade { dir }, dev_output) matches Ok(next)
            &&& next == (BuildModel {
                dev_output: Some(dev_output),
                stage: Stage::Compile,
                ..build
            })
        }),
{
}

/// After the compilation a generated entrypoint is removed; then the app is
/// launched in a dev session and packaged otherwise.
pub proof fn law_after_the_compilation(build: BuildModel, dev_output: Text)
    ensures
        ({
            let asked = build.flags.hmr || build.run.inspect is Some || build.run.inspect_brk
                is Some || build.run.inspect_wait is Some;
            let then_stage = if asked {
                Stage::Launch
            } else {
                Stage::Package
            };
            &&& build.next(EventModel::Compiled, dev_output) matches Ok(compiled)
            &&& build.next(EventModel::EntrypointRemoved, dev_output) matches Ok(removed)
            &&& compiled == (BuildModel { stage: compiled.stage, ..build })
            &&& removed == (BuildModel { entrypoint: false, stage: then_stage, ..build })
            &&& build.entrypoint ==> compiled.stage == Stage::RemoveEntrypoint
            &&& !build.entrypoint ==> compiled.stage == then_stage
        }),
{
}

/// A packaged app is compressed where that was asked for, then wrapped where an
/// installer was asked for, then reported.
pub proof fn law_after_the_packaging(build: BuildModel, dev_output: Text)
    ensures
        ({
            let wanted = build.installers.dmg is Some || build.installers.appimage is Some
                || build.installers.deb is Some || build.installers.rpm is Some
                || build.installers.msi is Some;
            let then_stage = if wanted {
                Stage::Wrap
            } else {
                Stage::Report
            };
            &&& build.next(EventModel::Packaged, dev_output) matches Ok(bundled)
            &&& build.next(EventModel::Compressed, dev_output) matches Ok(compressed)
            &&& bundled == (BuildModel { stage: bundled.stage, ..build })
            &&& compressed == (BuildModel { stage: then_stage, ..build })
            &&& build.flags.compress is Some ==> bundled.stage == Stage::Compress
            &&& build.flags.compress is None ==> bundled.stage == then_stage
        }),
{
}

/// A wrapped app is reported, and a build that has been reported or launched is
/// done.
pub proof fn law_builds_come_to_their_end(build: BuildModel, dev_output: Text)
    ensures
        ({
            &&& build.next(EventModel::Wrapped, dev_output) matches Ok(wrapped)
            &&& build.next(EventModel::Reported, dev_output) matches Ok(reported)
            &&& build.next(EventModel::LaunchEnded, dev_output) matches Ok(ended)
            &&& wrapped == (BuildModel { stage: Stage::Report, ..build })
            &&& reported == (BuildModel { stage: Stage::Done, ..build })
            &&& ended == (BuildModel { stage: Stage::Done, ..build })
        }),
{
}

/// Each stage asks for its own work. A favicon is looked for, and a bundle made
/// self-extracting, for the system of the app; the format is the one that was
/// asked for; what is wrapped and reported is the first installer that was
/// asked for, at the path that it was asked for with.
pub proof fn law_builds_ask_for_their_work(build: BuildModel)
    ensures
        ({
            let action = build.action();
            let os = os_of(build.flags.target, build.host);
            let wanted = if build.installers.dmg is Some {
                build.installers.dmg
            } else if build.installers.appimage is Some {
                build.installers.appimage
            } else if build.installers.deb is Some {
                build.installers.deb
            } else if build.installers.rpm is Some {
                build.installers.rpm
            } else {
                build.installers.msi
            };
            &&& action is DetectFramework <==> build.stage == Stage::DetectFramework
            &&& action is RunBuildCommand <==> build.stage == Stage::RunBuildCommand
            &&& action is WriteEntrypoint <==> build.stage == Stage::WriteEntrypoint
            &&& action is FindFavicon <==> build.stage == Stage::FindFavicon
            &&& action matches ActionModel::FindFavicon { os: looked } ==> looked == os
            &&& action is MakeDevDir <==> build.stage == Stage::MakeDevDir
            &&& action matches ActionModel::MakeDevDir { components } ==> components == dev_dir_of(
                build.directory,
            )
            &&& action is Compile <==> build.stage == Stage::Compile
            &&& action is RemoveEntrypoint <==> build.stage == Stage::RemoveEntrypoint
            &&& action is Launch <==> build.stage == Stage::Launch
            &&& action is Package <==> build.stage == Stage::Package
            &&& action is MakeSelfExtracting <==> build.stage == Stage::Compress
            &&& action matches ActionModel::MakeSelfExtracting { how } ==> {
                &&& how is Macos <==> os == TargetOs::Macos
                &&& how matches SelfExtractingModel::Macos { format } ==> format
                    == build.flags.compress->0
                &&& how matches SelfExtractingModel::Directory { format, windows } ==> format
                    == build.flags.compress->0 && (windows <==> os == TargetOs::Windows)
            }
            &&& action is Wrap <==> build.stage == Stage::Wrap
            &&& action matches ActionModel::Wrap { kind, path } ==> wanted is Some ==> {
                &&& path == wanted->0
                &&& kind == InstallerKind::Dmg <==> build.installers.dmg is Some
                &&& kind == InstallerKind::AppImage ==> build.installers.appimage is Some
                &&& kind == InstallerKind::Deb ==> build.installers.appimage is None
                    && build.installers.deb is Some
                &&& kind == InstallerKind::Rpm ==> build.installers.appimage is None
                    && build.installers.deb is None && build.installers.rpm is Some
                &&& kind == InstallerKind::Msi ==> build.installers.appimage is None
                    && build.installers.deb is None && build.installers.rpm is None
            }
            &&& action is Report <==> build.stage == Stage::Report
            &&& action matches ActionModel::Report { installer } ==> installer == wanted
            &&& action is Nothing <==> build.stage == Stage::Done
        }),
{
}

/// The artifact of a dev session is its directory joined with the stem of the
/// output, where that has one; otherwise with the name of the working
/// directory; and with `app` where there is no name or an empty one.
pub proof fn law_dev_artifact_is_joined(build: BuildModel, dir: Text, path: Text)
    requires
        build.is_dev_output(dir, path),
    ensures
        ({
            let stem = stem_by(build.windows, build.flags.output->0);
            let name = if build.flags.output is Some && stem is Some {
                stem
            } else {
                build.directory_name
            };
            &&& name is Some && name->0.len() > 0 ==> path == joined_by(
                build.windows,
                dir,
                name->0,
            )
            &&& name is None || name->0.len() == 0 ==> path == joined_by(
                build.windows,
                dir,
                "app"@,
            )
        }),
{
}

/// The output of a dev session is the one that was settled for it.
pub proof fn law_session_output_is_kept(build: BuildModel)
    ensures
        build.dev_output is Some ==> Some(build.session_output()) == build.dev_output,
{
}

/// The models of a build leave out nothing and mix up nothing.
pub proof fn law_builds_are_read(build: Build, code: EntrypointCode)
    ensures
        build@.host == build.host,
        build@.windows == build.rules.windows(),
        build@.flags == build.flags@,
        build@.run == build.run@,
        build@.directory == build.directory@,
        build@.directory_name == build.directory_name.deep_view(),
        build@.installers == build.installers@,
        build@.framework == build.framework.deep_view(),
        build@.entrypoint <==> build.entrypoint,
        build@.self_extracting <==> build.self_extracting,
        build@.dev_output == build.dev_output.deep_view(),
        build@.stage == build.stage,
        code is Noop <==> code@ is Noop,
        code matches EntrypointCode::Framework(text) ==> code@ == EntrypointModel::Framework(text@),
{
}

/// So do those of its actions.
pub proof fn law_actions_are_read(action: Action)
    ensures
        action is DetectFramework <==> action@ is DetectFramework,
        action is RunBuildCommand <==> action@ is RunBuildCommand,
        action matches Action::WriteEntrypoint { code } ==> action@ == (
        ActionModel::WriteEntrypoint { code: code@ }),
        action matches Action::FindFavicon { os } ==> action@ == (ActionModel::FindFavicon { os }),
        action matches Action::MakeDevDir { components } ==> action@ == (ActionModel::MakeDevDir {
            components: components.deep_view(),
        }),
        action matches Action::Compile { flags, type_check, detect_cjs } ==> action@ == (
        ActionModel::Compile { flags: flags@, type_check, detect_cjs }),
        action is RemoveEntrypoint <==> action@ is RemoveEntrypoint,
        action is Launch <==> action@ is Launch,
        action is Package <==> action@ is Package,
        action matches Action::MakeSelfExtracting { how } ==> action@ == (
        ActionModel::MakeSelfExtracting { how: how@ }),
        action matches Action::Wrap { kind, path } ==> action@ == (ActionModel::Wrap {
            kind,
            path: path@,
        }),
        action matches Action::Report { installer } ==> action@ == (ActionModel::Report {
            installer: installer.deep_view(),
        }),
        action is Nothing <==> action@ is Nothing,
{
}

/// And those of its events.
pub proof fn law_events_are_read(event: Event)
    ensures
        event matches Event::FrameworkDetected { framework } ==> event@ == (
        EventModel::FrameworkDetected { framework: framework.deep_view() }),
        event is BuildCommandRan <==> event@ is BuildCommandRan,
        event matches Event::EntrypointWritten { path } ==> event@ == (
        EventModel::EntrypointWritten { path: path@ }),
        event matches Event::FaviconSearched { favicon } ==> event@ == (
        EventModel::FaviconSearched { favicon: favicon.deep_view() }),
        event matches Event::DevDirMade { dir } ==> event@ == (EventModel::DevDirMade {
            dir: dir@,
        }),
        event is Compiled <==> event@ is Compiled,
        event is EntrypointRemoved <==> event@ is EntrypointRemoved,
        event is LaunchEnded <==> event@ is LaunchEnded,
        event is Packaged <==> event@ is Packaged,
        event is Compressed <==> event@ is Compressed,
        event is Wrapped <==> event@ is Wrapped,
        event is Reported <==> event@ is Reported,
{
}

/// Each event comes at the stage whose work it tells of, and at no other.
pub proof fn law_events_come_at_their_stage(build: BuildModel, event: EventModel)
    ensures
        event is FrameworkDetected ==> (build.expects(event) <==> build.stage
            == Stage::DetectFramework),
        event is BuildCommandRan ==> (build.expects(event) <==> build.stage
            == Stage::RunBuildCommand),
        event is EntrypointWritten ==> (build.expects(event) <==> build.stage
            == Stage::WriteEntrypoint),
        event is FaviconSearched ==> (build.expects(event) <==> build.stage == Stage::FindFavicon),
        event is DevDirMade ==> (build.expects(event) <==> build.stage == Stage::MakeDevDir),
        event is Compiled ==> (build.expects(event) <==> build.stage == Stage::Compile),
        event is EntrypointRemoved ==> (build.expects(event) <==> build.stage
            == Stage::RemoveEntrypoint),
        event is LaunchEnded ==> (build.expects(event) <==> build.stage == Stage::Launch),
        event is Packaged ==> (build.expects(event) <==> build.stage == Stage::Package),
        event is Compressed ==> (build.expects(event) <==> build.stage == Stage::Compress),
        event is Wrapped ==> (build.expects(event) <==> build.stage == Stage::Wrap),
        event is Reported ==> (build.expects(event) <==> build.stage == Stage::Report),
{
}

} // verus!
