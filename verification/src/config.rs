//! The `desktop` section of the project's configuration, and how it fills in
//! the flags.

use vstd::prelude::*;
use vstd::string::*;

use crate::flags::{
    DesktopFlags, FlagsModel, IconConfig, IconModel, IconSetEntry, IconSetEntryModel,
};
use crate::platform::{native_os, native_target_os, HostOs, TargetOs};
use crate::text::Text;

verus! {

/// One image of a configured icon set.
#[derive(Debug, PartialEq, Eq)]
pub struct DesktopIconEntry {
    pub path: String,
    pub size: u32,
}

/// A configured icon.
#[derive(Debug, PartialEq, Eq)]
pub enum DesktopIconValue {
    Single(String),
    IconSet(Vec<DesktopIconEntry>),
}

/// The configured icons by system.
#[derive(Debug, PartialEq, Eq)]
pub struct DesktopIconsConfig {
    pub macos: Option<DesktopIconValue>,
    pub windows: Option<DesktopIconValue>,
    pub linux: Option<DesktopIconValue>,
}

/// The `app` part of the configuration.
#[derive(Debug, PartialEq, Eq)]
pub struct DesktopAppConfig {
    pub name: Option<String>,
    pub identifier: Option<String>,
    pub icons: Option<DesktopIconsConfig>,
    pub deep_links: Option<Vec<String>>,
}

/// The configured outputs by system.
#[derive(Debug, PartialEq, Eq)]
pub struct DesktopOutputConfig {
    pub macos: Option<String>,
    pub windows: Option<String>,
    pub linux: Option<String>,
}

/// The `macos` part of the configuration.
#[derive(Debug, PartialEq, Eq)]
pub struct DesktopMacOSConfig {
    pub codesign_identity: Option<String>,
}

/// The `desktop` section of the configuration.
#[derive(Debug, PartialEq, Eq)]
pub struct DesktopConfig {
    pub app: Option<DesktopAppConfig>,
    pub backend: Option<String>,
    pub output: Option<DesktopOutputConfig>,
    pub macos: Option<DesktopMacOSConfig>,
}

/// A value for each system.
pub struct PerOs<T> {
    pub macos: Option<T>,
    pub windows: Option<T>,
    pub linux: Option<T>,
}

impl<T> PerOs<T> {
    /// The value for one system.
    pub open spec fn of(self, os: TargetOs) -> Option<T> {
        match os {
            TargetOs::Macos => self.macos,
            TargetOs::Windows => self.windows,
            TargetOs::Linux => self.linux,
        }
    }
}

/// What a `DesktopAppConfig` holds.
pub struct AppConfigModel {
    pub name: Option<Text>,
    pub identifier: Option<Text>,
    pub icons: Option<PerOs<IconModel>>,
    pub deep_links: Option<Seq<Text>>,
}

/// What a `DesktopConfig` holds.
pub struct ConfigModel {
    pub app: Option<AppConfigModel>,
    pub backend: Option<Text>,
    pub output: Option<PerOs<Text>>,
    pub codesign_identity: Option<Text>,
}

impl DeepView for DesktopIconEntry {
    type V = IconSetEntryModel;

    open spec fn deep_view(&self) -> IconSetEntryModel {
        IconSetEntryModel { path: self.path@, size: self.size }
    }
}

impl DeepView for DesktopIconValue {
    type V = IconModel;

    open spec fn deep_view(&self) -> IconModel {
        match self {
            DesktopIconValue::Single(path) => IconModel::Single(path@),
            DesktopIconValue::IconSet(entries) => IconModel::IconSet(entries.deep_view()),
        }
    }
}

impl DeepView for DesktopIconsConfig {
    type V = PerOs<IconModel>;

    open spec fn deep_view(&self) -> PerOs<IconModel> {
        PerOs {
            macos: self.macos.deep_view(),
            windows: self.windows.deep_view(),
            linux: self.linux.deep_view(),
        }
    }
}

impl DeepView for DesktopOutputConfig {
    type V = PerOs<Text>;

    open spec fn deep_view(&self) -> PerOs<Text> {
        PerOs {
            macos: self.macos.deep_view(),
            windows: self.windows.deep_view(),
            linux: self.linux.deep_view(),
        }
    }
}

impl DeepView for DesktopAppConfig {
    type V = AppConfigModel;

    open spec fn deep_view(&self) -> AppConfigModel {
        AppConfigModel {
            name: self.name.deep_view(),
            identifier: self.identifier.deep_view(),
            icons: self.icons.deep_view(),
            deep_links: self.deep_links.deep_view(),
        }
    }
}

impl View for DesktopConfig {
    type V = ConfigModel;

    open spec fn view(&self) -> ConfigModel {
        ConfigModel {
            app: self.app.deep_view(),
            backend: self.backend.deep_view(),
            output: self.output.deep_view(),
            codesign_identity: match self.macos {
                Some(macos) => macos.codesign_identity.deep_view(),
                None => None,
            },
        }
    }
}

impl ConfigModel {
    /// The output configured for a system.
    pub open spec fn output_for(self, os: TargetOs) -> Option<Text> {
        match self.output {
            Some(output) => output.of(os),
            None => None,
        }
    }

    /// The icon configured for a system.
    pub open spec fn icon_for(self, os: TargetOs) -> Option<IconModel> {
        match self.app {
            Some(app) => match app.icons {
                Some(icons) => icons.of(os),
                None => None,
            },
            None => None,
        }
    }

    /// The configured name of the app.
    pub open spec fn name(self) -> Option<Text> {
        match self.app {
            Some(app) => app.name,
            None => None,
        }
    }

    /// The configured identifier of the app.
    pub open spec fn identifier(self) -> Option<Text> {
        match self.app {
            Some(app) => app.identifier,
            None => None,
        }
    }

    /// The configured deep links; none at all where they are left out.
    pub open spec fn deep_links(self) -> Seq<Text> {
        match self.app {
            Some(app) => match app.deep_links {
                Some(deep_links) => deep_links,
                None => Seq::empty(),
            },
            None => Seq::empty(),
        }
    }
}

/// A value, or where it is not set the one that takes its place.
pub open spec fn set_or<T>(value: Option<T>, fallback: Option<T>) -> Option<T> {
    if value is Some {
        value
    } else {
        fallback
    }
}

/// The flags after the configuration has filled in those that were left
/// unset. The output falls back to the configured output of the host's system
/// and then to the configured name.
pub open spec fn configured(
    flags: FlagsModel,
    config: ConfigModel,
    host: HostOs,
) -> FlagsModel {
    let os = native_os(host);
    FlagsModel {
        output: set_or(flags.output, set_or(config.output_for(os), config.name())),
        icon: set_or(flags.icon, config.icon_for(os)),
        identifier: set_or(flags.identifier, config.identifier()),
        deep_links: if flags.deep_links.len() == 0 {
            config.deep_links()
        } else {
            flags.deep_links
        },
        backend: set_or(flags.backend, config.backend),
        codesign_identity: set_or(flags.codesign_identity, config.codesign_identity),
        ..flags
    }
}

/// A configured icon as a flag.
fn icon_flag(value: DesktopIconValue) -> (icon: IconConfig)
    ensures
        icon.deep_view() == value.deep_view(),
{
    match value {
        DesktopIconValue::Single(path) => IconConfig::Single(path),
        DesktopIconValue::IconSet(entries) => {
            let mut images: Vec<IconSetEntry> = Vec::new();
            let mut i: usize = 0;
            while i < entries.len()
                invariant
                    i <= entries@.len(),
                    images@.len() == i,
                    forall|j: int|
                        0 <= j < i ==> (#[trigger] images@[j]).deep_view()
                            == entries@[j].deep_view(),
                decreases entries@.len() - i,
            {
                images.push(IconSetEntry { path: entries[i].path.clone(), size: entries[i].size });
                i += 1;
            }
            assert(images.deep_view() =~= entries.deep_view());
            IconConfig::IconSet(images)
        },
    }
}

/// Sets a flag that was left unset.
fn fill(flag: &mut Option<String>, value: Option<String>)
    ensures
        final(flag).deep_view() == set_or(old(flag).deep_view(), value.deep_view()),
{
    if flag.is_none() {
        *flag = value;
    }
}

/// Sets the icon of one system, where no icon was given.
fn fill_icon(flag: &mut Option<IconConfig>, icons: DesktopIconsConfig, os: TargetOs)
    ensures
        final(flag).deep_view() == set_or(old(flag).deep_view(), icons.deep_view().of(os)),
{
    if flag.is_none() {
        let icon = match os {
            TargetOs::Macos => icons.macos,
            TargetOs::Windows => icons.windows,
            TargetOs::Linux => icons.linux,
        };
        *flag = match icon {
            Some(icon) => Some(icon_flag(icon)),
            None => None,
        };
    }
}

/// Fills in from the configuration the flags that were left unset. A flag that
/// was given on the command line always wins.
pub fn apply_desktop_config_to_flags(
    desktop_flags: &mut DesktopFlags,
    desktop_config: DesktopConfig,
    host: HostOs,
)
    ensures
        final(desktop_flags)@ == configured(old(desktop_flags)@, desktop_config@, host),
{
    let os = native_target_os(host);
    let output = match desktop_config.output {
        Some(output) => match os {
            TargetOs::Macos => output.macos,
            TargetOs::Windows => output.windows,
            TargetOs::Linux => output.linux,
        },
        None => None,
    };
    fill(&mut desktop_flags.output, output);
    if let Some(app) = desktop_config.app {
        if let Some(icons) = app.icons {
            fill_icon(&mut desktop_flags.icon, icons, os);
        }
        fill(&mut desktop_flags.output, app.name);
        fill(&mut desktop_flags.identifier, app.identifier);
        if let Some(deep_links) = app.deep_links {
            if desktop_flags.deep_links.is_empty() {
                desktop_flags.deep_links = deep_links;
            }
        }
    }
    fill(&mut desktop_flags.backend, desktop_config.backend);
    if let Some(macos) = desktop_config.macos {
        fill(&mut desktop_flags.codesign_identity, macos.codesign_identity);
    }
    assert(desktop_flags@ =~= configured(old(desktop_flags)@, desktop_config@, host));
}

/// The target triples that `--all-targets` builds for, in order.
pub open spec fn all_targets() -> Seq<Text> {
    seq![
        "x86_64-apple-darwin"@,
        "aarch64-apple-darwin"@,
        "x86_64-unknown-linux-gnu"@,
        "aarch64-unknown-linux-gnu"@,
        "x86_64-pc-windows-msvc"@,
    ]
}

/// The flags for one target.
pub open spec fn retargeted(flags: FlagsModel, target: Text) -> FlagsModel {
    FlagsModel { target: Some(target), ..flags }
}

/// The builds that a run consists of, in order: one for each target with
/// `--all-targets`, a single one otherwise.
pub open spec fn builds_of(
    flags: FlagsModel,
    config: ConfigModel,
    host: HostOs,
) -> Seq<FlagsModel> {
    let flags = configured(flags, config, host);
    if flags.all_targets {
        all_targets().map_values(|target: Text| retargeted(flags, target))
    } else {
        seq![flags]
    }
}

/// The flags for one target.
fn retarget(flags: &DesktopFlags, target: &str) -> (build: DesktopFlags)
    ensures
        build@ == retargeted(flags@, target@),
{
    let mut build = flags.clone();
    build.target = Some(target.to_owned());
    build
}

/// The builds that `deno desktop` makes of its flags and the configuration, in
/// the order in which they are made.
pub fn desktop(
    desktop_flags: DesktopFlags,
    desktop_config: DesktopConfig,
    host: HostOs,
) -> (builds: Vec<DesktopFlags>)
    ensures
        builds.deep_view() == builds_of(desktop_flags@, desktop_config@, host),
{
    let mut flags = desktop_flags;
    apply_desktop_config_to_flags(&mut flags, desktop_config, host);
    let mut builds: Vec<DesktopFlags> = Vec::new();
    if flags.all_targets {
        builds.push(retarget(&flags, "x86_64-apple-darwin"));
        builds.push(retarget(&flags, "aarch64-apple-darwin"));
        builds.push(retarget(&flags, "x86_64-unknown-linux-gnu"));
        builds.push(retarget(&flags, "aarch64-unknown-linux-gnu"));
        builds.push(retarget(&flags, "x86_64-pc-windows-msvc"));
    } else {
        builds.push(flags);
    }
    assert(builds.deep_view() =~= builds_of(desktop_flags@, desktop_config@, host));
    builds
}

/// A flag that was set on the command line is never changed by the
/// configuration, and the flags that the configuration has no say in are never
/// changed at all.
pub proof fn law_flags_win(flags: FlagsModel, config: ConfigModel, host: HostOs)
    ensures
        ({
            let after = configured(flags, config, host);
            &&& flags.output is Some ==> after.output == flags.output
            &&& flags.icon is Some ==> after.icon == flags.icon
            &&& flags.identifier is Some ==> after.identifier == flags.identifier
            &&& flags.deep_links.len() > 0 ==> after.deep_links == flags.deep_links
            &&& flags.backend is Some ==> after.backend == flags.backend
            &&& flags.codesign_identity is Some ==> after.codesign_identity
                == flags.codesign_identity
            &&& after.source_file == flags.source_file
            &&& after.args == flags.args
            &&& after.target == flags.target
            &&& after.include_paths == flags.include_paths
            &&& after.exclude_paths == flags.exclude_paths
            &&& after.exclude_unused_npm == flags.exclude_unused_npm
            &&& after.hmr == flags.hmr
            &&& after.all_targets == flags.all_targets
            &&& after.compress == flags.compress
            &&& after.inspect_renderer == flags.inspect_renderer
        }),
{
}

/// Filling in the flags from the same configuration a second time changes
/// nothing.
pub proof fn law_configured_once(flags: FlagsModel, config: ConfigModel, host: HostOs)
    ensures
        configured(configured(flags, config, host), config, host) == configured(
            flags,
            config,
            host,
        ),
{
}

/// Every build of a run has the same flags but for its target. With
/// `--all-targets` there is one build for each known target; without it there
/// is one build, for the target that was asked for.
pub proof fn law_builds_differ_in_target(flags: FlagsModel, config: ConfigModel, host: HostOs)
    ensures
        ({
            let builds = builds_of(flags, config, host);
            &&& builds.len() == if flags.all_targets {
                all_targets().len()
            } else {
                1
            }
            &&& forall|i: int|
                0 <= i < builds.len() ==> (FlagsModel {
                    target: flags.target,
                    ..#[trigger] builds[i]
                }) == configured(flags, config, host)
            &&& forall|i: int|
                0 <= i < builds.len() ==> (#[trigger] builds[i]).target == if flags.all_targets {
                    Some(all_targets()[i])
                } else {
                    flags.target
                }
        }),
{
}

/// The model of the configuration leaves out nothing and mixes up nothing.
pub proof fn law_configuration_is_read(config: DesktopConfig)
    ensures
        config@.backend == config.backend.deep_view(),
        config.macos is None ==> config@.codesign_identity is None,
        config.macos matches Some(macos) ==> config@.codesign_identity
            == macos.codesign_identity.deep_view(),
        config.output is None ==> config@.output is None,
        config.output matches Some(output) ==> {
            &&& config@.output matches Some(read)
            &&& read.macos == output.macos.deep_view()
            &&& read.windows == output.windows.deep_view()
            &&& read.linux == output.linux.deep_view()
        },
        config.app is None ==> config@.app is None,
        config.app matches Some(app) ==> {
            &&& config@.app matches Some(read)
            &&& read.name == app.name.deep_view()
            &&& read.identifier == app.identifier.deep_view()
            &&& read.deep_links == app.deep_links.deep_view()
            &&& app.icons is None ==> read.icons is None
            &&& app.icons matches Some(icons) ==> {
                &&& read.icons matches Some(read_icons)
                &&& read_icons.macos == icons.macos.deep_view()
                &&& read_icons.windows == icons.windows.deep_view()
                &&& read_icons.linux == icons.linux.deep_view()
            }
        },
{
}

/// The model of a configured icon holds its one path, or the path and the size
/// of each of its images, in order.
pub proof fn law_configured_icons_are_read(icon: DesktopIconValue)
    ensures
        icon matches DesktopIconValue::Single(path) ==> icon.deep_view() == IconModel::Single(path@),
        icon matches DesktopIconValue::IconSet(entries) ==> {
            &&& icon.deep_view() matches IconModel::IconSet(images)
            &&& images.len() == entries@.len()
            &&& forall|i: int|
                0 <= i < images.len() ==> (#[trigger] images[i]).path == entries@[i].path@
                    && images[i].size == entries@[i].size
        },
{
}

/// A flag that was left unset takes the configured value whenever there is one,
/// whatever the other sections hold, and stays unset where there is none. Icons
/// and outputs are those of the host's system; where it has no output, the
/// output takes the configured name.
pub proof fn law_unset_flags_are_filled(flags: FlagsModel, config: ConfigModel, host: HostOs)
    ensures
        ({
            let after = configured(flags, config, host);
            let unix = host == HostOs::Linux || host == HostOs::Other;
            &&& flags.backend is None ==> after.backend == config.backend
            &&& flags.codesign_identity is None ==> after.codesign_identity
                == config.codesign_identity
            &&& flags.identifier is None && config.app is None ==> after.identifier is None
            &&& flags.identifier is None && config.app is Some ==> after.identifier
                == config.app->0.identifier
            &&& flags.deep_links.len() == 0 && config.app is Some && config.app->0.deep_links is Some
                ==> after.deep_links == config.app->0.deep_links->0
            &&& flags.deep_links.len() == 0 && (config.app is None || config.app->0.deep_links
                is None) ==> after.deep_links.len() == 0
            &&& flags.icon is None && (config.app is None || config.app->0.icons is None)
                ==> after.icon is None
            &&& flags.icon is None && config.app is Some && config.app->0.icons is Some ==> {
                let icons = config.app->0.icons->0;
                &&& host == HostOs::Macos ==> after.icon == icons.macos
                &&& host == HostOs::Windows ==> after.icon == icons.windows
                &&& unix ==> after.icon == icons.linux
            }
            &&& flags.output is None && config.output is Some ==> {
                let output = config.output->0;
                &&& host == HostOs::Macos && output.macos is Some ==> after.output == output.macos
                &&& host == HostOs::Windows && output.windows is Some ==> after.output
                    == output.windows
                &&& unix && output.linux is Some ==> after.output == output.linux
            }
            &&& flags.output is None && (config.output is Some ==> {
                &&& host == HostOs::Macos ==> config.output->0.macos is None
                &&& host == HostOs::Windows ==> config.output->0.windows is None
                &&& unix ==> config.output->0.linux is None
            }) ==> {
                &&& config.app is None ==> after.output is None
                &&& config.app is Some ==> after.output == config.app->0.name
            }
        }),
{
}

/// With `--all-targets` there are five builds, one for each of the targets
/// below and in this order, and each has the flags of a build for one target
/// but for that target.
pub proof fn law_all_targets_are_built(
    flags: FlagsModel,
    target: Option<Text>,
    config: ConfigModel,
    host: HostOs,
)
    requires
        flags.all_targets,
    ensures
        ({
            let builds = builds_of(flags, config, host);
            let single = builds_of(FlagsModel { all_targets: false, target, ..flags }, config, host);
            &&& single.len() == 1
            &&& single[0].target == target
            &&& builds.len() == 5
            &&& builds[0].target == Some("x86_64-apple-darwin"@)
            &&& builds[1].target == Some("aarch64-apple-darwin"@)
            &&& builds[2].target == Some("x86_64-unknown-linux-gnu"@)
            &&& builds[3].target == Some("aarch64-unknown-linux-gnu"@)
            &&& builds[4].target == Some("x86_64-pc-windows-msvc"@)
            &&& forall|i: int|
                0 <= i < 5 ==> (#[trigger] builds[i]) == (FlagsModel {
                    all_targets: true,
                    target: builds[i].target,
                    ..single[0]
                })
        }),
{
}

} // verus!
