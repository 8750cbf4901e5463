//! The command-line flags of a desktop build.

use vstd::prelude::*;
use vstd::string::*;

use crate::text::{decimal, ends_in, Text};

verus! {

/// One image of an icon set.
#[derive(Debug, PartialEq, Eq)]
pub struct IconSetEntry {
    pub path: String,
    pub size: u32,
}

/// The icon of an app: one file, or a set of images by size.
#[derive(Debug, PartialEq, Eq)]
pub enum IconConfig {
    Single(String),
    IconSet(Vec<IconSetEntry>),
}

/// What an `IconSetEntry` holds.
pub struct IconSetEntryModel {
    pub path: Text,
    pub size: u32,
}

/// What an `IconConfig` holds.
#[verifier::ext_equal]
pub enum IconModel {
    Single(Text),
    IconSet(Seq<IconSetEntryModel>),
}

impl DeepView for IconSetEntry {
    type V = IconSetEntryModel;

    open spec fn deep_view(&self) -> IconSetEntryModel {
        IconSetEntryModel { path: self.path@, size: self.size }
    }
}

impl DeepView for IconConfig {
    type V = IconModel;

    open spec fn deep_view(&self) -> IconModel {
        match self {
            IconConfig::Single(path) => IconModel::Single(path@),
            IconConfig::IconSet(entries) => IconModel::IconSet(entries.deep_view()),
        }
    }
}

impl Clone for IconSetEntry {
    fn clone(&self) -> (copy: Self)
        ensures
            copy == *self,
    {
        IconSetEntry { path: self.path.clone(), size: self.size }
    }
}

impl Clone for IconConfig {
    fn clone(&self) -> (copy: Self)
        ensures
            copy.deep_view() == self.deep_view(),
    {
        match self {
            IconConfig::Single(path) => IconConfig::Single(path.clone()),
            IconConfig::IconSet(entries) => {
                let copy = entries.clone();
                assert(copy.deep_view() =~= entries.deep_view());
                IconConfig::IconSet(copy)
            },
        }
    }
}

/// A socket address: how it is written, and its port. What is written ends in
/// the port.
#[derive(Debug, PartialEq, Eq)]
pub struct Endpoint {
    pub address: String,
    pub port: u16,
}

/// What an `Endpoint` holds.
pub struct EndpointModel {
    pub address: Text,
    pub port: u16,
}

impl EndpointModel {
    /// The address ends in a colon and the port.
    pub open spec fn wf(self) -> bool {
        ends_in(self.address, ":"@ + decimal(self.port as nat))
    }
}

impl DeepView for Endpoint {
    type V = EndpointModel;

    open spec fn deep_view(&self) -> EndpointModel {
        EndpointModel { address: self.address@, port: self.port }
    }
}

impl Clone for Endpoint {
    fn clone(&self) -> (copy: Self)
        ensures
            copy == *self,
    {
        Endpoint { address: self.address.clone(), port: self.port }
    }
}

/// The flags of `deno desktop`.
#[derive(Debug, PartialEq, Eq)]
pub struct DesktopFlags {
    pub source_file: String,
    pub output: Option<String>,
    pub args: Vec<String>,
    pub target: Option<String>,
    pub icon: Option<IconConfig>,
    pub include_paths: Vec<String>,
    pub exclude_paths: Vec<String>,
    pub exclude_unused_npm: bool,
    pub hmr: bool,
    pub all_targets: bool,
    pub backend: Option<String>,
    pub compress: Option<String>,
    pub deep_links: Vec<String>,
    pub identifier: Option<String>,
    pub codesign_identity: Option<String>,
    pub inspect_renderer: Option<Endpoint>,
}

/// What a `DesktopFlags` holds.
#[verifier::ext_equal]
pub struct FlagsModel {
    pub source_file: Text,
    pub output: Option<Text>,
    pub args: Seq<Text>,
    pub target: Option<Text>,
    pub icon: Option<IconModel>,
    pub include_paths: Seq<Text>,
    pub exclude_paths: Seq<Text>,
    pub exclude_unused_npm: bool,
    pub hmr: bool,
    pub all_targets: bool,
    pub backend: Option<Text>,
    pub compress: Option<Text>,
    pub deep_links: Seq<Text>,
    pub identifier: Option<Text>,
    pub codesign_identity: Option<Text>,
    pub inspect_renderer: Option<EndpointModel>,
}

impl View for DesktopFlags {
    type V = FlagsModel;

    open spec fn view(&self) -> FlagsModel {
        FlagsModel {
            source_file: self.source_file@,
            output: self.output.deep_view(),
            args: self.args.deep_view(),
            target: self.target.deep_view(),
            icon: self.icon.deep_view(),
            include_paths: self.include_paths.deep_view(),
            exclude_paths: self.exclude_paths.deep_view(),
            exclude_unused_npm: self.exclude_unused_npm,
            hmr: self.hmr,
            all_targets: self.all_targets,
            backend: self.backend.deep_view(),
            compress: self.compress.deep_view(),
            deep_links: self.deep_links.deep_view(),
            identifier: self.identifier.deep_view(),
            codesign_identity: self.codesign_identity.deep_view(),
            inspect_renderer: self.inspect_renderer.deep_view(),
        }
    }
}

impl DeepView for DesktopFlags {
    type V = FlagsModel;

    open spec fn deep_view(&self) -> FlagsModel {
        self@
    }
}

/// The flags that a desktop build shares with the other commands.
#[derive(Debug, PartialEq, Eq)]
pub struct RunFlags {
    pub inspect: Option<Endpoint>,
    pub inspect_brk: Option<Endpoint>,
    pub inspect_wait: Option<Endpoint>,
    /// Whether modules are type-checked.
    pub type_check: bool,
    /// Whether CommonJS modules are detected.
    pub detect_cjs: bool,
}

/// What a `RunFlags` holds.
pub struct RunModel {
    pub inspect: Option<EndpointModel>,
    pub inspect_brk: Option<EndpointModel>,
    pub inspect_wait: Option<EndpointModel>,
    pub type_check: bool,
    pub detect_cjs: bool,
}

impl View for RunFlags {
    type V = RunModel;

    open spec fn view(&self) -> RunModel {
        RunModel {
            inspect: self.inspect.deep_view(),
            inspect_brk: self.inspect_brk.deep_view(),
            inspect_wait: self.inspect_wait.deep_view(),
            type_check: self.type_check,
            detect_cjs: self.detect_cjs,
        }
    }
}

impl Clone for RunFlags {
    fn clone(&self) -> (copy: Self)
        ensures
            copy@ == self@,
    {
        RunFlags {
            inspect: copy_endpoint(&self.inspect),
            inspect_brk: copy_endpoint(&self.inspect_brk),
            inspect_wait: copy_endpoint(&self.inspect_wait),
            type_check: self.type_check,
            detect_cjs: self.detect_cjs,
        }
    }
}

/// A copy of an optional endpoint.
fn copy_endpoint(endpoint: &Option<Endpoint>) -> (copy: Option<Endpoint>)
    ensures
        copy == *endpoint,
{
    match endpoint {
        Some(endpoint) => Some(endpoint.clone()),
        None => None,
    }
}

impl RunModel {
    /// An inspector was asked for.
    pub open spec fn inspecting(self) -> bool {
        self.inspect is Some || self.inspect_brk is Some || self.inspect_wait is Some
    }

    /// The endpoints agree with their ports.
    pub open spec fn endpoints_wf(self) -> bool {
        &&& self.inspect is Some ==> self.inspect->0.wf()
        &&& self.inspect_brk is Some ==> self.inspect_brk->0.wf()
        &&& self.inspect_wait is Some ==> self.inspect_wait->0.wf()
    }
}

impl RunFlags {
    /// Whether an inspector was asked for.
    pub fn inspector_requested(&self) -> (yes: bool)
        ensures
            yes == self@.inspecting(),
    {
        self.inspect.is_some() || self.inspect_brk.is_some() || self.inspect_wait.is_some()
    }
}

/// A copy of an optional string.
pub fn copy_text(text: &Option<String>) -> (copy: Option<String>)
    ensures
        copy == *text,
{
    match text {
        Some(text) => Some(text.clone()),
        None => None,
    }
}

/// A copy of a list of strings.
pub fn copy_texts(texts: &Vec<String>) -> (copy: Vec<String>)
    ensures
        copy.deep_view() == texts.deep_view(),
{
    let copy = texts.clone();
    assert(copy.deep_view() =~= texts.deep_view());
    copy
}

impl Clone for DesktopFlags {
    fn clone(&self) -> (copy: Self)
        ensures
            copy@ == self@,
    {
        DesktopFlags {
            source_file: self.source_file.clone(),
            output: copy_text(&self.output),
            args: copy_texts(&self.args),
            target: copy_text(&self.target),
            icon: match &self.icon {
                Some(icon) => Some(icon.clone()),
                None => None,
            },
            include_paths: copy_texts(&self.include_paths),
            exclude_paths: copy_texts(&self.exclude_paths),
            exclude_unused_npm: self.exclude_unused_npm,
            hmr: self.hmr,
            all_targets: self.all_targets,
            backend: copy_text(&self.backend),
            compress: copy_text(&self.compress),
            deep_links: copy_texts(&self.deep_links),
            identifier: copy_text(&self.identifier),
            codesign_identity: copy_text(&self.codesign_identity),
            inspect_renderer: copy_endpoint(&self.inspect_renderer),
        }
    }
}

/// The models of the flags leave out nothing and mix up nothing: each of their
/// parts is what the field of that name holds.
pub proof fn law_flags_are_read(flags: DesktopFlags)
    ensures
        flags@.source_file == flags.source_file@,
        flags@.output == flags.output.deep_view(),
        flags@.args == flags.args.deep_view(),
        flags@.target == flags.target.deep_view(),
        flags@.icon == flags.icon.deep_view(),
        flags@.include_paths == flags.include_paths.deep_view(),
        flags@.exclude_paths == flags.exclude_paths.deep_view(),
        flags@.exclude_unused_npm <==> flags.exclude_unused_npm,
        flags@.hmr <==> flags.hmr,
        flags@.all_targets <==> flags.all_targets,
        flags@.backend == flags.backend.deep_view(),
        flags@.compress == flags.compress.deep_view(),
        flags@.deep_links == flags.deep_links.deep_view(),
        flags@.identifier == flags.identifier.deep_view(),
        flags@.codesign_identity == flags.codesign_identity.deep_view(),
        flags@.inspect_renderer == flags.inspect_renderer.deep_view(),
        flags.deep_view() == flags@,
{
}

/// So do those of the shared flags, of endpoints and of icons.
pub proof fn law_run_flags_are_read(run: RunFlags, endpoint: Endpoint)
    ensures
        run@.inspect == run.inspect.deep_view(),
        run@.inspect_brk == run.inspect_brk.deep_view(),
        run@.inspect_wait == run.inspect_wait.deep_view(),
        run@.type_check <==> run.type_check,
        run@.detect_cjs <==> run.detect_cjs,
        endpoint.deep_view().address == endpoint.address@,
        endpoint.deep_view().port == endpoint.port,
{
}

/// The model of an icon holds its one path, or the path and the size of each
/// of its images, in order.
pub proof fn law_icons_are_read(icon: IconConfig)
    ensures
        icon matches IconConfig::Single(path) ==> icon.deep_view() == IconModel::Single(path@),
        icon matches IconConfig::IconSet(entries) ==> {
            &&& icon.deep_view() matches IconModel::IconSet(images)
            &&& images.len() == entries@.len()
            &&& forall|i: int|
                0 <= i < images.len() ==> (#[trigger] images[i]).path == entries@[i].path@
                    && images[i].size == entries@[i].size
        },
{
}

/// An inspector is asked for by any of the three flags.
pub proof fn law_any_flag_inspects(run: RunModel)
    ensures
        run.inspect is Some ==> run.inspecting(),
        run.inspect_brk is Some ==> run.inspecting(),
        run.inspect_wait is Some ==> run.inspecting(),
        run.inspect is None && run.inspect_brk is None && run.inspect_wait is None
            ==> !run.inspecting(),
{
}

} // verus!
