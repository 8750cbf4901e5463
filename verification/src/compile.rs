//! What the compiler is asked for.

use vstd::prelude::*;
use vstd::string::*;

use crate::config::set_or;
use crate::flags::{copy_text, copy_texts, DesktopFlags, FlagsModel, IconConfig, IconModel};
use crate::text::Text;

verus! {

/// The flags of a compilation.
#[derive(Debug, PartialEq, Eq)]
pub struct CompileFlags {
    pub source_file: String,
    pub output: Option<String>,
    pub app_name: Option<String>,
    pub args: Vec<String>,
    pub target: Option<String>,
    pub no_terminal: bool,
    pub icon: Option<String>,
    pub include_paths: Vec<String>,
    pub exclude_paths: Vec<String>,
    pub eszip: bool,
    pub self_extracting: bool,
    pub bundle: bool,
    pub minify: bool,
    pub exclude_unused_npm: bool,
    /// Whether the result is the library of a desktop app, not a program.
    pub is_desktop: bool,
}

/// What a `CompileFlags` holds.
#[verifier::ext_equal]
pub struct CompileModel {
    pub source_file: Text,
    pub output: Option<Text>,
    pub app_name: Option<Text>,
    pub args: Seq<Text>,
    pub target: Option<Text>,
    pub no_terminal: bool,
    pub icon: Option<Text>,
    pub include_paths: Seq<Text>,
    pub exclude_paths: Seq<Text>,
    pub eszip: bool,
    pub self_extracting: bool,
    pub bundle: bool,
    pub minify: bool,
    pub exclude_unused_npm: bool,
    pub is_desktop: bool,
}

impl View for CompileFlags {
    type V = CompileModel;

    open spec fn view(&self) -> CompileModel {
        CompileModel {
            source_file: self.source_file@,
            output: self.output.deep_view(),
            app_name: self.app_name.deep_view(),
            args: self.args.deep_view(),
            target: self.target.deep_view(),
            no_terminal: self.no_terminal,
            icon: self.icon.deep_view(),
            include_paths: self.include_paths.deep_view(),
            exclude_paths: self.exclude_paths.deep_view(),
            eszip: self.eszip,
            self_extracting: self.self_extracting,
            bundle: self.bundle,
            minify: self.minify,
            exclude_unused_npm: self.exclude_unused_npm,
            is_desktop: self.is_desktop,
        }
    }
}

/// The icon that the compiler can embed: a single file, not a set.
pub open spec fn single_icon(icon: Option<IconModel>) -> Option<Text> {
    match icon {
        Some(IconModel::Single(path)) => Some(path),
        _ => None,
    }
}

/// What the compiler is asked for. An output of its own for a dev session
/// takes the place of the requested one.
pub open spec fn compile_flags_of(
    flags: FlagsModel,
    dev_output: Option<Text>,
    self_extracting: bool,
) -> CompileModel {
    CompileModel {
        source_file: flags.source_file,
        output: set_or(dev_output, flags.output),
        app_name: None,
        args: flags.args,
        target: flags.target,
        no_terminal: false,
        icon: single_icon(flags.icon),
        include_paths: flags.include_paths,
        exclude_paths: flags.exclude_paths,
        eszip: false,
        self_extracting,
        bundle: false,
        minify: false,
        exclude_unused_npm: flags.exclude_unused_npm,
        is_desktop: true,
    }
}

/// What the compiler is asked for.
pub fn compile_flags(
    flags: &DesktopFlags,
    dev_output: &Option<String>,
    self_extracting: bool,
) -> (compile: CompileFlags)
    ensures
        compile@ == compile_flags_of(flags@, dev_output.deep_view(), self_extracting),
{
    CompileFlags {
        source_file: flags.source_file.clone(),
        output: match dev_output {
            Some(output) => Some(output.clone()),
            None => copy_text(&flags.output),
        },
        app_name: None,
        args: copy_texts(&flags.args),
        target: copy_text(&flags.target),
        no_terminal: false,
        icon: match &flags.icon {
            Some(IconConfig::Single(path)) => Some(path.clone()),
            _ => None,
        },
        include_paths: copy_texts(&flags.include_paths),
        exclude_paths: copy_texts(&flags.exclude_paths),
        eszip: false,
        self_extracting,
        bundle: false,
        minify: false,
        exclude_unused_npm: flags.exclude_unused_npm,
        is_desktop: true,
    }
}

/// The compiler gets what the user asked for: the flags that it shares with the
/// build are carried through, each as it is. The output of a dev session takes
/// the place of the requested one, a single icon is embedded and a set is not,
/// and the rest is fixed.
pub proof fn law_compiler_gets_the_flags(
    flags: FlagsModel,
    dev_output: Option<Text>,
    self_extracting: bool,
)
    ensures
        ({
            let asked = compile_flags_of(flags, dev_output, self_extracting);
            &&& flags.target == asked.target
            &&& flags.source_file == asked.source_file
            &&& flags.args == asked.args
            &&& flags.include_paths == asked.include_paths
            &&& flags.exclude_paths == asked.exclude_paths
            &&& flags.exclude_unused_npm == asked.exclude_unused_npm
            &&& dev_output is Some ==> asked.output == dev_output
            &&& dev_output is None ==> asked.output == flags.output
            &&& flags.icon is None ==> asked.icon is None
            &&& flags.icon matches Some(icon) ==> {
                &&& icon matches IconModel::Single(path) ==> asked.icon == Some(path)
                &&& icon is IconSet ==> asked.icon is None
            }
            &&& asked.self_extracting == self_extracting
            &&& asked.is_desktop
            &&& asked.app_name is None
            &&& !asked.no_terminal && !asked.eszip && !asked.bundle && !asked.minify
        }),
{
}

/// The model of the compiler's flags leaves out nothing and mixes up nothing.
pub proof fn law_compile_flags_are_read(compile: CompileFlags)
    ensures
        compile@.source_file == compile.source_file@,
        compile@.output == compile.output.deep_view(),
        compile@.app_name == compile.app_name.deep_view(),
        compile@.args == compile.args.deep_view(),
        compile@.target == compile.target.deep_view(),
        compile@.no_terminal <==> compile.no_terminal,
        compile@.icon == compile.icon.deep_view(),
        compile@.include_paths == compile.include_paths.deep_view(),
        compile@.exclude_paths == compile.exclude_paths.deep_view(),
        compile@.eszip <==> compile.eszip,
        compile@.self_extracting <==> compile.self_extracting,
        compile@.bundle <==> compile.bundle,
        compile@.minify <==> compile.minify,
        compile@.exclude_unused_npm <==> compile.exclude_unused_npm,
        compile@.is_desktop <==> compile.is_desktop,
{
}

} // verus!
