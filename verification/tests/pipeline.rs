use deno_desktop::compile::{compile_flags, CompileFlags};
use deno_desktop::error::DesktopError;
use deno_desktop::flags::{DesktopFlags, Endpoint, IconConfig, IconSetEntry, RunFlags};
use deno_desktop::framework::FrameworkDetection;
use deno_desktop::launch::LaunchAction;
use deno_desktop::packaging::{
    backend_or_default, make_self_extracting, InstallerKind, SelfExtracting,
};
use deno_desktop::path_rules::PathRules;
use deno_desktop::pipeline::{compile_desktop, Action, Build, EntrypointCode, Event, Stage};
use deno_desktop::platform::{HostOs, TargetOs};

fn text(text: &str) -> Option<String> {
    Some(text.to_string())
}

fn texts(list: &[&str]) -> Vec<String> {
    list.iter().map(|text| text.to_string()).collect()
}

fn flags(source: &str) -> DesktopFlags {
    DesktopFlags {
        source_file: source.to_string(),
        output: None,
        args: texts(&["--flag"]),
        target: None,
        icon: None,
        include_paths: texts(&["assets"]),
        exclude_paths: texts(&["tmp"]),
        exclude_unused_npm: true,
        hmr: false,
        all_targets: false,
        backend: None,
        compress: None,
        deep_links: vec![],
        identifier: None,
        codesign_identity: None,
        inspect_renderer: None,
    }
}

fn run() -> RunFlags {
    RunFlags {
        inspect: None,
        inspect_brk: None,
        inspect_wait: None,
        type_check: true,
        detect_cjs: false,
    }
}

fn inspected() -> RunFlags {
    RunFlags {
        inspect: Some(Endpoint { address: "127.0.0.1:9229".to_string(), port: 9229 }),
        ..run()
    }
}

fn framework(name: &str, has_hmr_command: bool) -> FrameworkDetection {
    FrameworkDetection {
        name: name.to_string(),
        entrypoint_code: "serve();".to_string(),
        has_hmr_command,
        include_paths: texts(&["dist", "assets"]),
    }
}

fn begin(flags: DesktopFlags, run: RunFlags) -> Build {
    compile_desktop(
        flags,
        run,
        "/home/me/shop".to_string(),
        PathRules::native(),
        HostOs::Linux,
    ).unwrap()
}

fn advance(build: Build, event: Event) -> Build {
    assert!(build.expects(&event));
    build.step(event).unwrap()
}

fn found(framework: FrameworkDetection) -> Event {
    Event::FrameworkDetected { framework: Some(framework) }
}

fn written() -> Event {
    Event::EntrypointWritten { path: "/home/me/shop/.deno_desktop_entry-1.ts".to_string() }
}

#[test]
fn a_file_is_compiled_packaged_and_reported() {
    let build = begin(DesktopFlags { output: text("Shop"), ..flags("main.ts") }, run());
    assert_eq!(
        build.action(),
        Action::Compile {
            flags: CompileFlags {
                source_file: "main.ts".to_string(),
                output: text("Shop"),
                app_name: None,
                args: texts(&["--flag"]),
                target: None,
                no_terminal: false,
                icon: None,
                include_paths: texts(&["assets"]),
                exclude_paths: texts(&["tmp"]),
                eszip: false,
                self_extracting: false,
                bundle: false,
                minify: false,
                exclude_unused_npm: true,
                is_desktop: true,
            },
            type_check: true,
            detect_cjs: false,
        }
    );
    let build = advance(build, Event::Compiled);
    assert_eq!(build.action(), Action::Package);
    let build = advance(build, Event::Packaged);
    assert_eq!(build.action(), Action::Report { installer: None });
    let build = advance(build, Event::Reported);
    assert_eq!(build.action(), Action::Nothing);
    assert_eq!(build.stage, Stage::Done);
    assert!(!build.expects(&Event::Reported));
}

#[test]
fn a_directory_is_built_by_its_framework() {
    let build = begin(flags("."), run());
    assert_eq!(build.action(), Action::DetectFramework);
    let build = advance(build, found(framework("Vite", true)));
    assert_eq!(build.action(), Action::RunBuildCommand);
    assert!(!build.expects(&written()));
    let build = advance(build, Event::BuildCommandRan);
    assert_eq!(
        build.action(),
        Action::WriteEntrypoint { code: EntrypointCode::Framework("serve();".to_string()) }
    );
    assert_eq!(build.flags.include_paths, texts(&["assets"]));
    let build = advance(build, written());
    assert_eq!(build.flags.include_paths, texts(&["assets", "dist"]));
    assert_eq!(build.action(), Action::FindFavicon { os: TargetOs::Linux });
    let build = advance(build, Event::FaviconSearched { favicon: text("public/favicon.ico") });
    match build.action() {
        Action::Compile { flags, type_check, detect_cjs } => {
            assert_eq!(flags.source_file, "/home/me/shop/.deno_desktop_entry-1.ts");
            assert_eq!(flags.output, text("shop"));
            assert_eq!(flags.icon, text("public/favicon.ico"));
            assert_eq!(flags.include_paths, texts(&["assets", "dist"]));
            assert!(flags.self_extracting);
            assert!(type_check);
            assert!(detect_cjs);
        }
        action => panic!("{action:?}"),
    }
    let build = advance(build, Event::Compiled);
    assert_eq!(build.action(), Action::RemoveEntrypoint);
    let build = advance(build, Event::EntrypointRemoved);
    assert!(!build.entrypoint);
    assert_eq!(build.action(), Action::Package);
}

#[test]
fn a_directory_without_a_framework_is_refused() {
    let build = begin(flags("."), run());
    let error = build.step(Event::FrameworkDetected { framework: None }).unwrap_err();
    assert_eq!(error, DesktopError::NoFramework);
    assert!(error.message().starts_with(
        "Could not detect a supported framework in the current directory.\n\
         Supported frameworks: Next.js, Astro, Fresh, Remix, React Router, SvelteKit, Nuxt, \
         SolidStart, TanStack Start, Vite\n"
    ));
}

#[test]
fn next_is_not_type_checked() {
    let build = begin(flags("."), run());
    let build = advance(build, found(framework("Next.js", false)));
    assert!(!build.run.type_check);
    assert!(build.run.detect_cjs);
}

#[test]
fn a_dev_server_takes_over() {
    let build = begin(
        DesktopFlags {
            hmr: true,
            icon: Some(IconConfig::Single("icon.png".to_string())),
            ..flags(".")
        },
        run(),
    );
    let build = advance(build, found(framework("Vite", true)));
    assert_eq!(build.action(), Action::WriteEntrypoint { code: EntrypointCode::Noop });
    let build = advance(build, written());
    assert_eq!(build.flags.include_paths, texts(&["assets"]));
    assert_eq!(
        build.action(),
        Action::MakeDevDir { components: texts(&["desktop", "4a68c726aa051718"]) }
    );
    let dir = "/cache/desktop/4a68c726aa051718".to_string();
    let build = advance(build, Event::DevDirMade { dir });
    match build.action() {
        Action::Compile { flags, .. } => {
            assert_eq!(flags.output, text("/cache/desktop/4a68c726aa051718/shop"));
            assert_eq!(flags.icon, text("icon.png"));
        }
        action => panic!("{action:?}"),
    }
    let build = advance(build, Event::Compiled);
    let build = advance(build, Event::EntrypointRemoved);
    assert_eq!(build.action(), Action::Launch);
    assert!(build.launch("/home/me/shop").dev_server);
    let build = advance(build, Event::LaunchEnded);
    assert_eq!(build.stage, Stage::Done);
}

#[test]
fn a_framework_without_a_dev_server_is_built_for_hot_reloading_too() {
    let build = begin(DesktopFlags { hmr: true, ..flags(".") }, run());
    let build = advance(build, found(framework("Fresh", false)));
    assert_eq!(build.action(), Action::RunBuildCommand);
}

#[test]
fn an_inspected_app_is_launched() {
    let build = begin(
        DesktopFlags { output: text("dist/Shop.app"), backend: text("cef"), ..flags("main.ts") },
        inspected(),
    );
    let build = advance(build, Event::DevDirMade { dir: "/cache/key".to_string() });
    assert_eq!(build.dev_output, text("/cache/key/Shop"));
    let build = advance(build, Event::Compiled);
    assert_eq!(build.action(), Action::Launch);
    let launch = build.launch("/home/me/shop");
    assert_eq!(launch.action(), LaunchAction::FindBackend { backend: "cef".to_string() });
    assert_eq!(launch.app_name, text("Shop"));
    assert!(!launch.dev_server);
}

#[test]
fn a_directory_without_a_name_makes_an_app() {
    let build = compile_desktop(
        DesktopFlags { hmr: true, ..flags("main.ts") },
        run(),
        "/".to_string(),
        PathRules::native(),
        HostOs::Linux,
    )
    .unwrap();
    assert_eq!(build.directory_name, None);
    let build = advance(build, Event::DevDirMade { dir: "/cache/key".to_string() });
    assert_eq!(build.dev_output, text("/cache/key/app"));
}

#[test]
fn a_bundle_is_compressed_before_it_is_wrapped() {
    let build = begin(
        DesktopFlags {
            output: text("dist/shop.deb"),
            compress: text("xz"),
            ..flags("main.ts")
        },
        run(),
    );
    assert_eq!(build.flags.output, text("dist/shop"));
    let build = advance(build, Event::Compiled);
    let build = advance(build, Event::Packaged);
    assert_eq!(
        build.action(),
        Action::MakeSelfExtracting {
            how: SelfExtracting::Directory { format: "xz".to_string(), windows: false }
        }
    );
    let build = advance(build, Event::Compressed);
    assert_eq!(
        build.action(),
        Action::Wrap { kind: InstallerKind::Deb, path: "dist/shop.deb".to_string() }
    );
    let build = advance(build, Event::Wrapped);
    assert_eq!(build.action(), Action::Report { installer: text("dist/shop.deb") });
}

#[test]
fn an_installer_that_cannot_be_built_stops_the_build() {
    assert_eq!(
        compile_desktop(
            DesktopFlags { output: text("Shop.dmg"), ..flags("main.ts") },
            run(),
            "/home/me/shop".to_string(),
            PathRules::native(),
            HostOs::Linux,
        ),
        Err(DesktopError::DmgNeedsMacosHost { requested: "Shop.dmg".to_string() })
    );
}

#[test]
fn the_favicon_search_can_fail() {
    let build = begin(
        DesktopFlags { target: text("x86_64-pc-windows-msvc"), ..flags(".") },
        run(),
    );
    let build = advance(build, found(framework("Vite", false)));
    let build = advance(build, Event::BuildCommandRan);
    let build = advance(build, written());
    assert_eq!(build.action(), Action::FindFavicon { os: TargetOs::Windows });
    let build = advance(build, Event::FaviconSearched { favicon: None });
    assert_eq!(build.flags.icon, None);
    assert_eq!(build.stage, Stage::Compile);
}

#[test]
fn an_icon_set_is_not_embedded() {
    let given = DesktopFlags {
        icon: Some(IconConfig::IconSet(vec![IconSetEntry {
            path: "a.png".to_string(),
            size: 16,
        }])),
        output: text("Shop"),
        ..flags("main.ts")
    };
    let compile = compile_flags(&given, &None, true);
    assert_eq!(compile.icon, None);
    assert_eq!(compile.output, text("Shop"));
    assert!(compile.self_extracting);
    assert_eq!(compile_flags(&given, &text("/cache/Shop"), false).output, text("/cache/Shop"));
}

#[test]
fn bundles_extract_themselves_by_system() {
    let on = |target: Option<&str>, host: HostOs| {
        let given = DesktopFlags {
            target: target.map(|target| target.to_string()),
            ..flags("main.ts")
        };
        make_self_extracting("zstd", &given, host)
    };
    let macos = SelfExtracting::Macos { format: "zstd".to_string() };
    let windows = SelfExtracting::Directory { format: "zstd".to_string(), windows: true };
    let linux = SelfExtracting::Directory { format: "zstd".to_string(), windows: false };
    assert_eq!(on(Some("aarch64-apple-darwin"), HostOs::Linux), macos);
    assert_eq!(on(Some("x86_64-pc-windows-msvc"), HostOs::Macos), windows);
    assert_eq!(on(Some("aarch64-unknown-linux-gnu"), HostOs::Macos), linux);
    assert_eq!(on(None, HostOs::Macos), macos);
    assert_eq!(on(None, HostOs::Windows), windows);
    assert_eq!(on(None, HostOs::Linux), linux);
    assert_eq!(on(None, HostOs::Other), linux);
}

#[test]
fn the_web_view_is_the_last_resort() {
    assert_eq!(backend_or_default(&flags("main.ts")), "webview");
    let given = DesktopFlags { backend: text("cef"), ..flags("main.ts") };
    assert_eq!(backend_or_default(&given), "cef");
}

#[test]
fn dev_artifacts_stay_in_one_place() {
    let given = DesktopFlags { hmr: true, ..flags("main.ts") };
    let first = begin(given.clone(), run());
    let second = begin(DesktopFlags { output: text("Other"), ..given }, inspected());
    assert_eq!(first.action(), second.action());
    let elsewhere = compile_desktop(
        DesktopFlags { hmr: true, ..flags("main.ts") },
        run(),
        "/home/me/cart".to_string(),
        PathRules::native(),
        HostOs::Linux,
    )
    .unwrap();
    assert_ne!(first.action(), elsewhere.action());
}

#[test]
fn dev_artifacts_keep_their_path() {
    let given = DesktopFlags { hmr: true, output: text("dist/Shop.app"), ..flags("main.ts") };
    let made = || Event::DevDirMade { dir: "/cache/key".to_string() };
    let first = advance(begin(given.clone(), run()), made());
    let second = advance(
        begin(DesktopFlags { hmr: false, backend: text("cef"), ..given }, inspected()),
        made(),
    );
    assert_eq!(first.dev_output, text("/cache/key/Shop"));
    assert_eq!(second.dev_output, first.dev_output);
    match second.action() {
        Action::Compile { flags, .. } => assert_eq!(flags.output, text("/cache/key/Shop")),
        action => panic!("{action:?}"),
    }
}

#[test]
fn only_the_answer_is_expected() {
    let build = begin(flags("main.ts"), run());
    let events = [
        Event::FrameworkDetected { framework: None },
        Event::BuildCommandRan,
        written(),
        Event::FaviconSearched { favicon: None },
        Event::DevDirMade { dir: String::new() },
        Event::EntrypointRemoved,
        Event::LaunchEnded,
        Event::Packaged,
        Event::Compressed,
        Event::Wrapped,
        Event::Reported,
    ];
    for event in &events {
        assert!(!build.expects(event));
    }
    assert!(build.expects(&Event::Compiled));
}

#[test]
fn set_flags_are_kept_through_a_build() {
    let given = DesktopFlags {
        output: text("Shop"),
        icon: Some(IconConfig::Single("icon.png".to_string())),
        ..flags(".")
    };
    let build = begin(given.clone(), run());
    let build = advance(build, found(framework("Vite", false)));
    let build = advance(build, Event::BuildCommandRan);
    let build = advance(build, written());
    assert_eq!(
        build.flags,
        DesktopFlags {
            source_file: "/home/me/shop/.deno_desktop_entry-1.ts".to_string(),
            include_paths: texts(&["assets", "dist"]),
            ..given
        }
    );
    assert_eq!(build.stage, Stage::Compile);
}
