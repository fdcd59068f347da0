use debstrip::model::{Asset, AssetSource, DebugSymbols, StripContext, StripError};
use debstrip::strip::{
    call_of, first_action, next_action, Action, StepReport, finish_artifact, merge_debug_assets, missing_input_error, missing_output_error, plan_artifact,
    resolve_context, strip_targets, tool_error, using_message, ArtifactPlan, Step, ToolFailure,
};

fn context(policy: DebugSymbols, target: Option<&str>) -> StripContext {
    StripContext {
        strip_cmd: "strip".to_string(),
        objcopy_cmd: "objcopy".to_string(),
        target: target.map(|t| t.to_string()),
        config_path: ".cargo/config".to_string(),
        output_dir: "/out/debian".to_string(),
        debug_symbols: policy,
    }
}

fn built(path: &str, target: &str) -> Asset {
    Asset::new(AssetSource::Path(path.to_string()), target.to_string(), 0o755, true)
}

fn plan(ctx: &StripContext, index: usize, asset: &Asset) -> ArtifactPlan {
    let input = asset.source.path().unwrap().clone();
    plan_artifact(ctx, index, &input, asset, &None).unwrap()
}

#[test]
fn symlinks_are_never_stripped() {
    let assets = vec![
        Asset::new(AssetSource::Symlink("/usr/bin/x".to_string()), "usr/bin/y".to_string(), 0o777, true),
        built("/out/app", "usr/bin/app"),
    ];
    for policy in [DebugSymbols::Strip, DebugSymbols::Separate { compress: false }] {
        assert_eq!(strip_targets(policy, &assets), vec![1]);
    }
}

#[test]
fn only_built_assets_are_stripped() {
    let assets = vec![
        built("/out/a", "usr/bin/a"),
        Asset::new(AssetSource::Path("/src/README".to_string()), "usr/share/doc/README".to_string(), 0o644, false),
        Asset::new(AssetSource::Data(vec![1, 2]), "etc/x".to_string(), 0o644, true),
        built("/out/b", "usr/bin/b"),
    ];
    assert_eq!(strip_targets(DebugSymbols::Strip, &assets), vec![0, 2, 3]);
}

#[test]
fn keep_strips_nothing() {
    let mut assets = vec![built("/out/app", "usr/bin/app")];
    let targets = strip_targets(DebugSymbols::Keep, &assets);
    assert!(targets.is_empty());
    merge_debug_assets(&mut assets, vec![]);
    assert_eq!(assets.len(), 1);
    assert!(matches!(&assets[0].source, AssetSource::Path(p) if p == "/out/app"));
    assert!(assets[0].processed_from.is_none());
}

#[test]
fn strip_replaces_source_with_temp_path() {
    let ctx = context(DebugSymbols::Strip, None);
    let mut asset = built("/out/app", "usr/bin/app");
    let p = plan(&ctx, 0, &asset);
    assert_eq!(p.strip.program, "strip");
    assert_eq!(
        p.strip.args,
        vec![
            "--strip-unneeded",
            "--remove-section=.comment",
            "--remove-section=.note",
            "-o",
            "/out/debian/app.tmp0-stripped",
            "/out/app",
        ]
    );
    assert!(p.strip.cwd.is_none());
    assert!(p.debug.is_none());
    let debug = finish_artifact(&mut asset, p);
    assert!(debug.is_none());
    assert!(matches!(&asset.source, AssetSource::Path(s) if s == "/out/debian/app.tmp0-stripped"));
    let pf = asset.processed_from.as_ref().unwrap();
    assert_eq!(pf.action, "strip");
    assert_eq!(pf.original_path.as_deref(), Some("/out/app"));
    assert_eq!(asset.target_path, "usr/bin/app");
    assert!(asset.is_built);
}

#[test]
fn separate_makes_one_debug_file() {
    let ctx = context(DebugSymbols::Separate { compress: false }, None);
    let mut asset = built("/out/app", "usr/bin/app");
    let p = plan(&ctx, 3, &asset);
    let d = p.debug.as_ref().unwrap();
    assert_eq!(d.extract.program, "objcopy");
    assert_eq!(
        d.extract.args,
        vec!["--only-keep-debug", "/out/app", "/out/debian/app.debug"]
    );
    assert_eq!(d.link.args, vec!["--add-gnu-debuglink", "app.debug", "/out/debian/app.tmp3-stripped"]);
    assert_eq!(d.link.cwd.as_deref(), Some("/out/debian"));
    let debug = finish_artifact(&mut asset, p).unwrap();
    assert!(matches!(&debug.source, AssetSource::Path(s) if s == "/out/debian/app.debug"));
    assert_eq!(debug.target_path, "usr/lib/debug/usr/bin/app.debug");
    assert_eq!(debug.chmod, 0o644);
    assert!(!debug.is_built);
    let pf = debug.processed_from.as_ref().unwrap();
    assert_eq!(pf.action, "separate");
    assert_eq!(pf.original_path.as_deref(), Some("/out/app"));
}

#[test]
fn compress_asks_for_compression() {
    let ctx = context(DebugSymbols::Separate { compress: true }, None);
    let asset = built("/out/app", "usr/bin/app");
    let notes = Some(vec![Some(vec![0xAB, 0xCD, 0xEF])]);
    let p = plan_artifact(&ctx, 0, "/out/app", &asset, &notes).unwrap();
    let d = p.debug.unwrap();
    assert_eq!(
        d.extract.args,
        vec!["--only-keep-debug", "--compress-debug-sections=zstd", "/out/app", "/out/debian/cdef.debug"]
    );
    assert_eq!(d.link.args[1], "cdef.debug");
    assert_eq!(d.debug_asset.target_path, "usr/lib/debug/.build-id/ab/cdef.debug");
    assert_eq!(d.debug_asset.processed_from.unwrap().action, "compress");
}

#[test]
fn no_debug_file_without_separate() {
    let asset = built("/out/app", "usr/bin/app");
    let notes = Some(vec![Some(vec![0xAB, 0xCD, 0xEF])]);
    for policy in [DebugSymbols::Keep, DebugSymbols::Strip] {
        let ctx = context(policy, None);
        let p = plan_artifact(&ctx, 0, "/out/app", &asset, &notes).unwrap();
        assert!(p.debug.is_none());
        let p = plan_artifact(&ctx, 0, "/out/app", &asset, &None).unwrap();
        assert!(p.debug.is_none());
    }
}

#[test]
fn derived_files_get_no_debug_file() {
    let ctx = context(DebugSymbols::Separate { compress: false }, None);
    let asset = Asset::new(AssetSource::Path("/out/x".to_string()), "usr/bin/x".to_string(), 0o755, false);
    let p = plan_artifact(&ctx, 0, "/out/x", &asset, &None).unwrap();
    assert!(p.debug.is_none());
}

#[test]
fn same_stem_different_index_do_not_collide() {
    let ctx = context(DebugSymbols::Strip, None);
    let a = built("/out/a/app", "usr/bin/app");
    let b = built("/out/b/app", "usr/sbin/app");
    let pa = plan(&ctx, 0, &a);
    let pb = plan(&ctx, 1, &b);
    assert_ne!(pa.stripped_path, pb.stripped_path);
    assert_eq!(pa.stripped_path, "/out/debian/app.tmp0-stripped");
    assert_eq!(pb.stripped_path, "/out/debian/app.tmp1-stripped");
}

#[test]
fn path_without_stem_is_bad() {
    let ctx = context(DebugSymbols::Strip, None);
    let asset = built("/", "usr/bin/app");
    let r = plan_artifact(&ctx, 0, "/", &asset, &None);
    assert!(matches!(r, Err(StripError::BadPath { path }) if path == "/"));
}

#[test]
fn strip_failure_under_cross_target_names_target() {
    let ctx = context(DebugSymbols::Strip, Some("aarch64-unknown-linux-gnu"));
    let e = tool_error(&ctx, Step::Strip, "/out/app", ToolFailure::ExitedNonZero("exit status: 1".to_string()));
    match e {
        StripError::ToolExitedNonZero { tool, path, message } => {
            assert_eq!(tool, "strip");
            assert_eq!(path, "/out/app");
            assert_eq!(
                message,
                "strip: exit status: 1.\nhint: Target-specific strip commands are configured in [target.aarch64-unknown-linux-gnu] strip = { path = \"strip\" } in .cargo/config"
            );
            assert!(message.contains("aarch64-unknown-linux-gnu"));
        },
        other => panic!("unexpected {other:?}"),
    }
}

#[test]
fn extract_failure_hint_names_objcopy() {
    let ctx = context(DebugSymbols::Separate { compress: false }, Some("armv7-unknown-linux-gnueabihf"));
    let e = tool_error(&ctx, Step::Extract, "/out/app", ToolFailure::NotStarted("not found".to_string()));
    match e {
        StripError::ToolInvocationFailed { tool, path, message } => {
            assert_eq!(tool, "objcopy");
            assert_eq!(path, "/out/app");
            assert!(message.contains("objcopy = { path = \"objcopy\" }"));
            assert!(message.contains("[target.armv7-unknown-linux-gnueabihf]"));
        },
        other => panic!("unexpected {other:?}"),
    }
}

#[test]
fn failure_without_target_keeps_detail() {
    let ctx = context(DebugSymbols::Strip, None);
    let e = tool_error(&ctx, Step::Strip, "/out/app", ToolFailure::ExitedNonZero("exit status: 2".to_string()));
    assert!(matches!(e, StripError::ToolExitedNonZero { ref message, .. } if message == "exit status: 2"));
    let ctx = context(DebugSymbols::Strip, Some("x"));
    let e = tool_error(&ctx, Step::Link, "/out/app", ToolFailure::ExitedNonZero("exit status: 3".to_string()));
    assert!(matches!(e, StripError::ToolExitedNonZero { ref message, .. } if message == "exit status: 3"));
}

#[test]
fn missing_files_are_errors() {
    let ctx = context(DebugSymbols::Strip, None);
    assert!(matches!(missing_input_error("/out/app"), StripError::MissingInput { path } if path == "/out/app"));
    let e = missing_output_error(&ctx, Step::Strip, "/out/app", "/out/debian/app.tmp0-stripped");
    assert!(matches!(e, StripError::MissingToolOutput { tool, path, output }
        if tool == "strip" && path == "/out/app" && output == "/out/debian/app.tmp0-stripped"));
}

#[test]
fn debug_files_are_appended_in_order() {
    let mut assets = vec![built("/out/app", "usr/bin/app")];
    let produced = vec![
        Some(built("/out/debian/a.debug", "usr/lib/debug/a.debug")),
        None,
        Some(built("/out/debian/b.debug", "usr/lib/debug/b.debug")),
    ];
    merge_debug_assets(&mut assets, produced);
    let targets: Vec<&str> = assets.iter().map(|a| a.target_path.as_str()).collect();
    assert_eq!(targets, vec!["usr/bin/app", "usr/lib/debug/a.debug", "usr/lib/debug/b.debug"]);
}

#[test]
fn tools_default_and_override() {
    let (ctx, messages) = resolve_context(None, None, None, ".cargo/config".to_string(), "/o".to_string(), DebugSymbols::Strip);
    assert_eq!(ctx.strip_cmd, "strip");
    assert_eq!(ctx.objcopy_cmd, "objcopy");
    assert!(messages.is_empty());
    let (ctx, messages) = resolve_context(
        Some("aarch64-unknown-linux-gnu".to_string()),
        Some("aarch64-linux-gnu-strip".to_string()),
        None,
        "/p/.cargo/config.toml".to_string(),
        "/o".to_string(),
        DebugSymbols::Strip,
    );
    assert_eq!(ctx.strip_cmd, "aarch64-linux-gnu-strip");
    assert_eq!(ctx.objcopy_cmd, "objcopy");
    assert_eq!(messages, vec!["Using 'aarch64-linux-gnu-strip' for 'aarch64-unknown-linux-gnu'"]);
    assert_eq!(using_message(&"s".to_string(), &"t".to_string()), "Using 's' for 't'");
}

#[test]
fn steps_follow_in_order() {
    let ctx = context(DebugSymbols::Separate { compress: false }, None);
    let asset = built("/out/app", "usr/bin/app");
    let p = plan(&ctx, 0, &asset);
    assert!(matches!(first_action(), Action::Run(Step::Strip)));
    let ok = |step| StepReport { step, result: Ok(()), output_exists: true };
    assert!(matches!(next_action(&ctx, &p, "/out/app", ok(Step::Strip)), Action::Run(Step::Extract)));
    assert!(matches!(next_action(&ctx, &p, "/out/app", ok(Step::Extract)), Action::Run(Step::Link)));
    assert!(matches!(next_action(&ctx, &p, "/out/app", ok(Step::Link)), Action::Finish));
    assert_eq!(call_of(&p, Step::Extract).unwrap().args[0], "--only-keep-debug");
    assert_eq!(call_of(&p, Step::Link).unwrap().args[0], "--add-gnu-debuglink");

    let ctx = context(DebugSymbols::Strip, None);
    let p = plan(&ctx, 0, &asset);
    assert!(matches!(next_action(&ctx, &p, "/out/app", ok(Step::Strip)), Action::Finish));
    assert!(call_of(&p, Step::Extract).is_none());
    assert_eq!(call_of(&p, Step::Strip).unwrap().program, "strip");
}

#[test]
fn failed_or_silent_strip_stops_the_artifact() {
    let ctx = context(DebugSymbols::Strip, Some("aarch64-unknown-linux-gnu"));
    let asset = built("/out/app", "usr/bin/app");
    let p = plan(&ctx, 0, &asset);
    let failed = StepReport {
        step: Step::Strip,
        result: Err(ToolFailure::ExitedNonZero("exit status: 1".to_string())),
        output_exists: false,
    };
    match next_action(&ctx, &p, "/out/app", failed) {
        Action::Fail(StripError::ToolExitedNonZero { path, message, .. }) => {
            assert_eq!(path, "/out/app");
            assert!(message.contains("aarch64-unknown-linux-gnu"));
        },
        _ => panic!("expected a tool failure"),
    }
    let silent = StepReport { step: Step::Strip, result: Ok(()), output_exists: false };
    match next_action(&ctx, &p, "/out/app", silent) {
        Action::Fail(StripError::MissingToolOutput { tool, path, output }) => {
            assert_eq!(tool, "strip");
            assert_eq!(path, "/out/app");
            assert_eq!(output, "/out/debian/app.tmp0-stripped");
        },
        _ => panic!("expected a missing output"),
    }
}
