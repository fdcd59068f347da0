//! The decisions of the stripping stage: which artifacts are stripped, the tool
//! invocations for each, the records that result, and the errors reported.
use vstd::prelude::*;
use crate::identity::{
    debug_target_from_notes, debug_target_spec, lemma_debug_target_has_file_name, notes_view,
};
use crate::model::{Asset, AssetSource, DebugSymbols, ProcessedFrom, StripContext, StripError};
use crate::naming::{
    file_name, file_name_of, file_stem, file_stem_of, join, join_path, lemma_temp_paths_distinct,
    stripped_temp_name, stripped_temp_path,
};

verus! {

/// One run of an external tool.
#[derive(Debug)]
pub struct ToolCall {
    pub program: String,
    pub args: Vec<String>,
    /// Working directory; `None` keeps the caller's.
    pub cwd: Option<String>,
}

/// The tool invocations that split off debug information, and the record of the
/// debug file they produce.
pub struct DebugPlan {
    pub extract: ToolCall,
    pub link: ToolCall,
    pub debug_asset: Asset,
}

/// Everything that stripping one artifact does, in order: `strip`, then, when
/// present, `debug.extract` and `debug.link`.
pub struct ArtifactPlan {
    pub strip: ToolCall,
    pub stripped_path: String,
    pub debug: Option<DebugPlan>,
}

/// The steps that run a tool.
#[derive(Clone, Copy, Debug, PartialEq, Eq, Structural)]
pub enum Step {
    Strip,
    Extract,
    Link,
}

/// How a tool run failed.
#[derive(Debug)]
pub enum ToolFailure {
    /// The process could not be started; the text says why.
    NotStarted(String),
    /// The process exited unsuccessfully; the text gives its status.
    ExitedNonZero(String),
}

pub open spec fn strings_view(v: Seq<String>) -> Seq<Seq<char>> {
    v.map_values(|s: String| s@)
}

/// Whether debug information is kept in files of its own.
pub open spec fn separates(policy: DebugSymbols) -> bool {
    policy is Separate
}

/// Whether detached debug information is compressed.
pub open spec fn compresses(policy: DebugSymbols) -> bool {
    policy matches DebugSymbols::Separate { compress } && compress
}

/// Whether the stage strips `a`.
pub open spec fn selected(policy: DebugSymbols, a: Asset) -> bool {
    !(policy is Keep) && a.is_built && !a.source.symlink_only()
}

/// Whether stripping `a` also splits off its debug information.
pub open spec fn wants_debug(policy: DebugSymbols, a: Asset) -> bool {
    separates(policy) && a.is_built
}

pub open spec fn strip_args(out: Seq<char>, input: Seq<char>) -> Seq<Seq<char>> {
    seq![
        "--strip-unneeded"@,
        "--remove-section=.comment"@,
        "--remove-section=.note"@,
        "-o"@,
        out,
        input,
    ]
}

pub open spec fn extract_args(compress: bool, input: Seq<char>, out: Seq<char>) -> Seq<Seq<char>> {
    if compress {
        seq!["--only-keep-debug"@, "--compress-debug-sections=zstd"@, input, out]
    } else {
        seq!["--only-keep-debug"@, input, out]
    }
}

pub open spec fn link_args(debug_name: Seq<char>, stripped: Seq<char>) -> Seq<Seq<char>> {
    seq!["--add-gnu-debuglink"@, debug_name, stripped]
}

/// Action recorded on a detached debug file.
pub open spec fn debug_action(policy: DebugSymbols) -> Seq<char> {
    if compresses(policy) {
        "compress"@
    } else {
        "separate"@
    }
}

/// Where the stripped copy of the artifact at `index`, read from `input`, goes.
pub open spec fn stripped_path_spec(ctx: &StripContext, input: Seq<char>, index: nat) -> Option<
    Seq<char>,
> {
    match file_stem_of(input) {
        Some(stem) => Some(join_path(ctx.output_dir@, stripped_temp_name(stem, index))),
        None => None,
    }
}

pub open spec fn opt_notes_view(notes: Option<Vec<Option<Vec<u8>>>>) -> Option<
    Seq<Option<Seq<u8>>>,
> {
    match notes {
        Some(v) => Some(notes_view(v@)),
        None => None,
    }
}

/// What a plan for the artifact `a` at `index`, read from `input`, holds.
pub open spec fn plan_matches(
    ctx: &StripContext,
    index: nat,
    input: Seq<char>,
    a: Asset,
    notes: Option<Seq<Option<Seq<u8>>>>,
    p: ArtifactPlan,
) -> bool {
    &&& stripped_path_spec(ctx, input, index) == Some(p.stripped_path@)
    &&& p.strip.program@ == ctx.strip_cmd@
    &&& strings_view(p.strip.args@) == strip_args(p.stripped_path@, input)
    &&& p.strip.cwd.is_none()
    &&& (p.debug is Some <==> wants_debug(ctx.debug_symbols, a))
    &&& (p.debug matches Some(d) ==> {
        let target = debug_target_spec(notes, a.target_path@);
        let name = file_name_of(target).unwrap();
        let temp = join_path(ctx.output_dir@, name);
        &&& d.extract.program@ == ctx.objcopy_cmd@
        &&& strings_view(d.extract.args@) == extract_args(
            compresses(ctx.debug_symbols),
            input,
            temp,
        )
        &&& d.extract.cwd.is_none()
        &&& d.link.program@ == ctx.objcopy_cmd@
        &&& strings_view(d.link.args@) == link_args(name, p.stripped_path@)
        &&& d.link.cwd matches Some(c) && c@ == ctx.output_dir@
        &&& d.debug_asset.source.path_of() == Some(temp)
        &&& d.debug_asset.target_path@ == target
        &&& d.debug_asset.chmod == 0o644
        &&& !d.debug_asset.is_built
        &&& d.debug_asset.processed_from is Some
        &&& d.debug_asset.processed_from.unwrap().action@ == debug_action(ctx.debug_symbols)
        &&& d.debug_asset.processed_from.unwrap().original_path is Some
        &&& d.debug_asset.processed_from.unwrap().original_path.unwrap()@ == input
    })
}

/// Plans the stripping of `asset`, the artifact at position `index`, whose file
/// is at `input`. `notes` is what was read of its build identifier; it matters
/// only where debug information is split off.
pub fn plan_artifact(
    ctx: &StripContext,
    index: usize,
    input: &str,
    asset: &Asset,
    notes: &Option<Vec<Option<Vec<u8>>>>,
) -> (r: Result<ArtifactPlan, StripError>)
    ensures
        match r {
            Ok(p) => file_stem_of(input@) is Some && plan_matches(
                ctx,
                index as nat,
                input@,
                *asset,
                opt_notes_view(*notes),
                p,
            ),
            Err(e) => file_stem_of(input@) is None && (e matches StripError::BadPath {
                path,
            } && path@ == input@),
        },
{
    let stem = match file_stem(input) {
        Some(s) => s,
        None => {
            return Err(StripError::BadPath { path: String::from_str(input) });
        },
    };
    let stripped_path = stripped_temp_path(ctx.output_dir.as_str(), stem.as_str(), index);
    let strip = ToolCall {
        program: ctx.strip_cmd.clone(),
        args: vec![
            String::from_str("--strip-unneeded"),
            String::from_str("--remove-section=.comment"),
            String::from_str("--remove-section=.note"),
            String::from_str("-o"),
            stripped_path.clone(),
            String::from_str(input),
        ],
        cwd: None,
    };
    assert(strings_view(strip.args@) =~= strip_args(stripped_path@, input@));
    let compress = match ctx.debug_symbols {
        DebugSymbols::Separate { compress } => compress,
        _ => false,
    };
    let separate = match ctx.debug_symbols {
        DebugSymbols::Separate { .. } => true,
        _ => false,
    };
    if !(separate && asset.is_built) {
        return Ok(ArtifactPlan { strip, stripped_path, debug: None });
    }
    let target = debug_target_from_notes(notes, asset.target_path.as_str());
    proof {
        lemma_debug_target_has_file_name(opt_notes_view(*notes), asset.target_path@);
    }
    let name = match file_name(target.as_str()) {
        Some(n) => n,
        None => {
            return Err(StripError::BadPath { path: String::from_str(input) });
        },
    };
    let temp = join(ctx.output_dir.as_str(), name.as_str());
    let extract_list = if compress {
        vec![
            String::from_str("--only-keep-debug"),
            String::from_str("--compress-debug-sections=zstd"),
            String::from_str(input),
            temp.clone(),
        ]
    } else {
        vec![String::from_str("--only-keep-debug"), String::from_str(input), temp.clone()]
    };
    assert(strings_view(extract_list@) =~= extract_args(compress, input@, temp@));
    let extract = ToolCall { program: ctx.objcopy_cmd.clone(), args: extract_list, cwd: None };
    let link = ToolCall {
        program: ctx.objcopy_cmd.clone(),
        args: vec![String::from_str("--add-gnu-debuglink"), name.clone(), stripped_path.clone()],
        cwd: Some(ctx.output_dir.clone()),
    };
    assert(strings_view(link.args@) =~= link_args(name@, stripped_path@));
    let action: &str = if compress {
        "compress"
    } else {
        "separate"
    };
    let debug_asset = Asset::new(AssetSource::Path(temp), target, 0o644, false).processed(
        action,
        String::from_str(input),
    );
    Ok(ArtifactPlan { strip, stripped_path, debug: Some(DebugPlan { extract, link, debug_asset }) })
}

/// The command that a step runs.
pub open spec fn step_cmd(ctx: &StripContext, step: Step) -> Seq<char> {
    if step is Strip {
        ctx.strip_cmd@
    } else {
        ctx.objcopy_cmd@
    }
}

/// The configuration key that overrides a step's command.
pub open spec fn step_key(step: Step) -> Seq<char> {
    if step is Strip {
        "strip"@
    } else {
        "objcopy"@
    }
}

/// The message of a failed step: under a cross target, the strip and extract
/// steps add a hint on where their command is configured.
pub open spec fn failure_message(ctx: &StripContext, step: Step, detail: Seq<char>) -> Seq<char> {
    match ctx.target {
        Some(t) => if step is Link {
            detail
        } else {
            step_cmd(ctx, step) + ": "@ + detail
                + ".\nhint: Target-specific strip commands are configured in [target."@ + t@
                + "] "@ + step_key(step) + " = { path = \""@ + step_cmd(ctx, step) + "\" } in "@
                + ctx.config_path@
        },
        None => detail,
    }
}

/// Whether `e` is the error for a failed run of `step` on the artifact at `path`.
pub open spec fn is_tool_error(
    ctx: &StripContext,
    step: Step,
    path: Seq<char>,
    failure: ToolFailure,
    e: StripError,
) -> bool {
    match failure {
        ToolFailure::NotStarted(d) => e matches StripError::ToolInvocationFailed {
            tool,
            path: p,
            message,
        } && tool@ == step_cmd(ctx, step) && p@ == path && message@ == failure_message(
            ctx,
            step,
            d@,
        ),
        ToolFailure::ExitedNonZero(d) => e matches StripError::ToolExitedNonZero {
            tool,
            path: p,
            message,
        } && tool@ == step_cmd(ctx, step) && p@ == path && message@ == failure_message(
            ctx,
            step,
            d@,
        ),
    }
}

/// The error for a failed run of `step` on the artifact at `path`.
pub fn tool_error(ctx: &StripContext, step: Step, path: &str, failure: ToolFailure) -> (r:
    StripError)
    ensures
        is_tool_error(ctx, step, path@, failure, r),
{
    let cmd: &String = match step {
        Step::Strip => &ctx.strip_cmd,
        _ => &ctx.objcopy_cmd,
    };
    let key: &str = match step {
        Step::Strip => "strip",
        _ => "objcopy",
    };
    let detail = match &failure {
        ToolFailure::NotStarted(d) => d.clone(),
        ToolFailure::ExitedNonZero(d) => d.clone(),
    };
    let message = match &ctx.target {
        Some(t) => match step {
            Step::Link => detail,
            _ => cmd.clone().concat(": ").concat(detail.as_str()).concat(
                ".\nhint: Target-specific strip commands are configured in [target.",
            ).concat(t.as_str()).concat("] ").concat(key).concat(" = { path = \"").concat(
                cmd.as_str(),
            ).concat("\" } in ").concat(ctx.config_path.as_str()),
        },
        None => detail,
    };
    match failure {
        ToolFailure::NotStarted(_) => StripError::ToolInvocationFailed {
            tool: cmd.clone(),
            path: String::from_str(path),
            message,
        },
        ToolFailure::ExitedNonZero(_) => StripError::ToolExitedNonZero {
            tool: cmd.clone(),
            path: String::from_str(path),
            message,
        },
    }
}

/// The error for a run of `step` on the artifact at `path` that reported success
/// and left no file at `output`.
pub fn missing_output_error(ctx: &StripContext, step: Step, path: &str, output: &str) -> (r:
    StripError)
    ensures
        r matches StripError::MissingToolOutput { tool, path: p, output: o } && tool@ == step_cmd(
            ctx,
            step,
        ) && p@ == path@ && o@ == output@,
{
    let tool = match step {
        Step::Strip => ctx.strip_cmd.clone(),
        _ => ctx.objcopy_cmd.clone(),
    };
    StripError::MissingToolOutput { tool, path: String::from_str(path), output: String::from_str(output) }
}

/// The error for an artifact whose file is not on disk.
pub fn missing_input_error(path: &str) -> (r: StripError)
    ensures
        r matches StripError::MissingInput { path: p } && p@ == path@,
{
    StripError::MissingInput { path: String::from_str(path) }
}

/// Points `asset` at its stripped copy, records that it was stripped from its
/// former file, and hands out the debug file's record, if the plan made one.
pub fn finish_artifact(asset: &mut Asset, plan: ArtifactPlan) -> (r: Option<Asset>)
    ensures
        final(asset).source.path_of() == Some(plan.stripped_path@),
        final(asset).target_path == old(asset).target_path,
        final(asset).chmod == old(asset).chmod,
        final(asset).is_built == old(asset).is_built,
        final(asset).processed_from is Some,
        final(asset).processed_from.unwrap().action@ == "strip"@,
        match final(asset).processed_from.unwrap().original_path {
            Some(o) => old(asset).source.path_of() == Some(o@),
            None => old(asset).source.path_of().is_none(),
        },
        r == match plan.debug {
            Some(d) => Some(d.debug_asset),
            None => None,
        },
{
    let original_path = match &asset.source {
        AssetSource::Path(p) => Some(p.clone()),
        _ => None,
    };
    asset.source = AssetSource::Path(plan.stripped_path);
    asset.processed_from = Some(
        ProcessedFrom { original_path, action: String::from_str("strip") },
    );
    match plan.debug {
        Some(d) => Some(d.debug_asset),
        None => None,
    }
}

/// Positions of the artifacts that the stage strips, in increasing order.
pub fn strip_targets(policy: DebugSymbols, assets: &Vec<Asset>) -> (r: Vec<usize>)
    ensures
        forall|k: int|
            0 <= k < r@.len() ==> r@[k] < assets@.len() && selected(policy, assets@[r@[k] as int]),
        forall|k: int, l: int| 0 <= k < l < r@.len() ==> r@[k] < r@[l],
        forall|i: int| 0 <= i < assets@.len() && selected(policy, assets@[i]) ==> r@.contains(i as usize),
{
    let mut r: Vec<usize> = Vec::new();
    let keep = match policy {
        DebugSymbols::Keep => true,
        _ => false,
    };
    if keep {
        return r;
    }
    let mut i: usize = 0;
    while i < assets.len()
        invariant
            i <= assets@.len(),
            !(policy is Keep),
            forall|k: int|
                0 <= k < r@.len() ==> r@[k] < i && selected(policy, assets@[r@[k] as int]),
            forall|k: int, l: int| 0 <= k < l < r@.len() ==> r@[k] < r@[l],
            forall|j: int| 0 <= j < i && selected(policy, assets@[j]) ==> r@.contains(j as usize),
        decreases assets@.len() - i,
    {
        if assets[i].is_built && !assets[i].source.archive_as_symlink_only() {
            let ghost before = r@;
            r.push(i);
            assert(forall|j: usize| #[trigger] before.contains(j) ==> r@.contains(j)) by {
                assert(forall|k: int| 0 <= k < before.len() ==> r@[k] == before[k]);
            }
            assert(r@[r@.len() - 1] == i);
        }
        i = i + 1;
    }
    r
}

/// The records among `s`, in order.
pub open spec fn produced_assets(s: Seq<Option<Asset>>) -> Seq<Asset>
    decreases s.len(),
{
    if s.len() == 0 {
        Seq::empty()
    } else {
        produced_assets(s.drop_last()) + match s.last() {
            Some(a) => seq![a],
            None => Seq::empty(),
        }
    }
}

/// Appends to `assets` the debug files that stripping produced.
pub fn merge_debug_assets(assets: &mut Vec<Asset>, produced: Vec<Option<Asset>>)
    ensures
        final(assets)@ == old(assets)@ + produced_assets(produced@),
{
    let ghost all = produced@;
    let mut rest = produced;
    let mut k: usize = 0;
    let n: usize = rest.len();
    assert(all.subrange(0, 0) =~= Seq::<Option<Asset>>::empty());
    assert(all.subrange(0, all.len() as int) =~= all);
    while rest.len() > 0
        invariant
            k + rest@.len() == all.len(),
            all.len() == n,
            rest@ == all.subrange(k as int, all.len() as int),
            assets@ == old(assets)@ + produced_assets(all.subrange(0, k as int)),
        decreases rest@.len(),
    {
        let item = rest.remove(0);
        proof {
            assert(all.subrange(0, k + 1).drop_last() =~= all.subrange(0, k as int));
            assert(item == all[k as int]);
        }
        match item {
            Some(a) => {
                assets.push(a);
            },
            None => {},
        }
        proof {
            assert(rest@ =~= all.subrange(k + 1, all.len() as int));
        }
        k = k + 1;
        assert(assets@ =~= old(assets)@ + produced_assets(all.subrange(0, k as int)));
    }
}

/// The command for a tool: the per-target override where one is configured, else
/// the bare tool name.
pub open spec fn resolved_cmd(over: Option<String>, default: Seq<char>) -> Seq<char> {
    match over {
        Some(c) => c@,
        None => default,
    }
}

/// Settings of a run, from the per-target tool overrides that the configuration
/// gave for `target`. The messages announce each override in use.
pub fn resolve_context(
    target: Option<String>,
    strip_override: Option<String>,
    objcopy_override: Option<String>,
    config_path: String,
    output_dir: String,
    debug_symbols: DebugSymbols,
) -> (r: (StripContext, Vec<String>))
    ensures
        r.0.strip_cmd@ == resolved_cmd(strip_override, "strip"@),
        r.0.objcopy_cmd@ == resolved_cmd(objcopy_override, "objcopy"@),
        r.0.target == target,
        r.0.config_path == config_path,
        r.0.output_dir == output_dir,
        r.0.debug_symbols == debug_symbols,
        r.1@.len() == (if target is Some && objcopy_override is Some {
            1nat
        } else {
            0
        }) + (if target is Some && strip_override is Some {
            1nat
        } else {
            0
        }),
{
    let mut messages: Vec<String> = Vec::new();
    let objcopy_cmd = match objcopy_override {
        Some(c) => {
            match &target {
                Some(t) => {
                    messages.push(using_message(&c, t));
                },
                None => {},
            }
            c
        },
        None => String::from_str("objcopy"),
    };
    let strip_cmd = match strip_override {
        Some(c) => {
            match &target {
                Some(t) => {
                    messages.push(using_message(&c, t));
                },
                None => {},
            }
            c
        },
        None => String::from_str("strip"),
    };
    (StripContext { strip_cmd, objcopy_cmd, target, config_path, output_dir, debug_symbols }, messages)
}

/// `Using '<cmd>' for '<target>'`.
pub fn using_message(cmd: &String, target: &String) -> (r: String)
    ensures
        r@ == "Using '"@ + cmd@ + "' for '"@ + target@ + "'"@,
{
    String::from_str("Using '").concat(cmd.as_str()).concat("' for '").concat(target.as_str()).concat(
        "'",
    )
}

/// An artifact that is archived as a link only is never stripped, so no tool
/// runs for it and no debug file comes of it.
pub proof fn lemma_symlink_never_stripped(policy: DebugSymbols, a: Asset)
    requires
        a.source.symlink_only(),
    ensures
        !selected(policy, a),
{
}

/// Where debug information is kept separately and uncompressed, stripping a built
/// artifact yields exactly one debug file, recorded as `separate`.
pub proof fn lemma_separate_yields_one_debug_file(
    ctx: &StripContext,
    index: nat,
    input: Seq<char>,
    a: Asset,
    notes: Option<Seq<Option<Seq<u8>>>>,
    p: ArtifactPlan,
)
    requires
        ctx.debug_symbols == (DebugSymbols::Separate { compress: false }),
        a.is_built,
        plan_matches(ctx, index, input, a, notes, p),
    ensures
        p.debug is Some,
        p.debug.unwrap().debug_asset.processed_from.unwrap().action@ == "separate"@,
{
}

/// Where debug information is kept separately and compressed, the debug file is
/// recorded as `compress` and its extraction asks for compression.
pub proof fn lemma_compress_yields_compressed_debug_file(
    ctx: &StripContext,
    index: nat,
    input: Seq<char>,
    a: Asset,
    notes: Option<Seq<Option<Seq<u8>>>>,
    p: ArtifactPlan,
)
    requires
        ctx.debug_symbols == (DebugSymbols::Separate { compress: true }),
        a.is_built,
        plan_matches(ctx, index, input, a, notes, p),
    ensures
        p.debug is Some,
        p.debug.unwrap().debug_asset.processed_from.unwrap().action@ == "compress"@,
        strings_view(p.debug.unwrap().extract.args@).contains("--compress-debug-sections=zstd"@),
{
    let args = strings_view(p.debug.unwrap().extract.args@);
    assert(args[1] == "--compress-debug-sections=zstd"@);
}

/// Unless debug information is kept separately, no debug file is made, whatever
/// is known of the build identifier.
pub proof fn lemma_no_debug_file_unless_separate(
    ctx: &StripContext,
    index: nat,
    input: Seq<char>,
    a: Asset,
    notes: Option<Seq<Option<Seq<u8>>>>,
    p: ArtifactPlan,
)
    requires
        !separates(ctx.debug_symbols),
        plan_matches(ctx, index, input, a, notes, p),
    ensures
        p.debug is None,
{
}

/// Under a cross target, a failed strip or extract step names the target in its
/// message.
pub proof fn lemma_failure_names_target(ctx: &StripContext, step: Step, detail: Seq<char>)
    requires
        ctx.target is Some,
        !(step is Link),
    ensures
        exists|k: int|
            0 <= k && k + ctx.target.unwrap()@.len() <= failure_message(ctx, step, detail).len()
                && #[trigger] failure_message(ctx, step, detail).subrange(
                k,
                k + ctx.target.unwrap()@.len(),
            ) == ctx.target.unwrap()@,
{
    let t = ctx.target.unwrap()@;
    let pre = step_cmd(ctx, step) + ": "@ + detail
        + ".\nhint: Target-specific strip commands are configured in [target."@;
    let msg = failure_message(ctx, step, detail);
    let post = "] "@ + step_key(step) + " = { path = \""@ + step_cmd(ctx, step) + "\" } in "@
        + ctx.config_path@;
    assert(msg =~= pre + t + post);
    assert(msg.subrange(pre.len() as int, (pre.len() + t.len()) as int) =~= t);
}

/// What the runner of one artifact's plan does next.
pub enum Action {
    /// Run the tool of this step.
    Run(Step),
    /// All steps are done: apply the plan.
    Finish,
    /// Stop with this error.
    Fail(StripError),
}

/// How a step went: the tool's result, and whether the step's output file was
/// found afterwards.
pub struct StepReport {
    pub step: Step,
    pub result: Result<(), ToolFailure>,
    pub output_exists: bool,
}

/// The first thing to do for a plan: strip.
pub fn first_action() -> (r: Action)
    ensures
        r matches Action::Run(Step::Strip),
{
    Action::Run(Step::Strip)
}

/// What follows a step of `plan` on the artifact at `input`. A failed tool
/// stops the artifact; so does a strip that reported success and left no output.
/// Otherwise strip is followed by extract and link where the plan splits off
/// debug information.
pub fn next_action(ctx: &StripContext, plan: &ArtifactPlan, input: &str, report: StepReport) -> (r:
    Action)
    ensures
        match report.result {
            Err(f) => r matches Action::Fail(e) && is_tool_error(ctx, report.step, input@, f, e),
            Ok(()) => match report.step {
                Step::Strip => if !report.output_exists {
                    r matches Action::Fail(e) && e matches StripError::MissingToolOutput {
                        tool,
                        path,
                        output,
                    } && tool@ == ctx.strip_cmd@ && path@ == input@ && output@ == plan.stripped_path@
                } else if plan.debug is Some {
                    r matches Action::Run(Step::Extract)
                } else {
                    r matches Action::Finish
                },
                Step::Extract => r matches Action::Run(Step::Link),
                Step::Link => r matches Action::Finish,
            },
        },
{
    match report.result {
        Err(f) => Action::Fail(tool_error(ctx, report.step, input, f)),
        Ok(()) => match report.step {
            Step::Strip => {
                if !report.output_exists {
                    Action::Fail(
                        missing_output_error(ctx, Step::Strip, input, plan.stripped_path.as_str()),
                    )
                } else if plan.debug.is_some() {
                    Action::Run(Step::Extract)
                } else {
                    Action::Finish
                }
            },
            Step::Extract => Action::Run(Step::Link),
            Step::Link => Action::Finish,
        },
    }
}

/// The tool invocation of `step` in `plan`, where the plan has one.
pub fn call_of(plan: &ArtifactPlan, step: Step) -> (r: Option<&ToolCall>)
    ensures
        match step {
            Step::Strip => r == Some(&plan.strip),
            Step::Extract => match plan.debug {
                Some(d) => r == Some(&d.extract),
                None => r is None,
            },
            Step::Link => match plan.debug {
                Some(d) => r == Some(&d.link),
                None => r is None,
            },
        },
{
    match step {
        Step::Strip => Some(&plan.strip),
        Step::Extract => match &plan.debug {
            Some(d) => Some(&d.extract),
            None => None,
        },
        Step::Link => match &plan.debug {
            Some(d) => Some(&d.link),
            None => None,
        },
    }
}

/// Merging adds one debug file for each artifact that produced one, and none for
/// an artifact that produced none.
pub proof fn lemma_produced_count(s: Seq<Option<Asset>>)
    ensures
        (forall|k: int| 0 <= k < s.len() ==> #[trigger] s[k] is Some) ==> produced_assets(s).len()
            == s.len(),
        (forall|k: int| 0 <= k < s.len() ==> #[trigger] s[k] is None) ==> produced_assets(s).len()
            == 0,
    decreases s.len(),
{
    if s.len() > 0 {
        let t = s.drop_last();
        assert(forall|k: int| 0 <= k < t.len() ==> t[k] == s[k]);
        lemma_produced_count(t);
        if forall|k: int| 0 <= k < s.len() ==> #[trigger] s[k] is Some {
            assert(s[s.len() - 1] is Some);
            assert forall|k: int| 0 <= k < t.len() implies #[trigger] t[k] is Some by {
                assert(s[k] is Some);
            }
        }
        if forall|k: int| 0 <= k < s.len() ==> #[trigger] s[k] is None {
            assert(s[s.len() - 1] is None);
            assert forall|k: int| 0 <= k < t.len() implies #[trigger] t[k] is None by {
                assert(s[k] is None);
            }
        }
    }
}

/// Plans for two artifacts at different positions never write the same stripped
/// file, even where the artifacts share a file stem.
pub proof fn lemma_plans_do_not_collide(
    ctx: &StripContext,
    i: nat,
    j: nat,
    input1: Seq<char>,
    input2: Seq<char>,
    a1: Asset,
    a2: Asset,
    notes1: Option<Seq<Option<Seq<u8>>>>,
    notes2: Option<Seq<Option<Seq<u8>>>>,
    p1: ArtifactPlan,
    p2: ArtifactPlan,
)
    requires
        i != j,
        file_stem_of(input1) == file_stem_of(input2),
        plan_matches(ctx, i, input1, a1, notes1, p1),
        plan_matches(ctx, j, input2, a2, notes2, p2),
    ensures
        p1.stripped_path@ != p2.stripped_path@,
{
    let stem = file_stem_of(input1).unwrap();
    lemma_temp_paths_distinct(ctx.output_dir@, stem, i, j);
}

} // verus!
