//! Plans of the commands run against the build container, and what each
//! command's outcome decides.

use vstd::prelude::*;
use crate::exit_code::{exit_code_in, extract_exit_code};
use crate::text::{joined, same_text, trimmed, trimmed_chars, chars_of, same_chars, contains_text, occurs_at, is_white_space, trim_start, trim_end};

verus! {

broadcast use vstd::string::group_string_axioms;

/// Where and how the build container runs.
pub struct DockerSettings {
    pub container: String,
    pub image: String,
    pub compile_timeout: String,
    pub cpus: String,
    pub memory: String,
}

/// `value`, or `default` when it is not set.
pub open spec fn or_default(value: Option<String>, default: Seq<char>) -> Seq<char> {
    match value {
        Some(v) => v@,
        None => default,
    }
}

fn value_or(value: Option<String>, default: &str) -> (r: String)
    ensures
        r@ == or_default(value, default@),
{
    match value {
        Some(v) => v,
        None => default.to_owned(),
    }
}

impl DockerSettings {
    /// The settings, each taken from its configured value where one is set
    /// and from the built-in default otherwise.
    pub fn configured(
        container: Option<String>,
        image: Option<String>,
        compile_timeout: Option<String>,
        cpus: Option<String>,
        memory: Option<String>,
    ) -> (r: Self)
        ensures
            r.container@ == or_default(container, "build-container"@),
            r.image@ == or_default(image, "build-container"@),
            r.compile_timeout@ == or_default(compile_timeout, "300s"@),
            r.cpus@ == or_default(cpus, "2"@),
            r.memory@ == or_default(memory, "2g"@),
    {
        DockerSettings {
            container: value_or(container, "build-container"),
            image: value_or(image, "build-container"),
            compile_timeout: value_or(compile_timeout, "300s"),
            cpus: value_or(cpus, "2"),
            memory: value_or(memory, "2g"),
        }
    }
}

/// How a command that ran ended.
pub struct CommandOutput {
    pub success: bool,
    pub code: Option<i32>,
    pub stdout: Vec<u8>,
    pub stdout_text: String,
    pub stderr_text: String,
}

/// What a job asks for next: run a command (with the job to resume with its
/// outcome), or nothing more, with the job's result.
pub enum Progress<J, T> {
    Run(J, Vec<String>),
    Finished(T),
}

/// The arguments of a command, as texts.
pub open spec fn args_view(v: Vec<String>) -> Seq<Seq<char>> {
    v@.map_values(|s: String| s@)
}

/// A job's result that is success or an error text, as texts.
pub open spec fn unit_view(r: Result<(), String>) -> Result<(), Seq<char>> {
    match r {
        Ok(_) => Ok(()),
        Err(e) => Err(e@),
    }
}

/// The job finished with `expected`.
pub open spec fn finishes<J>(p: Progress<J, Result<(), String>>, expected: Result<(), Seq<char>>) -> bool {
    p matches Progress::Finished(r) && unit_view(r) == expected
}

fn arg(s: &str) -> (r: String)
    ensures
        r@ == s@,
{
    s.to_owned()
}

/// The directory of a workspace inside the container.
pub open spec fn container_dir(uuid: Seq<char>) -> Seq<char> {
    "/var/code/"@ + uuid
}

/// The command that asks whether the container runs.
pub open spec fn inspect_args(s: DockerSettings) -> Seq<Seq<char>> {
    seq!["inspect"@, "-f"@, "{{.State.Running}}"@, s.container@]
}

/// The command that removes a stopped container.
pub open spec fn remove_args(s: DockerSettings) -> Seq<Seq<char>> {
    seq!["rm"@, "-f"@, s.container@]
}

/// The command that starts the container: limited CPUs and memory, no network.
pub open spec fn start_args(s: DockerSettings) -> Seq<Seq<char>> {
    seq![
        "run"@,
        "-d"@,
        "--cpus"@,
        s.cpus@,
        "--memory"@,
        s.memory@,
        "--network"@,
        "none"@,
        "--name"@,
        s.container@,
        s.image@,
        "sleep"@,
        "infinity"@,
    ]
}

/// The container reports that it runs: its inspected state, trimmed, is `true`.
pub open spec fn reports_running(stdout_text: Seq<char>) -> bool {
    trimmed(stdout_text) == "true"@
}

/// Whether the inspected state of the container says that it runs.
pub fn is_reported_running(stdout_text: &str) -> (r: bool)
    ensures
        r == reports_running(stdout_text@),
{
    let t = trimmed_chars(stdout_text);
    let expected = chars_of("true");
    same_chars(&t, &expected)
}

/// The steps of bringing the build container up.
pub enum EnsureStage {
    Inspecting,
    Removing,
    Starting,
}

/// Brings the build container up when it does not run.
pub struct EnsureRunning {
    pub settings: DockerSettings,
    pub stage: EnsureStage,
}

/// One step of `EnsureRunning`: after inspecting, a container that runs is
/// left alone; otherwise it is removed (whatever came of that) and started.
pub open spec fn ensure_step(
    job: EnsureRunning,
    outcome: Result<CommandOutput, String>,
    p: Progress<EnsureRunning, Result<(), String>>,
) -> bool {
    let s = job.settings;
    match job.stage {
        EnsureStage::Inspecting => match outcome {
            Err(e) => finishes(p, Err("docker not available: "@ + e@)),
            Ok(out) => if reports_running(out.stdout_text@) {
                finishes(p, Ok(()))
            } else {
                p matches Progress::Run(j, args) && j.stage is Removing && j.settings == s
                    && args_view(args) == remove_args(s)
            },
        },
        EnsureStage::Removing => p matches Progress::Run(j, args) && j.stage is Starting
            && j.settings == s && args_view(args) == start_args(s),
        EnsureStage::Starting => match outcome {
            Err(e) => finishes(p, Err("cannot start container: "@ + e@)),
            Ok(out) => if out.success {
                finishes(p, Ok(()))
            } else {
                finishes(p, Err("container start failed: "@ + out.stderr_text@))
            },
        },
    }
}

/// Starts by inspecting whether the container runs.
pub fn ensure_running(settings: DockerSettings) -> (r: (EnsureRunning, Vec<String>))
    ensures
        r.0.stage is Inspecting,
        r.0.settings == settings,
        args_view(r.1) == inspect_args(settings),
{
    let mut args: Vec<String> = Vec::new();
    args.push(arg("inspect"));
    args.push(arg("-f"));
    args.push(arg("{{.State.Running}}"));
    args.push(settings.container.clone());
    assert(args_view(args) =~= inspect_args(settings));
    (EnsureRunning { settings, stage: EnsureStage::Inspecting }, args)
}

impl EnsureRunning {
    /// Takes the outcome of the last command and decides what comes next.
    pub fn resume(self, outcome: Result<CommandOutput, String>) -> (p: Progress<
        EnsureRunning,
        Result<(), String>,
    >)
        ensures
            ensure_step(self, outcome, p),
    {
        let ghost job = self;
        match self.stage {
            EnsureStage::Inspecting => match outcome {
                Err(e) => Progress::Finished(Err(joined("docker not available: ", e.as_str()))),
                Ok(out) => if is_reported_running(out.stdout_text.as_str()) {
                    Progress::Finished(Ok(()))
                } else {
                    let mut args: Vec<String> = Vec::new();
                    args.push(arg("rm"));
                    args.push(arg("-f"));
                    args.push(self.settings.container.clone());
                    assert(args_view(args) =~= remove_args(job.settings));
                    Progress::Run(EnsureRunning { settings: self.settings, stage: EnsureStage::Removing }, args)
                },
            },
            EnsureStage::Removing => {
                let s = &self.settings;
                let mut args: Vec<String> = Vec::new();
                args.push(arg("run"));
                args.push(arg("-d"));
                args.push(arg("--cpus"));
                args.push(s.cpus.clone());
                args.push(arg("--memory"));
                args.push(s.memory.clone());
                args.push(arg("--network"));
                args.push(arg("none"));
                args.push(arg("--name"));
                args.push(s.container.clone());
                args.push(s.image.clone());
                args.push(arg("sleep"));
                args.push(arg("infinity"));
                assert(args_view(args) =~= start_args(job.settings));
                Progress::Run(EnsureRunning { settings: self.settings, stage: EnsureStage::Starting }, args)
            },
            EnsureStage::Starting => match outcome {
                Err(e) => Progress::Finished(Err(joined("cannot start container: ", e.as_str()))),
                Ok(out) => if out.success {
                    Progress::Finished(Ok(()))
                } else {
                    Progress::Finished(Err(joined("container start failed: ", out.stderr_text.as_str())))
                },
            },
        }
    }
}


/// A container start that succeeded brings the container up, whatever the
/// command printed; only a start that failed is an error, which carries what
/// the command wrote to its error stream.
pub proof fn law_started_container_is_up(
    job: EnsureRunning,
    out: CommandOutput,
    p: Progress<EnsureRunning, Result<(), String>>,
)
    requires
        job.stage is Starting,
        ensure_step(job, Ok(out), p),
    ensures
        out.success <==> (p matches Progress::Finished(r) && r is Ok),
        !out.success ==> (p matches Progress::Finished(Err(e)) && e@ == "container start failed: "@
            + out.stderr_text@),
{
}

/// Two starts that both succeeded, or both failed with the same error
/// output, end alike, whatever else their outputs hold.
pub proof fn law_start_ignores_printed_output(
    job: EnsureRunning,
    out1: CommandOutput,
    out2: CommandOutput,
    p1: Progress<EnsureRunning, Result<(), String>>,
    p2: Progress<EnsureRunning, Result<(), String>>,
)
    requires
        job.stage is Starting,
        ensure_step(job, Ok(out1), p1),
        ensure_step(job, Ok(out2), p2),
        out1.success == out2.success,
        out1.stderr_text@ == out2.stderr_text@,
    ensures
        (p1 matches Progress::Finished(r1) && p2 matches Progress::Finished(r2) && unit_view(r1)
            == unit_view(r2)),
{
}

/// The container is started with its CPU and memory limits and without a
/// network: the start command passes `--cpus` with the configured CPUs,
/// `--memory` with the configured memory and `--network none`, and runs the
/// configured image under the configured name.
pub proof fn law_start_is_limited_and_offline(s: DockerSettings)
    ensures
        exists|i: int| 0 <= i && i + 1 < start_args(s).len() && #[trigger] start_args(s)[i] == "--cpus"@
            && start_args(s)[i + 1] == s.cpus@,
        exists|i: int| 0 <= i && i + 1 < start_args(s).len() && #[trigger] start_args(s)[i] == "--memory"@
            && start_args(s)[i + 1] == s.memory@,
        exists|i: int| 0 <= i && i + 1 < start_args(s).len() && #[trigger] start_args(s)[i] == "--network"@
            && start_args(s)[i + 1] == "none"@,
        exists|i: int| 0 <= i && i + 1 < start_args(s).len() && #[trigger] start_args(s)[i] == "--name"@
            && start_args(s)[i + 1] == s.container@,
        start_args(s)[0] == "run"@ && start_args(s)[1] == "-d"@,
        start_args(s).contains(s.image@),
{
    let a = start_args(s);
    assert(a[2] == "--cpus"@ && a[3] == s.cpus@);
    assert(a[4] == "--memory"@ && a[5] == s.memory@);
    assert(a[6] == "--network"@ && a[7] == "none"@);
    assert(a[8] == "--name"@ && a[9] == s.container@);
    assert(a[10] == s.image@);
}

/// A container whose inspection succeeded and reports it running is left as
/// it is; one that does not is removed before anything else; a failed
/// inspection means docker is not available.
pub proof fn law_inspection_decides(
    job: EnsureRunning,
    outcome: Result<CommandOutput, String>,
    p: Progress<EnsureRunning, Result<(), String>>,
)
    requires
        job.stage is Inspecting,
        ensure_step(job, outcome, p),
    ensures
        outcome is Err ==> (p matches Progress::Finished(r) && r is Err),
        outcome matches Ok(out) ==> (reports_running(out.stdout_text@) <==> (p matches Progress::Finished(r)
            && r is Ok)),
        outcome matches Ok(out) && !reports_running(out.stdout_text@) ==> (p matches Progress::Run(
            j,
            args,
        ) && j.stage is Removing && args_view(args)[0] == "rm"@ && args_view(args).last()
            == job.settings.container@),
        reports_running("true"@),
{
    reveal_strlit("true");
    let t = "true"@;
    assert(!is_white_space(t[0]) && !is_white_space(t.last()));
    assert(trim_start(t) == t);
    assert(trim_end(t) == t);
}

/// The steps of handing a workspace to the container.
pub enum CopyStage {
    MakingRoot,
    Copying,
    Granting,
}

/// Copies a local workspace into the container and hands it to the build user.
pub struct CopyWorkspace {
    pub settings: DockerSettings,
    pub uuid: String,
    pub stage: CopyStage,
}

/// The command that makes the container's code directory.
pub open spec fn make_root_args(s: DockerSettings) -> Seq<Seq<char>> {
    seq!["exec"@, s.container@, "mkdir"@, "-p"@, "/var/code"@]
}

/// The command that copies a local workspace into the container.
pub open spec fn copy_args(s: DockerSettings, uuid: Seq<char>) -> Seq<Seq<char>> {
    seq!["cp"@, "./workspace/"@ + uuid, s.container@ + ":/var/code/"@]
}

/// The command that hands a workspace in the container to the build user.
pub open spec fn grant_args(s: DockerSettings, uuid: Seq<char>) -> Seq<Seq<char>> {
    seq!["exec"@, "-u"@, "root"@, s.container@, "chown"@, "-R"@, "builder:builder"@, container_dir(uuid)]
}

/// One step of `CopyWorkspace`: the root directory is made (whatever came of
/// that), the workspace copied, then handed to the build user; a command that
/// could not run, or failed, ends the job with its error.
pub open spec fn copy_step(
    job: CopyWorkspace,
    outcome: Result<CommandOutput, String>,
    p: Progress<CopyWorkspace, Result<(), String>>,
) -> bool {
    let s = job.settings;
    let id = job.uuid@;
    match job.stage {
        CopyStage::MakingRoot => p matches Progress::Run(j, args) && j.stage is Copying
            && j.settings == s && j.uuid == job.uuid && args_view(args) == copy_args(s, id),
        CopyStage::Copying => match outcome {
            Err(e) => finishes(p, Err("docker cp: "@ + e@)),
            Ok(out) => if out.success {
                p matches Progress::Run(j, args) && j.stage is Granting && j.settings == s
                    && j.uuid == job.uuid && args_view(args) == grant_args(s, id)
            } else {
                finishes(p, Err(out.stderr_text@))
            },
        },
        CopyStage::Granting => match outcome {
            Err(e) => finishes(p, Err("chown failed: "@ + e@)),
            Ok(out) => if out.success {
                finishes(p, Ok(()))
            } else {
                finishes(p, Err(out.stderr_text@))
            },
        },
    }
}

/// Starts by making the containers' code directory.
pub fn copy_workspace(settings: DockerSettings, uuid: String) -> (r: (CopyWorkspace, Vec<String>))
    ensures
        r.0.stage is MakingRoot,
        r.0.settings == settings,
        r.0.uuid == uuid,
        args_view(r.1) == make_root_args(settings),
{
    let mut args: Vec<String> = Vec::new();
    args.push(arg("exec"));
    args.push(settings.container.clone());
    args.push(arg("mkdir"));
    args.push(arg("-p"));
    args.push(arg("/var/code"));
    assert(args_view(args) =~= make_root_args(settings));
    (CopyWorkspace { settings, uuid, stage: CopyStage::MakingRoot }, args)
}

impl CopyWorkspace {
    /// Takes the outcome of the last command and decides what comes next.
    pub fn resume(self, outcome: Result<CommandOutput, String>) -> (p: Progress<
        CopyWorkspace,
        Result<(), String>,
    >)
        ensures
            copy_step(self, outcome, p),
    {
        let ghost job = self;
        match self.stage {
            CopyStage::MakingRoot => {
                let mut args: Vec<String> = Vec::new();
                args.push(arg("cp"));
                args.push(joined("./workspace/", self.uuid.as_str()));
                args.push(joined(self.settings.container.as_str(), ":/var/code/"));
                assert(args_view(args) =~= copy_args(job.settings, job.uuid@));
                Progress::Run(
                    CopyWorkspace { settings: self.settings, uuid: self.uuid, stage: CopyStage::Copying },
                    args,
                )
            },
            CopyStage::Copying => match outcome {
                Err(e) => Progress::Finished(Err(joined("docker cp: ", e.as_str()))),
                Ok(out) => if out.success {
                    let mut args: Vec<String> = Vec::new();
                    args.push(arg("exec"));
                    args.push(arg("-u"));
                    args.push(arg("root"));
                    args.push(self.settings.container.clone());
                    args.push(arg("chown"));
                    args.push(arg("-R"));
                    args.push(arg("builder:builder"));
                    args.push(joined("/var/code/", self.uuid.as_str()));
                    assert(args_view(args) =~= grant_args(job.settings, job.uuid@));
                    Progress::Run(
                        CopyWorkspace { settings: self.settings, uuid: self.uuid, stage: CopyStage::Granting },
                        args,
                    )
                } else {
                    Progress::Finished(Err(out.stderr_text))
                },
            },
            CopyStage::Granting => match outcome {
                Err(e) => Progress::Finished(Err(joined("chown failed: ", e.as_str()))),
                Ok(out) => if out.success {
                    Progress::Finished(Ok(()))
                } else {
                    Progress::Finished(Err(out.stderr_text))
                },
            },
        }
    }
}

/// The last step of a copy, handing the workspace to the build user, ends
/// the copy with success exactly when that command succeeded; a failed one
/// ends it with what the command wrote to its error stream.
pub proof fn law_granted_copy_succeeds(
    job: CopyWorkspace,
    out: CommandOutput,
    p: Progress<CopyWorkspace, Result<(), String>>,
)
    requires
        job.stage is Granting,
        copy_step(job, Ok(out), p),
    ensures
        out.success <==> (p matches Progress::Finished(r) && r is Ok),
        !out.success ==> (p matches Progress::Finished(Err(e)) && e@ == out.stderr_text@),
{
}

/// A copy whose commands all ran and succeeded ends with success: from its
/// start, whatever came of making the root directory, a successful copy and
/// a successful hand-over finish the job with `Ok`.
pub proof fn law_copy_with_succeeding_commands_succeeds(
    job: CopyWorkspace,
    root: Result<CommandOutput, String>,
    p1: Progress<CopyWorkspace, Result<(), String>>,
    copied: CommandOutput,
    p2: Progress<CopyWorkspace, Result<(), String>>,
    granted: CommandOutput,
    p3: Progress<CopyWorkspace, Result<(), String>>,
)
    requires
        job.stage is MakingRoot,
        copy_step(job, root, p1),
        p1 matches Progress::Run(j1, _) && copy_step(j1, Ok(copied), p2),
        p2 matches Progress::Run(j2, _) && copy_step(j2, Ok(granted), p3),
        copied.success,
        granted.success,
    ensures
        p3 matches Progress::Finished(r) && r is Ok,
{
}

/// The shell script that builds a workspace of the given source type.
pub open spec fn compile_script(source_type: Seq<char>) -> Option<Seq<char>> {
    if source_type == "c"@ {
        Some("mkdir -p output && ( gcc $(find . -name '*.c' -not -path './output/*' -not -path '*/target/*') -o output/main ) > output/build.log 2>&1; STATUS=$?; echo \"===EXIT_CODE:${STATUS}===\" >> output/build.log; exit $STATUS"@)
    } else if source_type == "cpp"@ {
        Some("mkdir -p output && ( g++ $(find . \\( -name '*.cpp' -o -name '*.cc' -o -name '*.cxx' \\) -not -path './output/*' -not -path '*/target/*') -o output/main ) > output/build.log 2>&1; STATUS=$?; echo \"===EXIT_CODE:${STATUS}===\" >> output/build.log; exit $STATUS"@)
    } else if source_type == "rust"@ {
        Some("mkdir -p output && ( cargo build --release && find target/release -maxdepth 1 -type f -perm /111 -exec cp {} output/main \\; ) > output/build.log 2>&1; STATUS=$?; echo \"===EXIT_CODE:${STATUS}===\" >> output/build.log; exit $STATUS"@)
    } else {
        None
    }
}

/// `pat` occurs in `s` at `i`, shown by comparing the two.
proof fn lemma_occurs(s: Seq<char>, pat: Seq<char>, i: int)
    requires
        0 <= i,
        i + pat.len() <= s.len(),
        forall|k: int| 0 <= k < pat.len() ==> s[i + k] == #[trigger] pat[k],
    ensures
        contains_text(s, pat),
{
    assert(s.subrange(i, i + pat.len()) =~= pat);
    assert(occurs_at(s, pat, i));
}

/// Exactly the source types `c`, `cpp` and `rust` can be built. The C script
/// hands every `.c` file to `gcc`; the C++ script hands every `.cpp`, `.cc`
/// and `.cxx` file to `g++`; the Rust script runs `cargo build --release`.
pub proof fn law_build_scripts_select_sources(source_type: Seq<char>)
    ensures
        compile_script(source_type) is Some <==> (source_type == "c"@ || source_type == "cpp"@
            || source_type == "rust"@),
        compile_script("c"@) matches Some(t) && contains_text(t, "gcc "@) && contains_text(
            t,
            "-name '*.c'"@,
        ),
        compile_script("cpp"@) matches Some(t) && contains_text(t, "g++ "@) && contains_text(
            t,
            "-name '*.cpp'"@,
        ) && contains_text(t, "-name '*.cc'"@) && contains_text(t, "-name '*.cxx'"@),
        compile_script("rust"@) matches Some(t) && contains_text(t, "cargo build --release"@),
{
    reveal_strlit("c");
    reveal_strlit("cpp");
    reveal_strlit("rust");
    reveal_strlit("mkdir -p output && ( gcc $(find . -name '*.c' -not -path './output/*' -not -path '*/target/*') -o output/main ) > output/build.log 2>&1; STATUS=$?; echo \"===EXIT_CODE:${STATUS}===\" >> output/build.log; exit $STATUS");
    reveal_strlit("mkdir -p output && ( g++ $(find . \\( -name '*.cpp' -o -name '*.cc' -o -name '*.cxx' \\) -not -path './output/*' -not -path '*/target/*') -o output/main ) > output/build.log 2>&1; STATUS=$?; echo \"===EXIT_CODE:${STATUS}===\" >> output/build.log; exit $STATUS");
    reveal_strlit("mkdir -p output && ( cargo build --release && find target/release -maxdepth 1 -type f -perm /111 -exec cp {} output/main \\; ) > output/build.log 2>&1; STATUS=$?; echo \"===EXIT_CODE:${STATUS}===\" >> output/build.log; exit $STATUS");
    reveal_strlit("gcc ");
    reveal_strlit("-name '*.c'");
    reveal_strlit("g++ ");
    reveal_strlit("-name '*.cpp'");
    reveal_strlit("-name '*.cc'");
    reveal_strlit("-name '*.cxx'");
    reveal_strlit("cargo build --release");
    assert("cpp"@.len() != "c"@.len());
    assert("rust"@.len() != "c"@.len() && "rust"@.len() != "cpp"@.len());
    let c = "mkdir -p output && ( gcc $(find . -name '*.c' -not -path './output/*' -not -path '*/target/*') -o output/main ) > output/build.log 2>&1; STATUS=$?; echo \"===EXIT_CODE:${STATUS}===\" >> output/build.log; exit $STATUS"@;
    let cpp = "mkdir -p output && ( g++ $(find . \\( -name '*.cpp' -o -name '*.cc' -o -name '*.cxx' \\) -not -path './output/*' -not -path '*/target/*') -o output/main ) > output/build.log 2>&1; STATUS=$?; echo \"===EXIT_CODE:${STATUS}===\" >> output/build.log; exit $STATUS"@;
    let r = "mkdir -p output && ( cargo build --release && find target/release -maxdepth 1 -type f -perm /111 -exec cp {} output/main \\; ) > output/build.log 2>&1; STATUS=$?; echo \"===EXIT_CODE:${STATUS}===\" >> output/build.log; exit $STATUS"@;
    lemma_occurs(c, "gcc "@, 21);
    lemma_occurs(c, "-name '*.c'"@, 34);
    lemma_occurs(cpp, "g++ "@, 21);
    lemma_occurs(cpp, "-name '*.cpp'"@, 37);
    lemma_occurs(cpp, "-name '*.cc'"@, 54);
    lemma_occurs(cpp, "-name '*.cxx'"@, 70);
    lemma_occurs(r, "cargo build --release"@, 21);
}

/// The build script for `source_type`, if it is one that can be built.
pub fn build_script(source_type: &str) -> (r: Option<String>)
    ensures
        r matches Some(t) ==> compile_script(source_type@) == Some(t@),
        r is None ==> compile_script(source_type@) is None,
{
    if same_text(source_type, "c") {
        Some(arg("mkdir -p output && ( gcc $(find . -name '*.c' -not -path './output/*' -not -path '*/target/*') -o output/main ) > output/build.log 2>&1; STATUS=$?; echo \"===EXIT_CODE:${STATUS}===\" >> output/build.log; exit $STATUS"))
    } else if same_text(source_type, "cpp") {
        Some(arg("mkdir -p output && ( g++ $(find . \\( -name '*.cpp' -o -name '*.cc' -o -name '*.cxx' \\) -not -path './output/*' -not -path '*/target/*') -o output/main ) > output/build.log 2>&1; STATUS=$?; echo \"===EXIT_CODE:${STATUS}===\" >> output/build.log; exit $STATUS"))
    } else if same_text(source_type, "rust") {
        Some(arg("mkdir -p output && ( cargo build --release && find target/release -maxdepth 1 -type f -perm /111 -exec cp {} output/main \\; ) > output/build.log 2>&1; STATUS=$?; echo \"===EXIT_CODE:${STATUS}===\" >> output/build.log; exit $STATUS"))
    } else {
        None
    }
}

/// What a build reports: whether it succeeded, its exit status and its log.
pub struct CompileOutcome {
    pub success: bool,
    pub status_code: i32,
    pub output: String,
}

/// The outcome is `success`, `status_code` and `output`.
pub open spec fn is_outcome(o: CompileOutcome, success: bool, status_code: i32, output: Seq<char>) -> bool {
    o.success == success && o.status_code == status_code && o.output@ == output
}

/// The log used when the build log cannot be read: the build command's
/// standard output, followed by a newline and its standard error when there is any.
pub open spec fn fallback_log(stdout_text: Seq<char>, stderr_text: Seq<char>) -> Seq<char> {
    if stderr_text.len() == 0 {
        stdout_text
    } else {
        stdout_text + "\n"@ + stderr_text
    }
}

/// The outcome that a log reports: its exit status (or `fallback_code`), and
/// success exactly when that status is 0.
pub open spec fn outcome_of_log(o: CompileOutcome, log: Seq<char>, fallback_code: i32) -> bool {
    is_outcome(o, exit_code_in(log, fallback_code) == 0, exit_code_in(log, fallback_code), log)
}

/// The steps of a build.
pub enum CompileStage {
    Compiling,
    ReadingLog { fallback_code: i32, stdout_text: String, stderr_text: String },
}

/// Builds a workspace in the container and reads back its log.
pub struct ExecCompile {
    pub settings: DockerSettings,
    pub uuid: String,
    pub stage: CompileStage,
}

/// The command that runs a build script in a workspace, under the time limit.
pub open spec fn compile_args(s: DockerSettings, uuid: Seq<char>, script: Seq<char>) -> Seq<Seq<char>> {
    seq![
        "exec"@,
        "-w"@,
        container_dir(uuid),
        s.container@,
        "timeout"@,
        s.compile_timeout@,
        "bash"@,
        "-c"@,
        script,
    ]
}

/// The command that prints a workspace's build log.
pub open spec fn read_log_args(s: DockerSettings, uuid: Seq<char>) -> Seq<Seq<char>> {
    seq!["exec"@, s.container@, "cat"@, container_dir(uuid) + "/output/build.log"@]
}

/// One step of `ExecCompile`: the build's own status stands in when its log
/// reports none; its printed output stands in when the log cannot be read.
pub open spec fn compile_step(
    job: ExecCompile,
    outcome: Result<CommandOutput, String>,
    p: Progress<ExecCompile, CompileOutcome>,
) -> bool {
    let s = job.settings;
    match job.stage {
        CompileStage::Compiling => match outcome {
            Err(e) => p matches Progress::Finished(o) && is_outcome(o, false, 1, "docker exec failed: "@ + e@),
            Ok(out) => p matches Progress::Run(j, args) && j.settings == s && j.uuid == job.uuid
                && args_view(args) == read_log_args(s, job.uuid@)
                && (j.stage matches CompileStage::ReadingLog { fallback_code, stdout_text, stderr_text }
                && fallback_code == (match out.code { Some(c) => c, None => 1i32 })
                && stdout_text@ == out.stdout_text@ && stderr_text@ == out.stderr_text@),
        },
        CompileStage::ReadingLog { fallback_code, stdout_text, stderr_text } => {
            let log = match outcome {
                Ok(l) => if l.success {
                    l.stdout_text@
                } else {
                    fallback_log(stdout_text@, stderr_text@)
                },
                Err(_) => fallback_log(stdout_text@, stderr_text@),
            };
            p matches Progress::Finished(o) && outcome_of_log(o, log, fallback_code)
        },
    }
}

/// The outcome that `log` reports.
fn outcome_from_log(log: String, fallback_code: i32) -> (o: CompileOutcome)
    ensures
        outcome_of_log(o, log@, fallback_code),
{
    let code = extract_exit_code(log.as_str(), fallback_code);
    CompileOutcome { success: code == 0, status_code: code, output: log }
}

/// Starts a build of `source_type`, or ends at once when it cannot be built.
pub fn exec_compile(settings: DockerSettings, uuid: String, source_type: &str) -> (p: Progress<
    ExecCompile,
    CompileOutcome,
>)
    ensures
        compile_script(source_type@) is None ==> (p matches Progress::Finished(o)
            && is_outcome(o, false, 1, "unknown source type: "@ + source_type@)),
        compile_script(source_type@) matches Some(script) ==> (p matches Progress::Run(j, args)
            && j.stage is Compiling && j.settings == settings && j.uuid == uuid
            && args_view(args) == compile_args(settings, uuid@, script)),
{
    match build_script(source_type) {
        None => Progress::Finished(
            CompileOutcome {
                success: false,
                status_code: 1,
                output: joined("unknown source type: ", source_type),
            },
        ),
        Some(script) => {
            let mut args: Vec<String> = Vec::new();
            args.push(arg("exec"));
            args.push(arg("-w"));
            args.push(joined("/var/code/", uuid.as_str()));
            args.push(settings.container.clone());
            args.push(arg("timeout"));
            args.push(settings.compile_timeout.clone());
            args.push(arg("bash"));
            args.push(arg("-c"));
            args.push(script);
            assert(args_view(args) =~= compile_args(settings, uuid@, compile_script(source_type@)->Some_0));
            Progress::Run(ExecCompile { settings, uuid, stage: CompileStage::Compiling }, args)
        },
    }
}

impl ExecCompile {
    /// Takes the outcome of the last command and decides what comes next.
    pub fn resume(self, outcome: Result<CommandOutput, String>) -> (p: Progress<
        ExecCompile,
        CompileOutcome,
    >)
        ensures
            compile_step(self, outcome, p),
    {
        let ghost job = self;
        match self.stage {
            CompileStage::Compiling => match outcome {
                Err(e) => Progress::Finished(
                    CompileOutcome {
                        success: false,
                        status_code: 1,
                        output: joined("docker exec failed: ", e.as_str()),
                    },
                ),
                Ok(out) => {
                    let fallback_code: i32 = match out.code {
                        Some(c) => c,
                        None => 1,
                    };
                    let mut args: Vec<String> = Vec::new();
                    args.push(arg("exec"));
                    args.push(self.settings.container.clone());
                    args.push(arg("cat"));
                    let dir = joined("/var/code/", self.uuid.as_str());
                    args.push(joined(dir.as_str(), "/output/build.log"));
                    assert(args_view(args) =~= read_log_args(job.settings, job.uuid@));
                    Progress::Run(
                        ExecCompile {
                            settings: self.settings,
                            uuid: self.uuid,
                            stage: CompileStage::ReadingLog {
                                fallback_code,
                                stdout_text: out.stdout_text,
                                stderr_text: out.stderr_text,
                            },
                        },
                        args,
                    )
                },
            },
            CompileStage::ReadingLog { fallback_code, stdout_text, stderr_text } => {
                let log = match outcome {
                    Ok(l) => if l.success {
                        l.stdout_text
                    } else {
                        printed_output(stdout_text, stderr_text)
                    },
                    Err(_) => printed_output(stdout_text, stderr_text),
                };
                Progress::Finished(outcome_from_log(log, fallback_code))
            },
        }
    }
}

/// What a build printed, when its log cannot be read.
fn printed_output(stdout_text: String, stderr_text: String) -> (r: String)
    ensures
        r@ == fallback_log(stdout_text@, stderr_text@),
{
    if stderr_text.as_str().is_empty() {
        stdout_text
    } else {
        let with_newline = joined(stdout_text.as_str(), "\n");
        joined(with_newline.as_str(), stderr_text.as_str())
    }
}

/// A job's result that is bytes or an error text, as values.
pub open spec fn bytes_view(r: Result<Vec<u8>, String>) -> Result<Seq<u8>, Seq<char>> {
    match r {
        Ok(b) => Ok(b@),
        Err(e) => Err(e@),
    }
}

/// The steps of packing a workspace's build output.
pub enum ZipStage {
    Checking,
    Packing,
}

/// Packs a workspace's build output into a ZIP archive inside the container.
pub struct ExecZipOutput {
    pub settings: DockerSettings,
    pub uuid: String,
    pub stage: ZipStage,
}

/// The text that marks a missing output directory.
pub open spec fn missing_output_marker() -> Seq<char> {
    "WORKSPACE_NOT_FOUND"@
}

/// A workspace's build output directory in the container.
pub open spec fn output_dir(uuid: Seq<char>) -> Seq<char> {
    container_dir(uuid) + "/output"@
}

/// The command that checks that a workspace's output directory exists.
pub open spec fn check_output_args(s: DockerSettings, uuid: Seq<char>) -> Seq<Seq<char>> {
    seq!["exec"@, s.container@, "test"@, "-d"@, output_dir(uuid)]
}

/// The command that packs a workspace's output directory, printing the archive.
pub open spec fn zip_args(s: DockerSettings, uuid: Seq<char>) -> Seq<Seq<char>> {
    seq!["exec"@, "-w"@, output_dir(uuid), s.container@, "zip"@, "-r"@, "-"@, "."@]
}

/// One step of `ExecZipOutput`: a missing output directory ends the job with
/// the `WORKSPACE_NOT_FOUND` marker; otherwise the archive is what `zip` printed.
pub open spec fn zip_step(
    job: ExecZipOutput,
    outcome: Result<CommandOutput, String>,
    p: Progress<ExecZipOutput, Result<Vec<u8>, String>>,
) -> bool {
    let s = job.settings;
    match job.stage {
        ZipStage::Checking => match outcome {
            Err(e) => p matches Progress::Finished(r) && bytes_view(r) == Err::<Seq<u8>, Seq<char>>(
                "check output dir: "@ + e@,
            ),
            Ok(out) => if out.success {
                p matches Progress::Run(j, args) && j.stage is Packing && j.settings == s
                    && j.uuid == job.uuid && args_view(args) == zip_args(s, job.uuid@)
            } else {
                p matches Progress::Finished(r) && bytes_view(r) == Err::<Seq<u8>, Seq<char>>(
                    missing_output_marker(),
                )
            },
        },
        ZipStage::Packing => match outcome {
            Err(e) => p matches Progress::Finished(r) && bytes_view(r) == Err::<Seq<u8>, Seq<char>>(
                "zip output: "@ + e@,
            ),
            Ok(out) => if out.success {
                p matches Progress::Finished(r) && bytes_view(r) == Ok::<Seq<u8>, Seq<char>>(out.stdout@)
            } else {
                p matches Progress::Finished(r) && bytes_view(r) == Err::<Seq<u8>, Seq<char>>(
                    out.stderr_text@,
                )
            },
        },
    }
}

/// Starts by checking that the workspace has an output directory.
pub fn exec_zip_output(settings: DockerSettings, uuid: String) -> (r: (ExecZipOutput, Vec<String>))
    ensures
        r.0.stage is Checking,
        r.0.settings == settings,
        r.0.uuid == uuid,
        args_view(r.1) == check_output_args(settings, uuid@),
{
    let dir = joined("/var/code/", uuid.as_str());
    let out_dir = joined(dir.as_str(), "/output");
    let mut args: Vec<String> = Vec::new();
    args.push(arg("exec"));
    args.push(settings.container.clone());
    args.push(arg("test"));
    args.push(arg("-d"));
    args.push(out_dir);
    assert(args_view(args) =~= check_output_args(settings, uuid@));
    (ExecZipOutput { settings, uuid, stage: ZipStage::Checking }, args)
}

impl ExecZipOutput {
    /// Takes the outcome of the last command and decides what comes next.
    pub fn resume(self, outcome: Result<CommandOutput, String>) -> (p: Progress<
        ExecZipOutput,
        Result<Vec<u8>, String>,
    >)
        ensures
            zip_step(self, outcome, p),
    {
        let ghost job = self;
        match self.stage {
            ZipStage::Checking => match outcome {
                Err(e) => Progress::Finished(Err(joined("check output dir: ", e.as_str()))),
                Ok(out) => if out.success {
                    let dir = joined("/var/code/", self.uuid.as_str());
                    let out_dir = joined(dir.as_str(), "/output");
                    let mut args: Vec<String> = Vec::new();
                    args.push(arg("exec"));
                    args.push(arg("-w"));
                    args.push(out_dir);
                    args.push(self.settings.container.clone());
                    args.push(arg("zip"));
                    args.push(arg("-r"));
                    args.push(arg("-"));
                    args.push(arg("."));
                    assert(args_view(args) =~= zip_args(job.settings, job.uuid@));
                    Progress::Run(
                        ExecZipOutput { settings: self.settings, uuid: self.uuid, stage: ZipStage::Packing },
                        args,
                    )
                } else {
                    Progress::Finished(Err(arg("WORKSPACE_NOT_FOUND")))
                },
            },
            ZipStage::Packing => match outcome {
                Err(e) => Progress::Finished(Err(joined("zip output: ", e.as_str()))),
                Ok(out) => if out.success {
                    Progress::Finished(Ok(out.stdout))
                } else {
                    Progress::Finished(Err(out.stderr_text))
                },
            },
        }
    }
}

/// Removes a workspace from the container.
pub struct ExecCleanup {
    pub settings: DockerSettings,
    pub uuid: String,
}

/// The command that removes a workspace from the container.
pub open spec fn cleanup_args(s: DockerSettings, uuid: Seq<char>) -> Seq<Seq<char>> {
    seq!["exec"@, s.container@, "rm"@, "-rf"@, container_dir(uuid)]
}

/// The result of removing a workspace from the container.
pub open spec fn cleanup_result(outcome: Result<CommandOutput, String>) -> Result<(), Seq<char>> {
    match outcome {
        Err(e) => Err("docker rm: "@ + e@),
        Ok(out) => if out.success {
            Ok(())
        } else {
            Err(out.stderr_text@)
        },
    }
}

/// Starts by removing the workspace's directory in the container.
pub fn exec_cleanup(settings: DockerSettings, uuid: String) -> (r: (ExecCleanup, Vec<String>))
    ensures
        r.0.settings == settings,
        r.0.uuid == uuid,
        args_view(r.1) == cleanup_args(settings, uuid@),
{
    let mut args: Vec<String> = Vec::new();
    args.push(arg("exec"));
    args.push(settings.container.clone());
    args.push(arg("rm"));
    args.push(arg("-rf"));
    args.push(joined("/var/code/", uuid.as_str()));
    assert(args_view(args) =~= cleanup_args(settings, uuid@));
    (ExecCleanup { settings, uuid }, args)
}

impl ExecCleanup {
    /// The result of the removal.
    pub fn resume(self, outcome: Result<CommandOutput, String>) -> (r: Result<(), String>)
        ensures
            unit_view(r) == cleanup_result(outcome),
    {
        match outcome {
            Err(e) => Err(joined("docker rm: ", e.as_str())),
            Ok(out) => if out.success {
                Ok(())
            } else {
                Err(out.stderr_text)
            },
        }
    }
}


/// Every build outcome reports success exactly when its exit status is 0.
pub proof fn law_build_success_is_status_zero(
    job: ExecCompile,
    outcome: Result<CommandOutput, String>,
    p: Progress<ExecCompile, CompileOutcome>,
)
    requires
        compile_step(job, outcome, p),
    ensures
        p matches Progress::Finished(o) ==> o.success == (o.status_code == 0),
{
}

} // verus!
