//! The task runner's decisions: which process, if any, a task needs, and
//! what the outcome of that process means.

use vstd::prelude::*;
use crate::json::{field_views, json_object_text, object_text, JsonScalar, JsonScalarView};
use crate::text::{first_lines, head_lines, str_eq, trim, trimmed, views};
use crate::types::{TaskPayload, TaskPayloadView};

verus! {

/// A child process to run.
#[derive(Debug)]
pub struct ProcessSpec {
    pub program: String,
    pub args: Vec<String>,
    pub timeout_secs: u64,
    /// A path that must exist before the process is started.
    pub must_exist: Option<String>,
}

pub struct ProcessSpecView {
    pub program: Seq<char>,
    pub args: Seq<Seq<char>>,
    pub timeout_secs: u64,
    pub must_exist: Option<Seq<char>>,
}

impl View for ProcessSpec {
    type V = ProcessSpecView;

    open spec fn view(&self) -> ProcessSpecView {
        ProcessSpecView {
            program: self.program@,
            args: views(self.args@),
            timeout_secs: self.timeout_secs,
            must_exist: crate::text::opt_view(self.must_exist),
        }
    }
}

/// What became of a child process.
#[derive(Debug)]
pub enum ProcessOutcome {
    /// The path that had to exist does not.
    SourceMissing,
    /// The process ran into its timeout and was killed.
    TimedOut,
    /// The process could not be started or awaited.
    SpawnFailed { message: String },
    /// The process ended.
    Exited { success: bool, code: Option<i32>, stdout: String, stderr: String },
}

pub enum ProcessOutcomeView {
    SourceMissing,
    TimedOut,
    SpawnFailed { message: Seq<char> },
    Exited { success: bool, code: Option<i32>, stdout: Seq<char>, stderr: Seq<char> },
}

impl View for ProcessOutcome {
    type V = ProcessOutcomeView;

    open spec fn view(&self) -> ProcessOutcomeView {
        match self {
            ProcessOutcome::SourceMissing => ProcessOutcomeView::SourceMissing,
            ProcessOutcome::TimedOut => ProcessOutcomeView::TimedOut,
            ProcessOutcome::SpawnFailed { message } => ProcessOutcomeView::SpawnFailed {
                message: message@,
            },
            ProcessOutcome::Exited { success, code, stdout, stderr } => ProcessOutcomeView::Exited {
                success: *success,
                code: *code,
                stdout: stdout@,
                stderr: stderr@,
            },
        }
    }
}

/// Why a task gave no result.
#[derive(Debug)]
pub enum RunError {
    CommandsDisabled,
    CustomNotImplemented { tool_id: String },
    Timeout,
    Io { message: String },
    SourceMissing { src: String },
    RestartFailed { service_name: String, stderr: String },
    SyncFailed { stderr: String },
    DockerFailed { stderr: String },
    NoProcess,
}

pub enum RunErrorView {
    CommandsDisabled,
    CustomNotImplemented { tool_id: Seq<char> },
    Timeout,
    Io { message: Seq<char> },
    SourceMissing { src: Seq<char> },
    RestartFailed { service_name: Seq<char>, stderr: Seq<char> },
    SyncFailed { stderr: Seq<char> },
    DockerFailed { stderr: Seq<char> },
    NoProcess,
}

impl View for RunError {
    type V = RunErrorView;

    open spec fn view(&self) -> RunErrorView {
        match self {
            RunError::CommandsDisabled => RunErrorView::CommandsDisabled,
            RunError::CustomNotImplemented { tool_id } => RunErrorView::CustomNotImplemented {
                tool_id: tool_id@,
            },
            RunError::Timeout => RunErrorView::Timeout,
            RunError::Io { message } => RunErrorView::Io { message: message@ },
            RunError::SourceMissing { src } => RunErrorView::SourceMissing { src: src@ },
            RunError::RestartFailed { service_name, stderr } => RunErrorView::RestartFailed {
                service_name: service_name@,
                stderr: stderr@,
            },
            RunError::SyncFailed { stderr } => RunErrorView::SyncFailed { stderr: stderr@ },
            RunError::DockerFailed { stderr } => RunErrorView::DockerFailed { stderr: stderr@ },
            RunError::NoProcess => RunErrorView::NoProcess,
        }
    }
}

impl RunErrorView {
    /// The reason in words.
    pub open spec fn message(self) -> Seq<char> {
        match self {
            RunErrorView::CommandsDisabled => "Arbitrary command execution is disabled"@,
            RunErrorView::CustomNotImplemented { tool_id } => "Custom tool '"@ + tool_id
                + "' not implemented"@,
            RunErrorView::Timeout => "deadline has elapsed"@,
            RunErrorView::Io { message } => message,
            RunErrorView::SourceMissing { src } => "Source path does not exist: "@ + src,
            RunErrorView::RestartFailed { service_name, stderr } => "Failed to restart "@
                + service_name + ": "@ + stderr,
            RunErrorView::SyncFailed { stderr } => "rsync failed: "@ + stderr,
            RunErrorView::DockerFailed { stderr } => "Docker run failed: "@ + stderr,
            RunErrorView::NoProcess => "Task runs no process"@,
        }
    }
}

impl RunError {
    /// The reason in words.
    pub fn message(&self) -> (r: String)
        ensures
            r@ == self@.message(),
    {
        match self {
            RunError::CommandsDisabled => String::from_str(
                "Arbitrary command execution is disabled",
            ),
            RunError::CustomNotImplemented { tool_id } => {
                let mut s = String::from_str("Custom tool '");
                s.append(tool_id.as_str());
                s.append("' not implemented");
                s
            },
            RunError::Timeout => String::from_str("deadline has elapsed"),
            RunError::Io { message } => message.clone(),
            RunError::SourceMissing { src } => {
                let mut s = String::from_str("Source path does not exist: ");
                s.append(src.as_str());
                s
            },
            RunError::RestartFailed { service_name, stderr } => {
                let mut s = String::from_str("Failed to restart ");
                s.append(service_name.as_str());
                s.append(": ");
                s.append(stderr.as_str());
                s
            },
            RunError::SyncFailed { stderr } => {
                let mut s = String::from_str("rsync failed: ");
                s.append(stderr.as_str());
                s
            },
            RunError::DockerFailed { stderr } => {
                let mut s = String::from_str("Docker run failed: ");
                s.append(stderr.as_str());
                s
            },
            RunError::NoProcess => String::from_str("Task runs no process"),
        }
    }
}

/// What the runner does first with a task: it is done at once, or it needs
/// a child process.
#[derive(Debug)]
pub enum RunStep {
    Done(Result<String, RunError>),
    Spawn(ProcessSpec),
}

pub enum RunStepView {
    Done(Result<Seq<char>, RunErrorView>),
    Spawn(ProcessSpecView),
}

/// The view of what a task gave.
pub open spec fn run_view(r: Result<String, RunError>) -> Result<Seq<char>, RunErrorView> {
    match r {
        Ok(v) => Ok(v@),
        Err(e) => Err(e@),
    }
}

impl View for RunStep {
    type V = RunStepView;

    open spec fn view(&self) -> RunStepView {
        match self {
            RunStep::Done(r) => RunStepView::Done(run_view(*r)),
            RunStep::Spawn(p) => RunStepView::Spawn(p@),
        }
    }
}

/// The first step for `task` with the general timeout `timeout_secs`: an
/// echo answers at once; a check asks the service manager within 30
/// seconds, a restart within 60; a synchronisation and a container run get
/// the general timeout; arbitrary commands and custom tools are refused.
pub open spec fn first_step(task: TaskPayloadView, timeout_secs: u64) -> RunStepView {
    match task {
        TaskPayloadView::Echo { message } => RunStepView::Done(
            Ok(json_object_text(seq![("echoed"@, JsonScalarView::Text(message))])),
        ),
        TaskPayloadView::CheckService { service_name } => RunStepView::Spawn(
            ProcessSpecView {
                program: "systemctl"@,
                args: seq!["is-active"@, service_name],
                timeout_secs: 30,
                must_exist: None,
            },
        ),
        TaskPayloadView::RestartService { service_name } => RunStepView::Spawn(
            ProcessSpecView {
                program: "systemctl"@,
                args: seq!["restart"@, service_name],
                timeout_secs: 60,
                must_exist: None,
            },
        ),
        TaskPayloadView::SyncDirectory { src, dst } => RunStepView::Spawn(
            ProcessSpecView {
                program: "rsync"@,
                args: seq!["-av"@, "--delete"@, src, dst],
                timeout_secs,
                must_exist: Some(src),
            },
        ),
        TaskPayloadView::DockerRun { image, args } => RunStepView::Spawn(
            ProcessSpecView {
                program: "docker"@,
                args: seq!["run"@, "--rm"@] + args + seq![image],
                timeout_secs,
                must_exist: None,
            },
        ),
        TaskPayloadView::RunCommand { .. } => RunStepView::Done(
            Err(RunErrorView::CommandsDisabled),
        ),
        TaskPayloadView::Custom { tool_id, .. } => RunStepView::Done(
            Err(RunErrorView::CustomNotImplemented { tool_id }),
        ),
    }
}

/// The exit code as a JSON leaf.
pub open spec fn code_scalar(code: Option<i32>) -> JsonScalarView {
    match code {
        Some(c) => JsonScalarView::Int(c as i64),
        None => JsonScalarView::Null,
    }
}

/// What a process that ended means for `task`.
pub open spec fn exit_meaning(
    task: TaskPayloadView,
    success: bool,
    code: Option<i32>,
    stdout: Seq<char>,
    stderr: Seq<char>,
) -> Result<Seq<char>, RunErrorView> {
    match task {
        TaskPayloadView::CheckService { service_name } => Ok(
            json_object_text(
                seq![
                    ("service"@, JsonScalarView::Text(service_name)),
                    ("status"@, JsonScalarView::Text(trimmed(stdout))),
                    ("is_active"@, JsonScalarView::Flag(success && trimmed(stdout) == "active"@)),
                ],
            ),
        ),
        TaskPayloadView::RestartService { service_name } => if success {
            Ok(
                json_object_text(
                    seq![
                        ("service"@, JsonScalarView::Text(service_name)),
                        ("action"@, JsonScalarView::Text("restarted"@)),
                        ("success"@, JsonScalarView::Flag(true)),
                    ],
                ),
            )
        } else {
            Err(RunErrorView::RestartFailed { service_name, stderr })
        },
        TaskPayloadView::SyncDirectory { src, dst } => if success {
            Ok(
                json_object_text(
                    seq![
                        ("src"@, JsonScalarView::Text(src)),
                        ("dst"@, JsonScalarView::Text(dst)),
                        ("success"@, JsonScalarView::Flag(true)),
                        ("output"@, JsonScalarView::Text(head_lines(stdout, 20))),
                    ],
                ),
            )
        } else {
            Err(RunErrorView::SyncFailed { stderr })
        },
        TaskPayloadView::DockerRun { image, .. } => if success {
            Ok(
                json_object_text(
                    seq![
                        ("image"@, JsonScalarView::Text(image)),
                        ("exit_code"@, code_scalar(code)),
                        ("stdout"@, JsonScalarView::Text(head_lines(stdout, 50))),
                        ("stderr"@, JsonScalarView::Text(head_lines(stderr, 10))),
                    ],
                ),
            )
        } else {
            Err(RunErrorView::DockerFailed { stderr })
        },
        _ => Err(RunErrorView::NoProcess),
    }
}

/// What the outcome of its process means for `task`: a result, or the
/// failure in words. A process that was killed at its timeout, that could
/// not be started, or whose source is missing is a failure.
pub open spec fn meaning(task: TaskPayloadView, outcome: ProcessOutcomeView) -> Result<
    Seq<char>,
    RunErrorView,
> {
    match outcome {
        ProcessOutcomeView::TimedOut => Err(RunErrorView::Timeout),
        ProcessOutcomeView::SpawnFailed { message } => Err(RunErrorView::Io { message }),
        ProcessOutcomeView::SourceMissing => match task {
            TaskPayloadView::SyncDirectory { src, .. } => Err(RunErrorView::SourceMissing { src }),
            _ => Err(RunErrorView::NoProcess),
        },
        ProcessOutcomeView::Exited { success, code, stdout, stderr } => exit_meaning(
            task,
            success,
            code,
            stdout,
            stderr,
        ),
    }
}

fn text_field(name: &str, value: &str) -> (r: (String, JsonScalar))
    ensures
        r.0@ == name@,
        r.1@ == JsonScalarView::Text(value@),
{
    (String::from_str(name), JsonScalar::Text(String::from_str(value)))
}

fn flag_field(name: &str, value: bool) -> (r: (String, JsonScalar))
    ensures
        r.0@ == name@,
        r.1@ == JsonScalarView::Flag(value),
{
    (String::from_str(name), JsonScalar::Flag(value))
}

/// Runs tasks on the local node.
#[derive(Debug)]
pub struct TaskRunner {
    timeout_secs: u64,
}

impl TaskRunner {
    /// The timeout for synchronisations and container runs, in seconds.
    pub closed spec fn timeout(&self) -> u64 {
        self.timeout_secs
    }

    /// A runner with the timeout of 300 seconds.
    pub fn new() -> (r: Self)
        ensures
            r.timeout() == 300,
    {
        TaskRunner { timeout_secs: 300 }
    }

    /// A runner with the timeout given.
    pub fn with_timeout(timeout_secs: u64) -> (r: Self)
        ensures
            r.timeout() == timeout_secs,
    {
        TaskRunner { timeout_secs }
    }

    /// The timeout for synchronisations and container runs, in seconds.
    pub fn timeout_secs(&self) -> (r: u64)
        ensures
            r == self.timeout(),
    {
        self.timeout_secs
    }

    /// The first step for `task`.
    pub fn start(&self, task: &TaskPayload) -> (r: RunStep)
        ensures
            r@ == first_step(task@, self.timeout()),
    {
        match task {
            TaskPayload::Echo { message } => {
                let fields = vec![text_field("echoed", message.as_str())];
                assert(field_views(fields@) =~= seq![("echoed"@, JsonScalarView::Text(message@))]);
                RunStep::Done(Ok(object_text(&fields)))
            },
            TaskPayload::CheckService { service_name } => {
                let args = vec![String::from_str("is-active"), service_name.clone()];
                assert(views(args@) =~= seq!["is-active"@, service_name@]);
                RunStep::Spawn(
                    ProcessSpec {
                        program: String::from_str("systemctl"),
                        args,
                        timeout_secs: 30,
                        must_exist: None,
                    },
                )
            },
            TaskPayload::RestartService { service_name } => {
                let args = vec![String::from_str("restart"), service_name.clone()];
                assert(views(args@) =~= seq!["restart"@, service_name@]);
                RunStep::Spawn(
                    ProcessSpec {
                        program: String::from_str("systemctl"),
                        args,
                        timeout_secs: 60,
                        must_exist: None,
                    },
                )
            },
            TaskPayload::SyncDirectory { src, dst } => {
                let args = vec![
                    String::from_str("-av"),
                    String::from_str("--delete"),
                    src.clone(),
                    dst.clone(),
                ];
                assert(views(args@) =~= seq!["-av"@, "--delete"@, src@, dst@]);
                RunStep::Spawn(
                    ProcessSpec {
                        program: String::from_str("rsync"),
                        args,
                        timeout_secs: self.timeout_secs,
                        must_exist: Some(src.clone()),
                    },
                )
            },
            TaskPayload::DockerRun { image, args } => {
                let mut all = vec![String::from_str("run"), String::from_str("--rm")];
                let mut i: usize = 0;
                assert(views(all@) =~= seq!["run"@, "--rm"@] + views(args@).take(0));
                while i < args.len()
                    invariant
                        i <= args@.len(),
                        views(all@) == seq!["run"@, "--rm"@] + views(args@).take(i as int),
                    decreases args.len() - i,
                {
                    let ghost prev = all@;
                    all.push(args[i].clone());
                    proof {
                        assert(views(all@) =~= views(prev).push(args@[i as int]@));
                        assert(views(args@).take(i + 1) =~= views(args@).take(i as int).push(
                            args@[i as int]@,
                        ));
                        assert(views(all@) =~= seq!["run"@, "--rm"@] + views(args@).take(i + 1));
                    }
                    i += 1;
                }
                let ghost prev = all@;
                all.push(image.clone());
                proof {
                    assert(views(all@) =~= views(prev).push(image@));
                    assert(views(args@).take(args@.len() as int) =~= views(args@));
                    assert(views(all@) =~= seq!["run"@, "--rm"@] + views(args@) + seq![image@]);
                }
                RunStep::Spawn(
                    ProcessSpec {
                        program: String::from_str("docker"),
                        args: all,
                        timeout_secs: self.timeout_secs,
                        must_exist: None,
                    },
                )
            },
            TaskPayload::RunCommand { .. } => RunStep::Done(Err(RunError::CommandsDisabled)),
            TaskPayload::Custom { tool_id, .. } => RunStep::Done(
                Err(RunError::CustomNotImplemented { tool_id: tool_id.clone() }),
            ),
        }
    }

    /// What the outcome of its process means for `task`.
    pub fn finish(&self, task: &TaskPayload, outcome: &ProcessOutcome) -> (r: Result<
        String,
        RunError,
    >)
        ensures
            run_view(r) == meaning(task@, outcome@),
    {
        match outcome {
            ProcessOutcome::TimedOut => Err(RunError::Timeout),
            ProcessOutcome::SpawnFailed { message } => Err(
                RunError::Io { message: message.clone() },
            ),
            ProcessOutcome::SourceMissing => match task {
                TaskPayload::SyncDirectory { src, .. } => Err(
                    RunError::SourceMissing { src: src.clone() },
                ),
                _ => Err(RunError::NoProcess),
            },
            ProcessOutcome::Exited { success, code, stdout, stderr } => {
                match task {
                    TaskPayload::CheckService { service_name } => {
                        let status = trim(stdout.as_str());
                        let active = *success && str_eq(status, "active");
                        let fields = vec![
                            text_field("service", service_name.as_str()),
                            text_field("status", status),
                            flag_field("is_active", active),
                        ];
                        assert(field_views(fields@) =~= seq![
                            ("service"@, JsonScalarView::Text(service_name@)),
                            ("status"@, JsonScalarView::Text(trimmed(stdout@))),
                            (
                                "is_active"@,
                                JsonScalarView::Flag(*success && trimmed(stdout@) == "active"@),
                            ),
                        ]);
                        Ok(object_text(&fields))
                    },
                    TaskPayload::RestartService { service_name } => {
                        if !*success {
                            return Err(
                                RunError::RestartFailed {
                                    service_name: service_name.clone(),
                                    stderr: stderr.clone(),
                                },
                            );
                        }
                        let fields = vec![
                            text_field("service", service_name.as_str()),
                            text_field("action", "restarted"),
                            flag_field("success", true),
                        ];
                        assert(field_views(fields@) =~= seq![
                            ("service"@, JsonScalarView::Text(service_name@)),
                            ("action"@, JsonScalarView::Text("restarted"@)),
                            ("success"@, JsonScalarView::Flag(true)),
                        ]);
                        Ok(object_text(&fields))
                    },
                    TaskPayload::SyncDirectory { src, dst } => {
                        if !*success {
                            return Err(RunError::SyncFailed { stderr: stderr.clone() });
                        }
                        let output = first_lines(stdout.as_str(), 20);
                        let fields = vec![
                            text_field("src", src.as_str()),
                            text_field("dst", dst.as_str()),
                            flag_field("success", true),
                            text_field("output", output.as_str()),
                        ];
                        assert(field_views(fields@) =~= seq![
                            ("src"@, JsonScalarView::Text(src@)),
                            ("dst"@, JsonScalarView::Text(dst@)),
                            ("success"@, JsonScalarView::Flag(true)),
                            ("output"@, JsonScalarView::Text(head_lines(stdout@, 20))),
                        ]);
                        Ok(object_text(&fields))
                    },
                    TaskPayload::DockerRun { image, .. } => {
                        if !*success {
                            return Err(RunError::DockerFailed { stderr: stderr.clone() });
                        }
                        let out = first_lines(stdout.as_str(), 50);
                        let err = first_lines(stderr.as_str(), 10);
                        let exit = match code {
                            Some(c) => JsonScalar::Int(*c as i64),
                            None => JsonScalar::Null,
                        };
                        let fields = vec![
                            text_field("image", image.as_str()),
                            (String::from_str("exit_code"), exit),
                            text_field("stdout", out.as_str()),
                            text_field("stderr", err.as_str()),
                        ];
                        assert(field_views(fields@) =~= seq![
                            ("image"@, JsonScalarView::Text(image@)),
                            ("exit_code"@, code_scalar(*code)),
                            ("stdout"@, JsonScalarView::Text(head_lines(stdout@, 50))),
                            ("stderr"@, JsonScalarView::Text(head_lines(stderr@, 10))),
                        ]);
                        Ok(object_text(&fields))
                    },
                    _ => Err(RunError::NoProcess),
                }
            },
        }
    }
}

impl Default for TaskRunner {
    fn default() -> (r: Self)
        ensures
            r.timeout() == 300,
    {
        TaskRunner::new()
    }
}

} // verus!
