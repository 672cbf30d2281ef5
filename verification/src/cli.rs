//! The decisions of the command-line flasher: which arguments are required,
//! what block size was asked for, what an elevated relaunch is handed, and
//! whether the user confirmed the write.

use vstd::prelude::*;
use crate::size::{fault_message, parse_size, size_value, SizeError, SizeFault};
use crate::{WriteParams, WriteRequest};
use crate::text::{
    is_ascii_digit, lemma_decimal_digits, ascii_lower, ascii_lowercase, chars_of, decimal, decimal_string, framed, lower_of, trim,
    trim_bounds,
};

verus! {

/// The options the command line was given.
#[derive(Debug)]
pub struct Options {
    /// Source ISO/IMG file to flash.
    pub source: Option<String>,
    /// Target block device.
    pub target: Option<String>,
    /// List storage devices and exit.
    pub list: bool,
    /// Write block size, as written (default `32MiB`).
    pub block_size: String,
    /// Byte offset into the target at which writing starts.
    pub offset: u64,
    /// Skip the confirmation prompt.
    pub force: bool,
    /// Validate everything without writing any data.
    pub dry_run: bool,
    /// Disable log file creation.
    pub no_logging: bool,
    /// Enable verbose debug logging.
    pub verbose: bool,
}

/// A required argument that is missing.
#[derive(Debug)]
pub enum UsageError {
    MissingSource,
    MissingTarget,
}

impl UsageError {
    /// The text that reports this error.
    pub fn message(&self) -> (m: String)
        ensures
            m@ == match self {
                UsageError::MissingSource => "--source/-s is required. Use --help for usage."@,
                UsageError::MissingTarget => "--target/-t is required. Use --help for usage."@,
            },
    {
        match self {
            UsageError::MissingSource => String::from_str(
                "--source/-s is required. Use --help for usage.",
            ),
            UsageError::MissingTarget => String::from_str(
                "--target/-t is required. Use --help for usage.",
            ),
        }
    }
}

/// The source and the target to flash: the source is asked for first.
pub fn required_paths(opts: &Options) -> (r: Result<(String, String), UsageError>)
    ensures
        match r {
            Ok((s, t)) => opts.source == Some(s) && opts.target == Some(t),
            Err(UsageError::MissingSource) => opts.source is None,
            Err(UsageError::MissingTarget) => opts.source is Some && opts.target is None,
        },
{
    let source = match &opts.source {
        Some(s) => s.clone(),
        None => return Err(UsageError::MissingSource),
    };
    let target = match &opts.target {
        Some(t) => t.clone(),
        None => return Err(UsageError::MissingTarget),
    };
    Ok((source, target))
}

/// A block size that cannot be used.
#[derive(Debug)]
pub enum BlockSizeError {
    /// The given text is not a block size.
    Invalid { given: String, error: SizeError },
    /// The block size is zero.
    Zero,
}

impl BlockSizeError {
    /// The text that reports this error.
    pub fn message(&self) -> (m: String)
        ensures
            m@ == match self {
                BlockSizeError::Invalid { given, error } => "Invalid --block-size '"@ + given@
                    + "': "@ + crate::size::fault_message(error@),
                BlockSizeError::Zero => "Block size must be greater than zero"@,
            },
    {
        match self {
            BlockSizeError::Invalid { given, error } => {
                let reason = error.message();
                framed("Invalid --block-size '", given.as_str(), "': ").concat(reason.as_str())
            },
            BlockSizeError::Zero => String::from_str("Block size must be greater than zero"),
        }
    }
}

/// The block size asked for: a size that `parse_size` accepts and that is
/// not zero.
pub fn block_size_setting(s: &str) -> (r: Result<usize, BlockSizeError>)
    ensures
        match r {
            Ok(n) => size_value(s@) == Ok::<nat, SizeFault>(n as nat) && n > 0,
            Err(BlockSizeError::Zero) => size_value(s@) == Ok::<nat, SizeFault>(0),
            Err(BlockSizeError::Invalid { given, error }) => given@ == s@ && size_value(s@)
                == Err::<nat, SizeFault>(error@),
        },
{
    match parse_size(s) {
        Ok(0) => Err(BlockSizeError::Zero),
        Ok(n) => Ok(n),
        Err(error) => Err(BlockSizeError::Invalid { given: String::from_str(s), error }),
    }
}

/// The block size used when none is given.
pub open spec fn default_block_size() -> Seq<char> {
    "32MiB"@
}

/// The arguments of a relaunch with elevated privileges: the source and the
/// target, then each option that differs from its default, in a fixed order.
pub open spec fn elevation_argv(
    source: Seq<char>,
    target: Seq<char>,
    block_size: Seq<char>,
    offset: u64,
    force: bool,
    dry_run: bool,
    no_logging: bool,
    verbose: bool,
) -> Seq<Seq<char>> {
    seq!["--source"@, source, "--target"@, target] + (if block_size != default_block_size() {
        seq!["--block-size"@, block_size]
    } else {
        Seq::empty()
    }) + (if offset != 0 {
        seq!["--offset"@, decimal(offset as nat)]
    } else {
        Seq::empty()
    }) + (if force {
        seq!["--force"@]
    } else {
        Seq::empty()
    }) + (if dry_run {
        seq!["--dry-run"@]
    } else {
        Seq::empty()
    }) + (if no_logging {
        seq!["--no-logging"@]
    } else {
        Seq::empty()
    }) + (if verbose {
        seq!["--verbose"@]
    } else {
        Seq::empty()
    })
}

/// Appends a flag when it is set.
fn push_flag(args: &mut Vec<String>, on: bool, flag: &str)
    ensures
        final(args)@.map_values(|a: String| a@) == old(args)@.map_values(|a: String| a@) + (if on {
            seq![flag@]
        } else {
            Seq::empty()
        }),
{
    let ghost before = args@.map_values(|a: String| a@);
    if on {
        args.push(String::from_str(flag));
        assert(args@.map_values(|a: String| a@) =~= before + seq![flag@]);
    } else {
        assert(args@.map_values(|a: String| a@) =~= before + Seq::empty());
    }
}

/// The arguments handed to a relaunch of the flasher with elevated
/// privileges, for the resolved `source` and the given `target`.
pub fn elevation_args(opts: &Options, source: &str, target: &str) -> (args: Vec<String>)
    ensures
        args@.map_values(|a: String| a@) == elevation_argv(
            source@,
            target@,
            opts.block_size@,
            opts.offset,
            opts.force,
            opts.dry_run,
            opts.no_logging,
            opts.verbose,
        ),
{
    let mut args: Vec<String> = Vec::new();
    args.push(String::from_str("--source"));
    args.push(String::from_str(source));
    args.push(String::from_str("--target"));
    args.push(String::from_str(target));
    let ghost base = seq!["--source"@, source@, "--target"@, target@];
    assert(args@.map_values(|a: String| a@) =~= base);
    let ghost with_size = base + (if opts.block_size@ != default_block_size() {
        seq!["--block-size"@, opts.block_size@]
    } else {
        Seq::empty()
    });
    if opts.block_size != String::from_str("32MiB") {
        args.push(String::from_str("--block-size"));
        args.push(opts.block_size.clone());
    }
    assert(args@.map_values(|a: String| a@) =~= with_size);
    let ghost with_offset = with_size + (if opts.offset != 0 {
        seq!["--offset"@, decimal(opts.offset as nat)]
    } else {
        Seq::empty()
    });
    if opts.offset != 0 {
        args.push(String::from_str("--offset"));
        args.push(decimal_string(opts.offset));
    }
    assert(args@.map_values(|a: String| a@) =~= with_offset);
    push_flag(&mut args, opts.force, "--force");
    push_flag(&mut args, opts.dry_run, "--dry-run");
    push_flag(&mut args, opts.no_logging, "--no-logging");
    push_flag(&mut args, opts.verbose, "--verbose");
    args
}

/// The answer to the confirmation prompt accepts the write: after trimming
/// and ignoring ASCII case it is exactly `y`.
pub open spec fn accepts_write(input: Seq<char>) -> bool {
    ascii_lowercase(trim(input)) == seq!['y']
}

/// Whether the answer typed at the confirmation prompt accepts the write.
pub fn is_confirmed(input: &str) -> (b: bool)
    ensures
        b == accepts_write(input@),
{
    let chars = chars_of(input);
    let (start, end) = trim_bounds(&chars);
    let ghost t = chars@.subrange(start as int, end as int);
    if end - start != 1 {
        assert(ascii_lowercase(t).len() != 1);
        return false;
    }
    let c = lower_of(chars[start]);
    assert(ascii_lowercase(t)[0] == ascii_lower(t[0]));
    if c == 'y' {
        assert(ascii_lowercase(t) =~= seq!['y']);
        true
    } else {
        assert(ascii_lowercase(t)[0] != seq!['y'][0]);
        false
    }
}

/// The text that reports a block size that cannot be used.
pub open spec fn block_size_message(s: Seq<char>) -> Seq<char> {
    match size_value(s) {
        Ok(_) => "Block size must be greater than zero"@,
        Err(f) => "Invalid --block-size '"@ + s + "': "@ + fault_message(f),
    }
}

/// Where a run of the command line stands.
#[derive(Debug)]
pub enum RunState {
    /// Nothing done yet.
    Start,
    /// Waiting for the source path to be made absolute; the target.
    Resolving { target: String },
    /// Waiting to learn whether the process has root privileges.
    CheckingPrivilege { source: String, target: String },
    /// Waiting for the source and the target to be validated.
    Validating { params: WriteParams },
    /// Waiting for the user's answer to the confirmation prompt.
    Confirming { params: WriteParams, source_size: u64 },
    /// Waiting for the write to finish.
    Writing,
    /// Done, successfully.
    Finished,
    /// Stopped on an error.
    Failed,
}

/// What the outside work of a step reported.
#[derive(Debug)]
pub enum RunEvent {
    /// The run begins.
    Begin,
    /// The source path, made absolute.
    SourceResolved(String),
    /// Whether the process has root privileges.
    PrivilegeChecked(bool),
    /// The source and the target passed validation; the source's size.
    ValidationPassed(u64),
    /// The line typed at the confirmation prompt.
    Answered(String),
    /// The write finished.
    WriteDone,
    /// The outside work failed with this message.
    OutsideFailure(String),
}

/// The outside work that a step asks for.
#[derive(Debug)]
pub enum RunAction {
    /// List the storage devices; the run is then done.
    ListDevices,
    /// Make this source path absolute.
    ResolveSource(String),
    /// Find out whether the process has root privileges.
    CheckPrivilege,
    /// Relaunch with elevated privileges and these arguments; this run ends.
    Relaunch(Vec<String>),
    /// Validate the source and the target.
    Validate(WriteParams),
    /// Ask the user to confirm writing `source` (of `source_size` bytes) to `target`.
    AskConfirmation { source: String, target: String, source_size: u64 },
    /// Write the image.
    Write { params: WriteParams, source_size: u64 },
    /// Nothing more to do: the run succeeded.
    Exit,
    /// Stop with this error.
    Fail(String),
}

/// A `RunState` as values.
pub enum Stage {
    Start,
    Resolving(Seq<char>),
    CheckingPrivilege(Seq<char>, Seq<char>),
    Validating(WriteRequest),
    Confirming(WriteRequest, u64),
    Writing,
    Finished,
    Failed,
}

/// A `RunEvent` as values.
pub enum Report {
    Begin,
    SourceResolved(Seq<char>),
    PrivilegeChecked(bool),
    ValidationPassed(u64),
    Answered(Seq<char>),
    WriteDone,
    OutsideFailure(Seq<char>),
}

/// A `RunAction` as values.
pub enum Work {
    ListDevices,
    ResolveSource(Seq<char>),
    CheckPrivilege,
    Relaunch(Seq<Seq<char>>),
    Validate(WriteRequest),
    AskConfirmation(Seq<char>, Seq<char>, u64),
    Write(WriteRequest, u64),
    Exit,
    Fail(Seq<char>),
}

impl View for RunState {
    type V = Stage;

    open spec fn view(&self) -> Stage {
        match self {
            RunState::Start => Stage::Start,
            RunState::Resolving { target } => Stage::Resolving(target@),
            RunState::CheckingPrivilege { source, target } => Stage::CheckingPrivilege(
                source@,
                target@,
            ),
            RunState::Validating { params } => Stage::Validating(params@),
            RunState::Confirming { params, source_size } => Stage::Confirming(
                params@,
                *source_size,
            ),
            RunState::Writing => Stage::Writing,
            RunState::Finished => Stage::Finished,
            RunState::Failed => Stage::Failed,
        }
    }
}

impl View for RunEvent {
    type V = Report;

    open spec fn view(&self) -> Report {
        match self {
            RunEvent::Begin => Report::Begin,
            RunEvent::SourceResolved(s) => Report::SourceResolved(s@),
            RunEvent::PrivilegeChecked(b) => Report::PrivilegeChecked(*b),
            RunEvent::ValidationPassed(n) => Report::ValidationPassed(*n),
            RunEvent::Answered(line) => Report::Answered(line@),
            RunEvent::WriteDone => Report::WriteDone,
            RunEvent::OutsideFailure(e) => Report::OutsideFailure(e@),
        }
    }
}

impl View for RunAction {
    type V = Work;

    open spec fn view(&self) -> Work {
        match self {
            RunAction::ListDevices => Work::ListDevices,
            RunAction::ResolveSource(s) => Work::ResolveSource(s@),
            RunAction::CheckPrivilege => Work::CheckPrivilege,
            RunAction::Relaunch(args) => Work::Relaunch(args@.map_values(|a: String| a@)),
            RunAction::Validate(p) => Work::Validate(p@),
            RunAction::AskConfirmation { source, target, source_size } => Work::AskConfirmation(
                source@,
                target@,
                *source_size,
            ),
            RunAction::Write { params, source_size } => Work::Write(params@, *source_size),
            RunAction::Exit => Work::Exit,
            RunAction::Fail(m) => Work::Fail(m@),
        }
    }
}

/// The error for a report that the current step of a run does not wait for.
pub open spec fn unexpected_report() -> Seq<char> {
    "Unexpected report for the current step of the run"@
}

/// The text of `unexpected_report`.
pub fn unexpected_report_message() -> (m: String)
    ensures
        m@ == unexpected_report(),
{
    String::from_str("Unexpected report for the current step of the run")
}

/// One step of the command line, as values: the next stage and the next
/// outside work. `--list` lists the devices and does nothing else; the
/// source and then the target are required; the source is made absolute;
/// without root privileges the run relaunches itself elevated; a bad or zero
/// block size stops the run; validation comes before anything is written;
/// `--dry-run` stops after validation; otherwise the write needs `--force` or
/// a "y" answer at the prompt. A failure of outside work stops the run with
/// its message, and so does a report that the current step does not wait
/// for, or any report after the run has ended, with `unexpected_report`.
pub open spec fn run_step(opts: Options, stage: Stage, report: Report) -> (Stage, Work) {
    match report {
        Report::OutsideFailure(e) => (Stage::Failed, Work::Fail(e)),
        _ => match stage {
            Stage::Start => if !(report is Begin) {
                (Stage::Failed, Work::Fail(unexpected_report()))
            } else if opts.list {
                (Stage::Finished, Work::ListDevices)
            } else {
                match (opts.source, opts.target) {
                    (None, _) => (
                        Stage::Failed,
                        Work::Fail("--source/-s is required. Use --help for usage."@),
                    ),
                    (Some(_), None) => (
                        Stage::Failed,
                        Work::Fail("--target/-t is required. Use --help for usage."@),
                    ),
                    (Some(s), Some(t)) => (Stage::Resolving(t@), Work::ResolveSource(s@)),
                }
            },
            Stage::Resolving(t) => match report {
                Report::SourceResolved(s) => (
                    Stage::CheckingPrivilege(s, t),
                    Work::CheckPrivilege,
                ),
                _ => (Stage::Failed, Work::Fail(unexpected_report())),
            },
            Stage::CheckingPrivilege(s, t) => match report {
                Report::PrivilegeChecked(false) => (
                    Stage::Finished,
                    Work::Relaunch(
                        elevation_argv(
                            s,
                            t,
                            opts.block_size@,
                            opts.offset,
                            opts.force,
                            opts.dry_run,
                            opts.no_logging,
                            opts.verbose,
                        ),
                    ),
                ),
                Report::PrivilegeChecked(true) => match size_value(opts.block_size@) {
                    Ok(n) => if n > 0 {
                        let req = WriteRequest {
                            source: s,
                            target: t,
                            block_size: n as usize,
                            offset: opts.offset,
                        };
                        (Stage::Validating(req), Work::Validate(req))
                    } else {
                        (Stage::Failed, Work::Fail(block_size_message(opts.block_size@)))
                    },
                    Err(_) => (Stage::Failed, Work::Fail(block_size_message(opts.block_size@))),
                },
                _ => (Stage::Failed, Work::Fail(unexpected_report())),
            },
            Stage::Validating(req) => match report {
                Report::ValidationPassed(n) => if opts.dry_run {
                    (Stage::Finished, Work::Exit)
                } else if opts.force {
                    (Stage::Writing, Work::Write(req, n))
                } else {
                    (Stage::Confirming(req, n), Work::AskConfirmation(req.source, req.target, n))
                },
                _ => (Stage::Failed, Work::Fail(unexpected_report())),
            },
            Stage::Confirming(req, n) => match report {
                Report::Answered(line) => if accepts_write(line) {
                    (Stage::Writing, Work::Write(req, n))
                } else {
                    (Stage::Failed, Work::Fail("Aborted by user."@))
                },
                _ => (Stage::Failed, Work::Fail(unexpected_report())),
            },
            Stage::Writing => match report {
                Report::WriteDone => (Stage::Finished, Work::Exit),
                _ => (Stage::Failed, Work::Fail(unexpected_report())),
            },
            Stage::Finished => (Stage::Failed, Work::Fail(unexpected_report())),
            Stage::Failed => (Stage::Failed, Work::Fail(unexpected_report())),
        },
    }
}

/// One step of the command line: from where the run stands and what the last
/// outside work reported, the next state and the next outside work, as
/// `run_step` says.
pub fn next_step(opts: &Options, state: RunState, event: RunEvent) -> (r: (RunState, RunAction))
    ensures
        (r.0@, r.1@) == run_step(*opts, state@, event@),
{
    if let RunEvent::OutsideFailure(e) = event {
        return (RunState::Failed, RunAction::Fail(e));
    }
    match state {
        RunState::Start => {
            if !matches!(event, RunEvent::Begin) {
                return (RunState::Failed, RunAction::Fail(unexpected_report_message()));
            }
            if opts.list {
                return (RunState::Finished, RunAction::ListDevices);
            }
            match required_paths(opts) {
                Ok((source, target)) => (
                    RunState::Resolving { target },
                    RunAction::ResolveSource(source),
                ),
                Err(e) => (RunState::Failed, RunAction::Fail(e.message())),
            }
        },
        RunState::Resolving { target } => match event {
            RunEvent::SourceResolved(source) => (
                RunState::CheckingPrivilege { source, target },
                RunAction::CheckPrivilege,
            ),
            _ => (RunState::Failed, RunAction::Fail(unexpected_report_message())),
        },
        RunState::CheckingPrivilege { source, target } => match event {
            RunEvent::PrivilegeChecked(false) => {
                let args = elevation_args(opts, source.as_str(), target.as_str());
                (RunState::Finished, RunAction::Relaunch(args))
            },
            RunEvent::PrivilegeChecked(true) => match block_size_setting(opts.block_size.as_str()) {
                Ok(block_size) => {
                    let params = WriteParams { source, target, block_size, offset: opts.offset };
                    let check = params.duplicate();
                    (RunState::Validating { params }, RunAction::Validate(check))
                },
                Err(e) => (RunState::Failed, RunAction::Fail(e.message())),
            },
            _ => (RunState::Failed, RunAction::Fail(unexpected_report_message())),
        },
        RunState::Validating { params } => match event {
            RunEvent::ValidationPassed(size) => {
                if opts.dry_run {
                    (RunState::Finished, RunAction::Exit)
                } else if opts.force {
                    (RunState::Writing, RunAction::Write { params, source_size: size })
                } else {
                    let source = params.source.clone();
                    let target = params.target.clone();
                    (
                        RunState::Confirming { params, source_size: size },
                        RunAction::AskConfirmation { source, target, source_size: size },
                    )
                }
            },
            _ => (RunState::Failed, RunAction::Fail(unexpected_report_message())),
        },
        RunState::Confirming { params, source_size } => match event {
            RunEvent::Answered(line) => {
                if is_confirmed(line.as_str()) {
                    (RunState::Writing, RunAction::Write { params, source_size })
                } else {
                    (RunState::Failed, RunAction::Fail(String::from_str("Aborted by user.")))
                }
            },
            _ => (RunState::Failed, RunAction::Fail(unexpected_report_message())),
        },
        RunState::Writing => match event {
            RunEvent::WriteDone => (RunState::Finished, RunAction::Exit),
            _ => (RunState::Failed, RunAction::Fail(unexpected_report_message())),
        },
        RunState::Finished => (RunState::Failed, RunAction::Fail(unexpected_report_message())),
        RunState::Failed => (RunState::Failed, RunAction::Fail(unexpected_report_message())),
    }
}

/// The outside work a run asks for, step by step, from `stage` on, when
/// the outside work reports `reports` in turn.
pub open spec fn run_works(opts: Options, stage: Stage, reports: Seq<Report>) -> Seq<Work>
    decreases reports.len(),
{
    if reports.len() == 0 {
        Seq::empty()
    } else {
        let (next, work) = run_step(opts, stage, reports[0]);
        seq![work] + run_works(opts, next, reports.drop_first())
    }
}

/// A run asks for one piece of outside work per report.
proof fn lemma_run_works_len(opts: Options, stage: Stage, reports: Seq<Report>)
    ensures
        run_works(opts, stage, reports).len() == reports.len(),
    decreases reports.len(),
{
    if reports.len() > 0 {
        let (next, work) = run_step(opts, stage, reports[0]);
        lemma_run_works_len(opts, next, reports.drop_first());
    }
}

/// A stage from which a write can come only after a validation passes.
pub open spec fn before_validation(stage: Stage) -> bool {
    !(stage is Confirming) && !(stage is Writing)
}

/// A stage from which nothing is ever written again.
pub open spec fn past_writing(stage: Stage) -> bool {
    stage is Writing || stage is Finished || stage is Failed
}

/// Once a run is writing, finished or failed, it asks for no write.
proof fn lemma_no_write_past_writing(opts: Options, stage: Stage, reports: Seq<Report>, i: int)
    requires
        past_writing(stage),
        0 <= i < run_works(opts, stage, reports).len(),
    ensures
        !(run_works(opts, stage, reports)[i] is Write),
    decreases reports.len(),
{
    lemma_run_works_len(opts, stage, reports);
    let (next, work) = run_step(opts, stage, reports[0]);
    assert(past_writing(next));
    if i > 0 {
        assert(run_works(opts, stage, reports)[i] == run_works(
            opts,
            next,
            reports.drop_first(),
        )[i - 1]);
        lemma_no_write_past_writing(opts, next, reports.drop_first(), i - 1);
    }
}

/// In any run, the image is written only after its validation passed: every
/// `Write` the run asks for is preceded by (or answers) a passed validation.
pub proof fn lemma_validation_before_write(
    opts: Options,
    stage: Stage,
    reports: Seq<Report>,
    i: int,
)
    requires
        before_validation(stage),
        0 <= i < run_works(opts, stage, reports).len(),
        run_works(opts, stage, reports)[i] is Write,
    ensures
        exists|j: int| 0 <= j <= i && #[trigger] reports[j] is ValidationPassed,
    decreases reports.len(),
{
    lemma_run_works_len(opts, stage, reports);
    let (next, work) = run_step(opts, stage, reports[0]);
    if i == 0 {
        assert(reports[0] is ValidationPassed);
    } else {
        assert(run_works(opts, stage, reports)[i] == run_works(
            opts,
            next,
            reports.drop_first(),
        )[i - 1]);
        if next is Confirming {
            assert(reports[0] is ValidationPassed);
        } else if next is Writing {
            lemma_no_write_past_writing(opts, next, reports.drop_first(), i - 1);
        } else {
            lemma_validation_before_write(opts, next, reports.drop_first(), i - 1);
            let j = choose|j: int|
                0 <= j <= i - 1 && #[trigger] reports.drop_first()[j] is ValidationPassed;
            assert(reports[j + 1] == reports.drop_first()[j]);
        }
    }
}

/// With `--dry-run`, a run that has not yet been asked to confirm or write
/// never writes.
pub proof fn lemma_dry_run_never_writes(opts: Options, stage: Stage, reports: Seq<Report>, i: int)
    requires
        opts.dry_run,
        before_validation(stage),
        0 <= i < run_works(opts, stage, reports).len(),
    ensures
        !(run_works(opts, stage, reports)[i] is Write),
    decreases reports.len(),
{
    lemma_run_works_len(opts, stage, reports);
    let (next, work) = run_step(opts, stage, reports[0]);
    assert(before_validation(next));
    if i > 0 {
        assert(run_works(opts, stage, reports)[i] == run_works(
            opts,
            next,
            reports.drop_first(),
        )[i - 1]);
        lemma_dry_run_never_writes(opts, next, reports.drop_first(), i - 1);
    }
}

/// A write is asked for right after validation only with `--force` and
/// without `--dry-run`; without `--force`, every write answers a "y" typed
/// at the confirmation prompt.
pub proof fn lemma_write_needs_force_or_yes(opts: Options, stage: Stage, report: Report)
    requires
        run_step(opts, stage, report).1 is Write,
    ensures
        stage is Validating ==> !opts.dry_run && opts.force,
        !opts.force ==> stage is Confirming,
        !opts.force ==> (report matches Report::Answered(line) && accepts_write(line)),
{
}

/// With `--list`, a run lists the devices and does nothing else: any later
/// report only stops it.
pub proof fn lemma_list_only_lists(opts: Options, reports: Seq<Report>)
    requires
        opts.list,
        reports.len() > 0,
        reports[0] is Begin,
    ensures
        run_works(opts, Stage::Start, reports)[0] == Work::ListDevices,
        forall|i: int|
            1 <= i < reports.len() ==> #[trigger] run_works(opts, Stage::Start, reports)[i] is Fail,
{
    lemma_run_works_len(opts, Stage::Start, reports);
    assert forall|i: int| 1 <= i < reports.len() implies #[trigger] run_works(
        opts,
        Stage::Start,
        reports,
    )[i] is Fail by {
        lemma_finished_only_fails(opts, reports.drop_first(), i - 1);
        assert(run_works(opts, Stage::Start, reports)[i] == run_works(
            opts,
            Stage::Finished,
            reports.drop_first(),
        )[i - 1]);
    }
}

/// Once a run has finished, any further report only stops it.
proof fn lemma_finished_only_fails(opts: Options, reports: Seq<Report>, i: int)
    requires
        0 <= i < reports.len(),
    ensures
        run_works(opts, Stage::Finished, reports)[i] is Fail,
{
    lemma_run_works_len(opts, Stage::Finished, reports);
    if i > 0 {
        assert(run_works(opts, Stage::Finished, reports)[i] == run_works(
            opts,
            Stage::Failed,
            reports.drop_first(),
        )[i - 1]);
        lemma_failed_only_fails(opts, reports.drop_first(), i - 1);
    }
}

/// Once a run has failed, any further report only stops it.
proof fn lemma_failed_only_fails(opts: Options, reports: Seq<Report>, i: int)
    requires
        0 <= i < reports.len(),
    ensures
        run_works(opts, Stage::Failed, reports)[i] is Fail,
    decreases reports.len(),
{
    lemma_run_works_len(opts, Stage::Failed, reports);
    if i > 0 {
        assert(run_works(opts, Stage::Failed, reports)[i] == run_works(
            opts,
            Stage::Failed,
            reports.drop_first(),
        )[i - 1]);
        lemma_failed_only_fails(opts, reports.drop_first(), i - 1);
    }
}

/// The request and the size of a `Write`, if `w` is one.
pub open spec fn written(w: Work) -> Option<(WriteRequest, u64)> {
    match w {
        Work::Write(req, n) => Some((req, n)),
        _ => None,
    }
}

/// A write asked for in one step carries exactly the request that was being
/// validated or confirmed: right after validation it is the validated
/// request with the size that validation reported; after a "y" it is the
/// request and size that were being confirmed. No other step writes.
pub proof fn lemma_write_carries_the_request(opts: Options, stage: Stage, report: Report)
    ensures
        written(run_step(opts, stage, report).1) is Some ==> match stage {
            Stage::Validating(v) => match report {
                Report::ValidationPassed(n) => written(run_step(opts, stage, report).1) == Some(
                    (v, n),
                ),
                _ => false,
            },
            Stage::Confirming(v, m) => written(run_step(opts, stage, report).1) == Some((v, m)),
            _ => false,
        },
{
}

/// A write request fits the options: it writes at the given offset, with
/// the given block size, to the given target.
pub open spec fn request_fits(opts: Options, req: WriteRequest) -> bool {
    &&& req.offset == opts.offset
    &&& size_value(opts.block_size@) == Ok::<nat, SizeFault>(req.block_size as nat)
    &&& opts.target is Some
    &&& req.target == opts.target->0@
}

/// Every request a stage holds fits the options.
pub open spec fn stage_fits(opts: Options, stage: Stage) -> bool {
    match stage {
        Stage::Resolving(t) => opts.target is Some && t == opts.target->0@,
        Stage::CheckingPrivilege(_, t) => opts.target is Some && t == opts.target->0@,
        Stage::Validating(v) => request_fits(opts, v),
        Stage::Confirming(v, _) => request_fits(opts, v),
        _ => true,
    }
}

/// Each step keeps the requests fitting the options.
proof fn lemma_step_keeps_fit(opts: Options, stage: Stage, report: Report)
    requires
        stage_fits(opts, stage),
    ensures
        stage_fits(opts, run_step(opts, stage, report).0),
        written(run_step(opts, stage, report).1) matches Some((req, _)) ==> request_fits(
            opts,
            req,
        ),
        run_step(opts, stage, report).0 matches Stage::Validating(v) ==> run_step(
            opts,
            stage,
            report,
        ).1 == Work::Validate(v),
        run_step(opts, stage, report).0 matches Stage::Confirming(v, _) ==> stage
            == Stage::Validating(v),
{
}

/// In a run from where `stage` stands, a write carries a request that fits
/// the options, and it is the request `stage` holds or one sent to
/// validation earlier in the run.
proof fn lemma_writes_fit(opts: Options, stage: Stage, reports: Seq<Report>, i: int)
    requires
        stage_fits(opts, stage),
        0 <= i < reports.len(),
        written(run_works(opts, stage, reports)[i]) is Some,
    ensures
        ({
            let req = (written(run_works(opts, stage, reports)[i])->0).0;
            &&& request_fits(opts, req)
            &&& stage == Stage::Validating(req) || (exists|m: u64| stage == Stage::Confirming(req, m))
                || exists|j: int| 0 <= j < i && #[trigger] run_works(opts, stage, reports)[j]
                == Work::Validate(req)
        }),
    decreases reports.len(),
{
    lemma_run_works_len(opts, stage, reports);
    lemma_step_keeps_fit(opts, stage, reports[0]);
    let (next, work) = run_step(opts, stage, reports[0]);
    let req = (written(run_works(opts, stage, reports)[i])->0).0;
    if i == 0 {
        lemma_write_carries_the_request(opts, stage, reports[0]);
    } else {
        let rest = reports.drop_first();
        assert(run_works(opts, stage, reports)[i] == run_works(opts, next, rest)[i - 1]);
        lemma_writes_fit(opts, next, rest, i - 1);
        lemma_run_works_len(opts, next, rest);
        if next == Stage::Validating(req) {
            assert(run_works(opts, stage, reports)[0] == Work::Validate(req));
        } else if exists|m: u64| next == Stage::Confirming(req, m) {
        } else {
            let j = choose|j: int| 0 <= j < i - 1 && #[trigger] run_works(opts, next, rest)[j]
                == Work::Validate(req);
            assert(run_works(opts, stage, reports)[j + 1] == run_works(opts, next, rest)[j]);
        }
    }
}

/// Every write a run of the command line asks for writes the image at the
/// offset that was given, with the block size that was given, to the target
/// that was given, and writes the very request that was validated before.
pub proof fn lemma_every_write_is_as_asked(opts: Options, reports: Seq<Report>, i: int)
    requires
        0 <= i < reports.len(),
        written(run_works(opts, Stage::Start, reports)[i]) is Some,
    ensures
        ({
            let req = (written(run_works(opts, Stage::Start, reports)[i])->0).0;
            &&& req.offset == opts.offset
            &&& size_value(opts.block_size@) == Ok::<nat, SizeFault>(req.block_size as nat)
            &&& opts.target is Some && req.target == opts.target->0@
            &&& exists|j: int| 0 <= j < i && #[trigger] run_works(opts, Stage::Start, reports)[j]
                == Work::Validate(req)
        }),
{
    lemma_writes_fit(opts, Stage::Start, reports, i);
}

/// The names of the command line's options.
pub open spec fn option_name(x: Seq<char>) -> bool {
    ||| x == "--source"@
    ||| x == "--target"@
    ||| x == "--block-size"@
    ||| x == "--offset"@
    ||| x == "--force"@
    ||| x == "--dry-run"@
    ||| x == "--no-logging"@
    ||| x == "--verbose"@
}

/// `x` is the option name `name`, or some other text that is no option name
/// and no numeral.
proof fn lemma_option_names_differ()
    ensures
        "--block-size"@ != "--source"@,
        "--block-size"@ != "--target"@,
        "--block-size"@ != "--offset"@,
        "--block-size"@ != "--force"@,
        "--block-size"@ != "--dry-run"@,
        "--block-size"@ != "--no-logging"@,
        "--block-size"@ != "--verbose"@,
        "--offset"@ != "--source"@,
        "--offset"@ != "--target"@,
        "--offset"@ != "--force"@,
        "--offset"@ != "--dry-run"@,
        "--offset"@ != "--no-logging"@,
        "--offset"@ != "--verbose"@,
        "--force"@ != "--source"@,
        "--force"@ != "--target"@,
        "--force"@ != "--dry-run"@,
        "--force"@ != "--no-logging"@,
        "--force"@ != "--verbose"@,
        "--dry-run"@ != "--source"@,
        "--dry-run"@ != "--target"@,
        "--dry-run"@ != "--no-logging"@,
        "--dry-run"@ != "--verbose"@,
        "--no-logging"@ != "--source"@,
        "--no-logging"@ != "--target"@,
        "--no-logging"@ != "--verbose"@,
        "--verbose"@ != "--source"@,
        "--verbose"@ != "--target"@,
        "--source"@[0] == '-',
        "--target"@[0] == '-',
        "--block-size"@[0] == '-',
        "--offset"@[0] == '-',
        "--force"@[0] == '-',
        "--dry-run"@[0] == '-',
        "--no-logging"@[0] == '-',
        "--verbose"@[0] == '-',
{
    reveal_strlit("--source");
    reveal_strlit("--target");
    reveal_strlit("--block-size");
    reveal_strlit("--offset");
    reveal_strlit("--force");
    reveal_strlit("--dry-run");
    reveal_strlit("--no-logging");
    reveal_strlit("--verbose");
    assert("--block-size"@[2] != "--no-logging"@[2]);
    assert("--offset"@[2] != "--source"@[2]);
    assert("--offset"@[2] != "--target"@[2]);
    assert("--source"@[2] != "--target"@[2]);
    assert("--dry-run"@[2] != "--verbose"@[2]);
}

/// A relaunch forwards every option on its own: the arguments start with
/// the source and the target; `--block-size` is there exactly when the block
/// size is not the default, followed by it; `--offset` exactly when the
/// offset is not zero, followed by it in decimal; and each flag exactly when
/// it is set, whatever the other options are (for a source, target and
/// block size that are not themselves option names).
pub proof fn lemma_relaunch_forwards_each_option(
    source: Seq<char>,
    target: Seq<char>,
    block_size: Seq<char>,
    offset: u64,
    force: bool,
    dry_run: bool,
    no_logging: bool,
    verbose: bool,
)
    requires
        !option_name(source),
        !option_name(target),
        !option_name(block_size),
    ensures
        ({
            let argv = elevation_argv(
                source,
                target,
                block_size,
                offset,
                force,
                dry_run,
                no_logging,
                verbose,
            );
            &&& argv.take(4) == seq!["--source"@, source, "--target"@, target]
            &&& argv.contains("--block-size"@) <==> block_size != default_block_size()
            &&& block_size != default_block_size() ==> exists|i: int|
                0 <= i && i + 1 < argv.len() && #[trigger] argv[i] == "--block-size"@ && argv[i + 1]
                    == block_size
            &&& argv.contains("--offset"@) <==> offset != 0
            &&& offset != 0 ==> exists|i: int|
                0 <= i && i + 1 < argv.len() && #[trigger] argv[i] == "--offset"@ && argv[i + 1] == decimal(
                    offset as nat,
                )
            &&& argv.contains("--force"@) <==> force
            &&& argv.contains("--dry-run"@) <==> dry_run
            &&& argv.contains("--no-logging"@) <==> no_logging
            &&& argv.contains("--verbose"@) <==> verbose
        }),
{
    broadcast use vstd::seq_lib::group_seq_properties;

    lemma_option_names_differ();
    lemma_decimal_digits(offset as nat);
    let d = decimal(offset as nat);
    assert(is_ascii_digit(d[0]));
    let base = seq!["--source"@, source, "--target"@, target];
    let size_part = if block_size != default_block_size() {
        seq!["--block-size"@, block_size]
    } else {
        Seq::empty()
    };
    let offset_part = if offset != 0 {
        seq!["--offset"@, d]
    } else {
        Seq::empty()
    };
    let f1 = if force {
        seq!["--force"@]
    } else {
        Seq::empty()
    };
    let f2 = if dry_run {
        seq!["--dry-run"@]
    } else {
        Seq::empty()
    };
    let f3 = if no_logging {
        seq!["--no-logging"@]
    } else {
        Seq::empty()
    };
    let f4 = if verbose {
        seq!["--verbose"@]
    } else {
        Seq::empty()
    };
    let argv = elevation_argv(
        source,
        target,
        block_size,
        offset,
        force,
        dry_run,
        no_logging,
        verbose,
    );
    assert(argv == base + size_part + offset_part + f1 + f2 + f3 + f4);
    assert(argv.take(4) =~= base);
    if block_size != default_block_size() {
        assert(argv[4] == "--block-size"@ && argv[5] == block_size);
    }
    if offset != 0 {
        let k: int = (base.len() + size_part.len()) as int;
        assert(argv[k] == "--offset"@ && argv[k + 1] == d);
    }
    assert(d != "--block-size"@ && d != "--offset"@ && d != "--force"@ && d != "--dry-run"@
        && d != "--no-logging"@ && d != "--verbose"@) by {
        assert(d[0] != '-');
    }
}

} // verus!
