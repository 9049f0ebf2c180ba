//! Building on this machine: the archive that is unpacked, the commands that are
//! run, and how the job goes on after each of them.

use crate::error;
use crate::error::{bad_request, AppError, AppErrorView};
use crate::models::build_job::{BuildJob, BuildJobView};
use crate::models::state::{BuilderConfig, BuilderConfigView};
use crate::outside;
use crate::outside::{lossy_string, uuid_string};
use crate::services::path_safety;
use crate::services::path_safety::join_relative_to_root;
use crate::services::tracking;
use crate::services::tracking::end_build;
use crate::text;
use crate::text::{ends_with, joined, lowered, owned, trimmed};
use vstd::prelude::*;
use vstd::string::*;

verus! {

/// Whether a path names a gzipped tar archive. The `gz` has to be in small
/// letters.
pub open spec fn is_archive_name(path: Seq<char>) -> bool {
    ".gz"@.is_suffix_of(path) && ".tar.gz"@.is_suffix_of(text::lower(path))
}

/// What the file at a path that was looked up comes to. `is_file` is what the
/// disk says of it, or the text of the error.
pub open spec fn file_check(path: Seq<char>, is_file: Result<bool, Seq<char>>) -> Result<
    (),
    AppErrorView,
> {
    match is_file {
        Err(cause) => Err(
            AppErrorView::BadRequest(
                "source_archive_path must point to an existing local archive: "@ + cause,
            ),
        ),
        Ok(false) => Err(AppErrorView::BadRequest("source_archive_path must point to a file"@)),
        Ok(true) => if is_archive_name(path) {
            Ok(())
        } else {
            Err(
                AppErrorView::BadRequest("source_archive_path must point to a .tar.gz archive"@),
            )
        },
    }
}

/// Checks the file that a source archive path led to.
pub fn check_archive_file(path: &str, is_file: Result<bool, String>) -> (r: Result<(), AppError>)
    ensures
        error::unit_outcome(r) == file_check(
            path@,
            match is_file {
                Ok(b) => Ok::<bool, Seq<char>>(b),
                Err(cause) => Err(cause@),
            },
        ),
{
    match is_file {
        Err(cause) => Err(
            AppError::BadRequest(
                owned("source_archive_path must point to an existing local archive: ").concat(
                    cause.as_str(),
                ),
            ),
        ),
        Ok(found) => {
            if !found {
                return Err(bad_request("source_archive_path must point to a file"));
            }
            if ends_with(path, ".gz") && ends_with(lowered(path).as_str(), ".tar.gz") {
                Ok(())
            } else {
                Err(bad_request("source_archive_path must point to a .tar.gz archive"))
            }
        },
    }
}

/// The directory that a build's archive is unpacked into.
pub open spec fn context_dir(root: Seq<char>, build_id: u128) -> Seq<char> {
    path_safety::join_path(
        path_safety::join_path(root, "local-build-contexts"@),
        outside::uuid_text(build_id),
    )
}

/// The directory that a build's archive is unpacked into, below the root.
pub fn local_context_dir(root: &str, build_id: u128) -> (r: Result<String, AppError>)
    ensures
        error::text_outcome(r) == match path_safety::joined_to_root(
            root@,
            "local-build-contexts"@,
        ) {
            Ok(contexts) => path_safety::joined_to_root(contexts, outside::uuid_text(build_id)),
            Err(e) => Err(e),
        },
{
    let contexts = match join_relative_to_root(root, "local-build-contexts") {
        Ok(contexts) => contexts,
        Err(e) => {
            return Err(e);
        },
    };
    let id = uuid_string(build_id);
    join_relative_to_root(contexts.as_str(), id.as_str())
}

/// What an entry of an archive is, by the types that tar archives know.
#[derive(Debug, Clone, Copy, PartialEq, Eq, Structural)]
pub enum EntryKind {
    Regular,
    Link,
    Symlink,
    Char,
    Block,
    Directory,
    Fifo,
    Continuous,
    GnuLongName,
    GnuLongLink,
    GnuSparse,
    XGlobalHeader,
    XHeader,
    /// A type of any other number.
    Other(u8),
}

impl EntryKind {
    /// The kinds that are unpacked: plain files and directories.
    pub open spec fn is_supported(self) -> bool {
        self is Regular || self is Directory
    }

    /// Whether entries of this kind are unpacked.
    pub fn supported(self) -> (r: bool)
        ensures
            r == self.is_supported(),
    {
        match self {
            EntryKind::Regular => true,
            EntryKind::Directory => true,
            _ => false,
        }
    }
}

/// How much of an archive was unpacked.
#[derive(Debug, Clone, Copy, PartialEq, Eq, Structural)]
pub struct ArchiveGuard {
    pub entries: usize,
    pub bytes: u64,
}

impl ArchiveGuard {
    /// What was unpacked keeps to the limits.
    pub open spec fn within_limits(self, config: BuilderConfigView) -> bool {
        self.entries <= config.max_archive_entries && self.bytes
            <= config.max_archive_uncompressed_bytes
    }

    /// The guard after one more entry, or why the entry is refused.
    pub open spec fn after_entry(self, config: BuilderConfigView, kind: EntryKind, size: u64) -> Result<
        ArchiveGuard,
        AppErrorView,
    > {
        if self.entries >= config.max_archive_entries {
            Err(AppErrorView::BadRequest("Source archive contains too many entries"@))
        } else if !kind.is_supported() {
            Err(AppErrorView::BadRequest("Source archive contains an unsupported entry type"@))
        } else if self.bytes + size > config.max_archive_uncompressed_bytes {
            Err(
                AppErrorView::BadRequest(
                    "Source archive exceeds the configured uncompressed size limit"@,
                ),
            )
        } else {
            Ok(
                ArchiveGuard {
                    entries: (self.entries + 1) as usize,
                    bytes: (self.bytes + size) as u64,
                },
            )
        }
    }

    /// An archive of which nothing was unpacked yet.
    pub fn new() -> (r: Self)
        ensures
            r == (ArchiveGuard { entries: 0, bytes: 0 }),
            forall|config: BuilderConfigView| r.within_limits(config),
    {
        ArchiveGuard { entries: 0, bytes: 0 }
    }

    /// Lets one more entry through, unless it is of an unsupported kind or would
    /// break a limit.
    pub fn take_entry(&mut self, config: &BuilderConfig, kind: EntryKind, size: u64) -> (r: Result<
        (),
        AppError,
    >)
        ensures
            match r {
                Ok(_) => old(self).after_entry(config@, kind, size) == Ok::<ArchiveGuard, AppErrorView>(
                    *final(self),
                ),
                Err(e) => {
                    &&& old(self).after_entry(config@, kind, size) == Err::<ArchiveGuard, AppErrorView>(
                        e@,
                    )
                    &&& *final(self) == *old(self)
                },
            },
            old(self).within_limits(config@) ==> final(self).within_limits(config@),
    {
        if self.entries >= config.max_archive_entries {
            return Err(bad_request("Source archive contains too many entries"));
        }
        if !kind.supported() {
            return Err(bad_request("Source archive contains an unsupported entry type"));
        }
        if size > config.max_archive_uncompressed_bytes || self.bytes
            > config.max_archive_uncompressed_bytes - size {
            return Err(
                bad_request("Source archive exceeds the configured uncompressed size limit"),
            );
        }
        self.entries = self.entries + 1;
        self.bytes = self.bytes + size;
        Ok(())
    }
}

/// A command of this machine.
#[derive(Debug)]
pub struct CommandLine {
    pub program: String,
    pub args: Vec<String>,
    pub current_dir: Option<String>,
}

/// A command with its texts.
pub struct CommandView {
    pub program: Seq<char>,
    pub args: Seq<Seq<char>>,
    pub current_dir: Option<Seq<char>>,
}

impl View for CommandLine {
    type V = CommandView;

    open spec fn view(&self) -> CommandView {
        CommandView {
            program: self.program@,
            args: text::texts(self.args@),
            current_dir: text::opt_text(self.current_dir),
        }
    }
}

/// What a failed command says for itself: what it wrote to its error output,
/// else to its output, else how it ended.
pub open spec fn command_details(
    stderr: Seq<char>,
    stdout: Seq<char>,
    status_text: Seq<char>,
) -> Seq<char> {
    if text::trim(stderr).len() > 0 {
        text::trim(stderr)
    } else if text::trim(stdout).len() > 0 {
        text::trim(stdout)
    } else {
        "exit status "@ + status_text
    }
}

/// The error for a command that failed.
pub open spec fn command_failure(command: CommandView, details: Seq<char>) -> AppErrorView {
    AppErrorView::Internal(
        "Command `"@ + command.program + " "@ + text::join(command.args, ' ') + "` failed: "@
            + details,
    )
}

/// What a failed command says for itself.
pub fn failure_details(stderr: &str, stdout: &str, status_text: &str) -> (r: String)
    ensures
        r@ == command_details(stderr@, stdout@, status_text@),
{
    let errors = trimmed(stderr);
    if !errors.as_str().is_empty() {
        return errors;
    }
    let output = trimmed(stdout);
    if !output.as_str().is_empty() {
        return output;
    }
    owned("exit status ").concat(status_text)
}

/// What running a command comes to. `status_text` says how it ended.
pub fn run_command(
    command: &CommandLine,
    success: bool,
    status_text: &str,
    stderr: &Vec<u8>,
    stdout: &Vec<u8>,
) -> (r: Result<(), AppError>)
    ensures
        error::unit_outcome(r) == if success {
            Ok::<(), AppErrorView>(())
        } else {
            Err(
                command_failure(
                    command@,
                    command_details(
                        outside::lossy_text(stderr@),
                        outside::lossy_text(stdout@),
                        status_text@,
                    ),
                ),
            )
        },
{
    if success {
        return Ok(());
    }
    let details = failure_details(
        lossy_string(stderr).as_str(),
        lossy_string(stdout).as_str(),
        status_text,
    );
    Err(
        AppError::Internal(
            owned("Command `").concat(command.program.as_str()).concat(" ").concat(
                joined(&command.args, ' ').as_str(),
            ).concat("` failed: ").concat(details.as_str()),
        ),
    )
}

/// How far a build on this machine has come.
#[derive(Debug, Clone, Copy, PartialEq, Eq, Structural)]
pub enum LocalStage {
    Resolving,
    Extracting,
    Building,
    Loading,
}

/// What has to be done next for a build on this machine.
#[derive(Debug)]
pub enum LocalAction {
    /// Find the archive within the root; the outcome is its canonical path.
    ResolveArchive(String),
    /// Unpack the archive; the outcome is the directory with its contents.
    ExtractArchive(String),
    /// Run a command; the outcome's text does not matter.
    Run(CommandLine),
}

/// What has to be done next, with its texts.
pub enum LocalActionView {
    ResolveArchive(Seq<char>),
    ExtractArchive(Seq<char>),
    Run(CommandView),
}

impl View for LocalAction {
    type V = LocalActionView;

    open spec fn view(&self) -> LocalActionView {
        match self {
            LocalAction::ResolveArchive(path) => LocalActionView::ResolveArchive(path@),
            LocalAction::ExtractArchive(path) => LocalActionView::ExtractArchive(path@),
            LocalAction::Run(command) => LocalActionView::Run(command@),
        }
    }
}

/// A build on this machine after one of its stages.
#[derive(Debug)]
pub enum LocalStep {
    /// The build goes on with an action.
    Next(BuildJob, LocalStage, LocalAction),
    /// The build has succeeded.
    Finished(BuildJob),
    /// The build has failed.
    Failed(AppError),
}

/// A build on this machine after one of its stages, with its texts.
pub enum LocalStepView {
    Next(BuildJobView, LocalStage, LocalActionView),
    Finished(BuildJobView),
    Failed(AppErrorView),
}

impl View for LocalStep {
    type V = LocalStepView;

    open spec fn view(&self) -> LocalStepView {
        match self {
            LocalStep::Next(job, stage, action) => LocalStepView::Next(job@, *stage, action@),
            LocalStep::Finished(job) => LocalStepView::Finished(job@),
            LocalStep::Failed(e) => LocalStepView::Failed(e@),
        }
    }
}

/// The command that builds a job's image in a directory.
pub open spec fn build_command(config: BuilderConfigView, job: BuildJobView, dir: Seq<char>) -> CommandView {
    CommandView {
        program: config.local_docker_binary,
        args: seq!["build"@, "-f"@, job.dockerfile_path, "-t"@, job.template_path, "."@],
        current_dir: Some(dir),
    }
}

/// The command that loads a job's image into the cluster.
pub open spec fn load_command(config: BuilderConfigView, job: BuildJobView) -> CommandView {
    CommandView {
        program: config.local_kind_binary,
        args: seq![
            "load"@,
            "docker-image"@,
            job.template_path,
            "--name"@,
            config.local_kind_cluster_name,
        ],
        current_dir: None,
    }
}

/// How a build on this machine begins.
pub open spec fn local_start(config: BuilderConfigView, job: BuildJobView) -> LocalStepView {
    if config.local_execution_enabled {
        LocalStepView::Next(
            job,
            LocalStage::Resolving,
            LocalActionView::ResolveArchive(job.source_archive_path),
        )
    } else {
        LocalStepView::Finished(tracking::ended(job, None))
    }
}

/// How a build on this machine goes on after the outcome of a stage.
pub open spec fn local_next(
    config: BuilderConfigView,
    job: BuildJobView,
    stage: LocalStage,
    outcome: Result<Seq<char>, AppErrorView>,
) -> LocalStepView {
    match outcome {
        Err(e) => LocalStepView::Failed(e),
        Ok(found) => match stage {
            LocalStage::Resolving => LocalStepView::Next(
                job,
                LocalStage::Extracting,
                LocalActionView::ExtractArchive(found),
            ),
            LocalStage::Extracting => LocalStepView::Next(
                job,
                LocalStage::Building,
                LocalActionView::Run(build_command(config, job, found)),
            ),
            LocalStage::Building => if config.local_kind_load_enabled {
                LocalStepView::Next(
                    job,
                    LocalStage::Loading,
                    LocalActionView::Run(load_command(config, job)),
                )
            } else {
                LocalStepView::Finished(tracking::ended(job, None))
            },
            LocalStage::Loading => LocalStepView::Finished(
                tracking::ended(BuildJobView { loaded_to_kind: true, ..job }, None),
            ),
        },
    }
}

/// Begins the build of a job on this machine. Where local execution is disabled
/// the job is ready at once.
pub fn build_and_load_locally(config: &BuilderConfig, job: BuildJob) -> (r: LocalStep)
    ensures
        r@ == local_start(config@, job@),
{
    if !config.local_execution_enabled {
        let mut done = job;
        end_build(&mut done, None);
        return LocalStep::Finished(done);
    }
    let path = job.source_archive_path.clone();
    LocalStep::Next(job, LocalStage::Resolving, LocalAction::ResolveArchive(path))
}

/// Goes on with a build after the outcome of a stage: the archive is found, then
/// unpacked, then the image is built and, where that is enabled, loaded into the
/// cluster. The first failure ends the build.
pub fn continue_local_build(
    config: &BuilderConfig,
    job: BuildJob,
    stage: LocalStage,
    outcome: Result<String, AppError>,
) -> (r: LocalStep)
    ensures
        r@ == local_next(config@, job@, stage, error::text_outcome(outcome)),
{
    let found = match outcome {
        Ok(found) => found,
        Err(e) => {
            return LocalStep::Failed(e);
        },
    };
    match stage {
        LocalStage::Resolving => LocalStep::Next(
            job,
            LocalStage::Extracting,
            LocalAction::ExtractArchive(found),
        ),
        LocalStage::Extracting => {
            let mut args: Vec<String> = Vec::new();
            args.push(owned("build"));
            args.push(owned("-f"));
            args.push(job.dockerfile_path.clone());
            args.push(owned("-t"));
            args.push(job.template_path.clone());
            args.push(owned("."));
            assert(text::texts(args@) =~= build_command(config@, job@, found@).args);
            let command = CommandLine {
                program: config.local_docker_binary.clone(),
                args,
                current_dir: Some(found),
            };
            LocalStep::Next(job, LocalStage::Building, LocalAction::Run(command))
        },
        LocalStage::Building => {
            if !config.local_kind_load_enabled {
                let mut done = job;
                end_build(&mut done, None);
                return LocalStep::Finished(done);
            }
            let mut args: Vec<String> = Vec::new();
            args.push(owned("load"));
            args.push(owned("docker-image"));
            args.push(job.template_path.clone());
            args.push(owned("--name"));
            args.push(config.local_kind_cluster_name.clone());
            assert(text::texts(args@) =~= load_command(config@, job@).args);
            let command = CommandLine {
                program: config.local_kind_binary.clone(),
                args,
                current_dir: None,
            };
            LocalStep::Next(job, LocalStage::Loading, LocalAction::Run(command))
        },
        LocalStage::Loading => {
            let mut done = job;
            done.loaded_to_kind = true;
            end_build(&mut done, None);
            LocalStep::Finished(done)
        },
    }
}

} // verus!
