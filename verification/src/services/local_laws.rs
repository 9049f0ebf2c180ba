//! What a build on this machine does, said of its commands, its archives and its
//! stages.

use crate::error::{AppError, AppErrorView};
use crate::models::build_job::{BuildJob, BuildJobView};
use crate::models::state::BuilderConfigView;
use crate::outside;
use crate::services::build_laws;
use crate::services::local_build;
use crate::services::local_build::{
    ArchiveGuard, CommandLine, CommandView, EntryKind, LocalAction, LocalActionView, LocalStage,
    LocalStep, LocalStepView,
};
use crate::text;
use vstd::prelude::*;
use vstd::string::*;

verus! {

/// The command that follows a successful unpacking runs docker in the unpacked
/// directory. It builds the job's Dockerfile there and tags the image with the
/// job's template path, for every job.
pub proof fn law_unpacked_source_is_built(
    config: BuilderConfigView,
    job: BuildJobView,
    dir: Seq<char>,
)
    ensures
        local_build::local_next(config, job, LocalStage::Extracting, Ok(dir))
            matches LocalStepView::Next(next, stage, LocalActionView::Run(command)) && {
            &&& next == job && stage is Building
            &&& command.program == config.local_docker_binary
            &&& command.current_dir == Some(dir)
            &&& command.args.len() == 6
            &&& command.args[0] == "build"@
            &&& command.args[1] == "-f"@ && command.args[2] == job.dockerfile_path
            &&& command.args[3] == "-t"@ && command.args[4] == job.template_path
            &&& command.args[5] == "."@
        },
{
}

/// Two jobs whose unpacked sources are built by the same command have the same
/// Dockerfile and the same template path, and were unpacked to the same place.
pub proof fn law_build_commands_tell_jobs_apart(
    config: BuilderConfigView,
    a: BuildJobView,
    b: BuildJobView,
    dir: Seq<char>,
    other: Seq<char>,
)
    requires
        ({
            let x = local_build::local_next(config, a, LocalStage::Extracting, Ok(dir));
            let y = local_build::local_next(config, b, LocalStage::Extracting, Ok(other));
            x->Next_2 == y->Next_2
        }),
    ensures
        a.dockerfile_path == b.dockerfile_path,
        a.template_path == b.template_path,
        dir == other,
{
    law_unpacked_source_is_built(config, a, dir);
    law_unpacked_source_is_built(config, b, other);
}

/// A built image is loaded into the configured cluster where loading is switched
/// on; the command names the very image that was tagged.
pub proof fn law_built_image_is_loaded(
    config: BuilderConfigView,
    job: BuildJobView,
    dir: Seq<char>,
    output: Seq<char>,
)
    requires
        config.local_kind_load_enabled,
    ensures
        local_build::local_next(config, job, LocalStage::Building, Ok(output))
            matches LocalStepView::Next(next, stage, LocalActionView::Run(command)) && {
            &&& next == job && stage is Loading
            &&& command.program == config.local_kind_binary
            &&& command.current_dir is None
            &&& command.args.len() == 5
            &&& command.args[0] == "load"@ && command.args[1] == "docker-image"@
            &&& command.args[2] == job.template_path
            &&& command.args[3] == "--name"@
            &&& command.args[4] == config.local_kind_cluster_name
            &&& local_build::local_next(config, job, LocalStage::Extracting, Ok(dir))
                matches LocalStepView::Next(_, _, LocalActionView::Run(build)) && build.args[4]
                == command.args[2]
        },
{
}

/// The job is ready after its image was loaded, or, where loading is switched
/// off, after its image was built. Only the first sets the mark that it was
/// loaded.
pub proof fn law_last_stage_makes_the_job_ready(
    config: BuilderConfigView,
    job: BuildJobView,
    output: Seq<char>,
)
    ensures
        local_build::local_next(config, job, LocalStage::Loading, Ok(output))
            matches LocalStepView::Finished(done) && done.status is Ready && done.failure_message
            is None && done.loaded_to_kind && done.same_build(job) && done.cloud_build_id
            == job.cloud_build_id,
        !config.local_kind_load_enabled ==> (local_build::local_next(
            config,
            job,
            LocalStage::Building,
            Ok(output),
        ) matches LocalStepView::Finished(done) && done.status is Ready && done.failure_message
            is None && done.loaded_to_kind == job.loaded_to_kind && done.same_build(job)),
{
}

/// A build on this machine first looks for the job's archive, and then unpacks
/// what it found. Where such builds are switched off, the job is ready at once.
pub proof fn law_archive_is_found_and_unpacked(
    config: BuilderConfigView,
    job: BuildJobView,
    found: Seq<char>,
)
    ensures
        config.local_execution_enabled ==> local_build::local_start(config, job)
            == LocalStepView::Next(
            job,
            LocalStage::Resolving,
            LocalActionView::ResolveArchive(job.source_archive_path),
        ),
        !config.local_execution_enabled ==> (local_build::local_start(config, job)
            matches LocalStepView::Finished(done) && done.status is Ready && done.failure_message
            is None && done.loaded_to_kind == job.loaded_to_kind && done.same_build(job)),
        local_build::local_next(config, job, LocalStage::Resolving, Ok(found))
            == LocalStepView::Next(
            job,
            LocalStage::Extracting,
            LocalActionView::ExtractArchive(found),
        ),
{
}

/// A stage that fails ends the build with its error, whichever it is.
pub proof fn law_failed_stage_tells_its_error(
    config: BuilderConfigView,
    job: BuildJobView,
    stage: LocalStage,
    e: AppErrorView,
)
    ensures
        local_build::local_next(config, job, stage, Err(e)) == LocalStepView::Failed(e),
{
}

/// A command is shown with its program, each of its arguments and its directory.
pub proof fn law_command_shows_its_parts(command: CommandLine, i: int)
    requires
        0 <= i < command.args@.len(),
    ensures
        command@.program == command.program@,
        command@.args.len() == command.args@.len(),
        command@.args[i] == command.args@[i]@,
        command@.current_dir == text::opt_text(command.current_dir),
{
}

/// The error of a failed command tells the program, all of its arguments in
/// their order, and the details.
pub proof fn law_failed_command_is_told(program: Seq<char>, a: Seq<char>, b: Seq<char>, c: Seq<
    char,
>, dir: Option<Seq<char>>, details: Seq<char>)
    ensures
        local_build::command_failure(
            CommandView { program, args: seq![a, b, c], current_dir: dir },
            details,
        ) == AppErrorView::Internal(
            "Command `"@ + program + " "@ + (a + " "@ + b + " "@ + c) + "` failed: "@ + details,
        ),
        local_build::command_failure(
            CommandView { program, args: seq![a], current_dir: dir },
            details,
        ) == AppErrorView::Internal(
            "Command `"@ + program + " "@ + a + "` failed: "@ + details,
        ),
{
    reveal_strlit(" ");
    crate::text_laws::law_join_of_few(a, b, ' ');
    let three = seq![a, b, c];
    assert(three.drop_last() =~= seq![a, b]);
    assert(text::join(three, ' ') =~= a + " "@ + b + " "@ + c);
}

/// A failed command speaks for itself by its error output; where that is blank,
/// by its output; where that is blank too, by how it ended.
pub proof fn law_failed_command_speaks_for_itself(
    stderr: Seq<char>,
    stdout: Seq<char>,
    status_text: Seq<char>,
)
    ensures
        text::trim(stderr).len() > 0 ==> local_build::command_details(stderr, stdout, status_text)
            == text::trim(stderr),
        text::trim(stderr).len() == 0 && text::trim(stdout).len() > 0
            ==> local_build::command_details(stderr, stdout, status_text) == text::trim(stdout),
        text::trim(stderr).len() == 0 && text::trim(stdout).len() == 0
            ==> local_build::command_details(stderr, stdout, status_text)
            == "exit status "@ + status_text,
{
}

/// The name of an archive ends in `.gz`, and in `.tar.gz` in small letters or in
/// capitals; every name that ends in `.tar.gz` is one.
pub proof fn law_archive_name(stem: Seq<char>, path: Seq<char>)
    ensures
        local_build::is_archive_name(stem + ".tar.gz"@),
        local_build::is_archive_name(path) ==> ".gz"@.is_suffix_of(path) && ".tar.gz"@.is_suffix_of(
            text::lower(path),
        ),
        ".gz"@.is_suffix_of(path) && ".tar.gz"@.is_suffix_of(text::lower(path))
            ==> local_build::is_archive_name(path),
{
    reveal_strlit(".tar.gz");
    reveal_strlit(".gz");
    let whole = stem + ".tar.gz"@;
    let low = text::lower(whole);
    assert(text::lower(".tar.gz"@) =~= ".tar.gz"@);
    assert(low =~= text::lower(stem) + ".tar.gz"@);
    assert(low.subrange(low.len() - 7, low.len() as int) =~= ".tar.gz"@);
    assert(whole.subrange(whole.len() - 3, whole.len() as int) =~= ".gz"@);
}

/// A found path is accepted as an archive exactly when it is a file with the name
/// of an archive. The error tells which of the three is missing: the path, the
/// file or the name.
pub proof fn law_archive_has_to_be_a_file(
    path: Seq<char>,
    is_file: Result<bool, Seq<char>>,
    cause: Seq<char>,
)
    ensures
        local_build::file_check(path, is_file) is Ok <==> is_file == Ok::<bool, Seq<char>>(true)
            && local_build::is_archive_name(path),
        local_build::file_check(path, Err(cause)) == Err::<(), AppErrorView>(
            AppErrorView::BadRequest(
                "source_archive_path must point to an existing local archive: "@ + cause,
            ),
        ),
        local_build::file_check(path, Ok(false)) == Err::<(), AppErrorView>(
            AppErrorView::BadRequest("source_archive_path must point to a file"@),
        ),
        !local_build::is_archive_name(path) ==> local_build::file_check(path, Ok(true)) == Err::<
            (),
            AppErrorView,
        >(AppErrorView::BadRequest("source_archive_path must point to a .tar.gz archive"@)),
{
}

/// Plain files and directories are unpacked, links, devices and everything else
/// are not.
pub proof fn law_files_and_directories_are_unpacked(kind: EntryKind)
    ensures
        EntryKind::Regular.is_supported(),
        EntryKind::Directory.is_supported(),
        !(kind is Regular) && !(kind is Directory) ==> !kind.is_supported(),
{
}

/// An entry is let through exactly when the number of entries before it is below
/// the limit, its kind is unpacked, and its size still fits. It then counts once,
/// with its size. A refused one is told the first of these that fails.
pub proof fn law_entry_is_let_through(
    guard: ArchiveGuard,
    config: BuilderConfigView,
    kind: EntryKind,
    size: u64,
)
    ensures
        ({
            let after = guard.after_entry(config, kind, size);
            let free = guard.entries < config.max_archive_entries;
            let kept = kind is Regular || kind is Directory;
            let fits = guard.bytes + size <= config.max_archive_uncompressed_bytes;
            &&& free && kept && fits ==> (after matches Ok(next) && next.entries == guard.entries + 1
                && next.bytes == guard.bytes + size)
            &&& !free ==> (after matches Err(e) && e == AppErrorView::BadRequest(
                "Source archive contains too many entries"@,
            ))
            &&& free && !kept ==> (after matches Err(e) && e == AppErrorView::BadRequest(
                "Source archive contains an unsupported entry type"@,
            ))
            &&& free && kept && !fits ==> (after matches Err(e) && e == AppErrorView::BadRequest(
                "Source archive exceeds the configured uncompressed size limit"@,
            ))
        }),
{
}

/// What was unpacked keeps to the limits when neither is passed.
pub proof fn law_limits_of_an_archive(guard: ArchiveGuard, config: BuilderConfigView)
    ensures
        guard.within_limits(config) <==> guard.entries <= config.max_archive_entries && guard.bytes
            <= config.max_archive_uncompressed_bytes,
{
}

/// Every job is unpacked into a directory of its own, named by the job, below
/// the one for such directories.
pub proof fn law_each_job_has_its_own_directory(root: Seq<char>, build_id: u128)
    requires
        root.len() > 0,
        root.last() != '/',
    ensures
        local_build::context_dir(root, build_id) == root + "/local-build-contexts/"@
            + outside::uuid_text(build_id),
{
    build_laws::lemma_uuid_is_segment(build_id);
    reveal_strlit("/local-build-contexts/");
    reveal_strlit("local-build-contexts");
    let contexts = root.push('/') + "local-build-contexts"@;
    assert(contexts.push('/') =~= root + "/local-build-contexts/"@);
}

/// Actions and steps of a build on this machine are shown as what they are.
pub proof fn law_local_steps_show_what_they_are(
    path: String,
    command: CommandLine,
    job: BuildJob,
    stage: LocalStage,
    action: LocalAction,
    e: AppError,
)
    ensures
        LocalAction::ResolveArchive(path)@ == LocalActionView::ResolveArchive(path@),
        LocalAction::ExtractArchive(path)@ == LocalActionView::ExtractArchive(path@),
        LocalAction::Run(command)@ == LocalActionView::Run(command@),
        LocalStep::Next(job, stage, action)@ == LocalStepView::Next(job@, stage, action@),
        LocalStep::Finished(job)@ == LocalStepView::Finished(job@),
        LocalStep::Failed(e)@ == LocalStepView::Failed(e@),
{
}

} // verus!
