//! Reading and writing guest files on behalf of the host.
use vstd::prelude::*;
use vstd::string::*;
use vstd::utf8::*;

use crate::path::{path_join, HostPath};
use crate::protocol::{ControlResponse, ReadFileResponse, ShutdownRequest};
use crate::text::{decimal, decimal_text};

verus! {

/// Largest file that a control read returns.
pub const MAX_CONTROL_FILE_BYTES: usize = 33554432;

/// Why a file that is not regular is not read.
pub const NOT_A_REGULAR_FILE: &'static str = "control reads require a regular file";

/// Why a file of the given size is not read.
pub open spec fn too_large_message(bytes: u64) -> Seq<char> {
    "file is "@ + decimal(bytes as nat) + " bytes, exceeding the "@ + decimal(
        MAX_CONTROL_FILE_BYTES as nat,
    ) + "-byte control limit"@
}

/// Why a file that grew while it was read is not returned.
pub open spec fn grew_message() -> Seq<char> {
    "file grew beyond the "@ + decimal(MAX_CONTROL_FILE_BYTES as nat)
        + "-byte control limit while reading"@
}

/// Whether an opened file is read at all, or why not.
pub open spec fn admitted(is_file: bool, bytes: u64) -> Result<(), Seq<char>> {
    if !is_file {
        Err(NOT_A_REGULAR_FILE@)
    } else if bytes > MAX_CONTROL_FILE_BYTES {
        Err(too_large_message(bytes))
    } else {
        Ok(())
    }
}

/// What was read when it is returned, or why it is not.
pub open spec fn returned(contents: Seq<u8>) -> Result<Seq<u8>, Seq<char>> {
    if contents.len() > MAX_CONTROL_FILE_BYTES {
        Err(grew_message())
    } else {
        Ok(contents)
    }
}

/// What a control read gives for a file that had `bytes` bytes when it was
/// opened and holds `contents` when it is read.
pub open spec fn control_read(is_file: bool, bytes: u64, contents: Seq<u8>) -> Result<
    Seq<u8>,
    Seq<char>,
> {
    match admitted(is_file, bytes) {
        Err(message) => Err(message),
        Ok(_) => returned(
            if contents.len() > MAX_CONTROL_FILE_BYTES + 1 {
                contents.take(MAX_CONTROL_FILE_BYTES + 1)
            } else {
                contents
            },
        ),
    }
}

/// Decides whether an opened file is read at all, and for how many bytes to make
/// room. No more than [`control_read_limit`] bytes of it are to be read.
pub fn admit_control_read(is_file: bool, bytes: u64) -> (capacity: Result<usize, String>)
    ensures
        match capacity {
            Ok(capacity) => admitted(is_file, bytes) is Ok && capacity == bytes,
            Err(message) => admitted(is_file, bytes) == Err::<(), Seq<char>>(message@),
        },
{
    if !is_file {
        return Err(NOT_A_REGULAR_FILE.to_owned());
    }
    if bytes > MAX_CONTROL_FILE_BYTES as u64 {
        return Err(
            String::from_str("file is ").concat(decimal_text(bytes).as_str()).concat(
                " bytes, exceeding the ",
            ).concat(decimal_text(MAX_CONTROL_FILE_BYTES as u64).as_str()).concat(
                "-byte control limit",
            ),
        );
    }
    Ok(bytes as usize)
}

/// How many bytes of a file are read: one more than a control read returns, so
/// that a file that grew is noticed.
pub fn control_read_limit() -> (limit: u64)
    ensures
        limit == MAX_CONTROL_FILE_BYTES + 1,
{
    MAX_CONTROL_FILE_BYTES as u64 + 1
}

/// Decides whether what was read is returned.
pub fn finish_control_read(contents: Vec<u8>) -> (finished: Result<Vec<u8>, String>)
    ensures
        match finished {
            Ok(kept) => returned(contents@) is Ok && kept == contents,
            Err(message) => returned(contents@) == Err::<Seq<u8>, Seq<char>>(message@),
        },
{
    if contents.len() > MAX_CONTROL_FILE_BYTES {
        return Err(
            String::from_str("file grew beyond the ").concat(
                decimal_text(MAX_CONTROL_FILE_BYTES as u64).as_str(),
            ).concat("-byte control limit while reading"),
        );
    }
    Ok(contents)
}

/// The response to a read.
pub open spec fn read_response(id: u64, read: Result<Vec<u8>, String>) -> ReadFileResponse {
    match read {
        Ok(contents) => ReadFileResponse { id, contents: Some(contents), error: None },
        Err(error) => ReadFileResponse { id, contents: None, error: Some(error) },
    }
}

/// Makes the response to a read.
pub fn read_file_response(id: u64, read: Result<Vec<u8>, String>) -> (response: ReadFileResponse)
    ensures
        response == read_response(id, read),
{
    match read {
        Ok(contents) => ReadFileResponse { id, contents: Some(contents), error: None },
        Err(error) => ReadFileResponse { id, contents: None, error: Some(error) },
    }
}

/// What `std::path::Path::parent` gives for a path.
pub uninterp spec fn path_parent(path: Seq<char>) -> Option<Seq<char>>;

/// What `std::path::Path::file_name` gives for a path.
pub uninterp spec fn path_file_name(path: Seq<char>) -> Option<Seq<char>>;

/// The parent of a path, by `std::path::Path::parent`. The result depends on the
/// path alone.
#[verifier::external_body]
fn parent_of(path: &str) -> (parent: Option<String>)
    ensures
        match parent {
            Some(parent) => path_parent(path@) == Some(parent@),
            None => path_parent(path@) is None,
        },
{
    match std::path::Path::new(path).parent() {
        Some(parent) => Some(parent.to_string_lossy().into_owned()),
        None => None,
    }
}

/// The last component of a path, by `std::path::Path::file_name`. The result
/// depends on the path alone.
#[verifier::external_body]
fn file_name_of(path: &str) -> (name: Option<String>)
    ensures
        match name {
            Some(name) => path_file_name(path@) == Some(name@),
            None => path_file_name(path@) is None,
        },
{
    match std::path::Path::new(path).file_name() {
        Some(name) => Some(name.to_string_lossy().into_owned()),
        None => None,
    }
}

/// Where a file is written before it is moved into place.
#[derive(Debug)]
pub struct WritePlan<P = HostPath> {
    /// The directory that must exist.
    pub directory: P,
    /// The file that is written first, in the same directory.
    pub temporary: P,
    /// The file that it becomes.
    pub target: P,
    /// The permissions that it gets before it is moved.
    pub mode: u32,
}

impl View for WritePlan {
    type V = WritePlan<Seq<u8>>;

    open spec fn view(&self) -> WritePlan<Seq<u8>> {
        WritePlan {
            directory: self.directory@,
            temporary: self.temporary@,
            target: self.target@,
            mode: self.mode,
        }
    }
}

/// The name of the temporary file of a request that writes `name`.
pub open spec fn temporary_name(name: Seq<char>, request: u64) -> Seq<char> {
    "."@ + name + ".nanocodex-"@ + decimal(request as nat) + ".tmp"@
}

/// How to write the file `path`, which has the given parent and name.
pub open spec fn write_plan_of(
    path: Seq<char>,
    parent: Option<Seq<char>>,
    name: Option<Seq<char>>,
    request: u64,
    mode: u32,
) -> Result<WritePlan<Seq<u8>>, Seq<char>> {
    match (parent, name) {
        (None, _) => Err("file path has no parent"@),
        (_, None) => Err("file path has no name"@),
        (Some(parent), Some(name)) => Ok(
            WritePlan {
                directory: encode_utf8(parent),
                temporary: path_join(
                    encode_utf8(parent),
                    encode_utf8(temporary_name(name, request)),
                ),
                target: encode_utf8(path),
                mode,
            },
        ),
    }
}

/// Whether a plan is what it should be.
pub open spec fn plans(
    plan: Result<WritePlan, String>,
    expected: Result<WritePlan<Seq<u8>>, Seq<char>>,
) -> bool {
    match (plan, expected) {
        (Ok(plan), Ok(expected)) => plan@ == expected,
        (Err(message), Err(expected)) => message@ == expected,
        _ => false,
    }
}

/// Plans how to write `path`, which has the given parent and name.
pub fn plan_write(
    path: &str,
    parent: Option<String>,
    name: Option<String>,
    request: u64,
    mode: u32,
) -> (plan: Result<WritePlan, String>)
    ensures
        plans(
            plan,
            write_plan_of(
                path@,
                match parent {
                    Some(parent) => Some(parent@),
                    None => None,
                },
                match name {
                    Some(name) => Some(name@),
                    None => None,
                },
                request,
                mode,
            ),
        ),
{
    let Some(parent) = parent else {
        return Err("file path has no parent".to_owned());
    };
    let Some(name) = name else {
        return Err("file path has no name".to_owned());
    };
    let directory = HostPath::from_text(parent.as_str());
    let temporary = String::from_str(".").concat(name.as_str()).concat(".nanocodex-").concat(
        decimal_text(request).as_str(),
    ).concat(".tmp");
    Ok(
        WritePlan {
            temporary: directory.join(temporary.as_str()),
            directory,
            target: HostPath::from_text(path),
            mode,
        },
    )
}

/// Plans how the given request writes the file `path`, which gets the given mode.
pub fn write_plan(path: &str, request: u64, mode: u32) -> (plan: Result<WritePlan, String>)
    ensures
        plans(plan, write_plan_of(path@, path_parent(path@), path_file_name(path@), request, mode)),
{
    plan_write(path, parent_of(path), file_name_of(path), request, mode)
}

/// What an atomic write waits for.
#[derive(Debug)]
pub enum WriteStep<S> {
    /// The directory.
    CreateDirectory,
    /// The temporary file, newly created, with its contents and its mode.
    WriteTemporary,
    /// Moving the temporary file into place.
    Rename,
    /// Removing the temporary file after a failure.
    RemoveTemporary(S),
}

/// Where an atomic write goes from a step.
#[derive(Debug)]
pub enum WriteProgress<S> {
    Continue(WriteStep<S>),
    Finished(Result<(), S>),
}

/// Where an atomic write goes from a step that ended so.
pub open spec fn write_advanced<S>(step: WriteStep<S>, ended: Result<(), S>) -> WriteProgress<S> {
    match (step, ended) {
        (WriteStep::CreateDirectory, Ok(_)) => WriteProgress::Continue(WriteStep::WriteTemporary),
        (WriteStep::CreateDirectory, Err(error)) => WriteProgress::Finished(Err(error)),
        (WriteStep::WriteTemporary, Ok(_)) => WriteProgress::Continue(WriteStep::Rename),
        (WriteStep::Rename, Ok(_)) => WriteProgress::Finished(Ok(())),
        (WriteStep::RemoveTemporary(error), _) => WriteProgress::Finished(Err(error)),
        (_, Err(error)) => WriteProgress::Continue(WriteStep::RemoveTemporary(error)),
    }
}

/// Takes how a step of an atomic write ended.
pub fn advance_write<S>(step: WriteStep<S>, ended: Result<(), S>) -> (progress: WriteProgress<S>)
    ensures
        progress == write_advanced(step, ended),
{
    match (step, ended) {
        (WriteStep::CreateDirectory, Ok(_)) => WriteProgress::Continue(WriteStep::WriteTemporary),
        (WriteStep::CreateDirectory, Err(error)) => WriteProgress::Finished(Err(error)),
        (WriteStep::WriteTemporary, Ok(_)) => WriteProgress::Continue(WriteStep::Rename),
        (WriteStep::Rename, Ok(_)) => WriteProgress::Finished(Ok(())),
        (WriteStep::RemoveTemporary(error), _) => WriteProgress::Finished(Err(error)),
        (_, Err(error)) => WriteProgress::Continue(WriteStep::RemoveTemporary(error)),
    }
}

/// How the steps of one atomic write would end.
pub struct WriteWorld<S> {
    pub created: Result<(), S>,
    pub written: Result<(), S>,
    pub renamed: Result<(), S>,
    pub removed: Result<(), S>,
    /// What a failed write of the temporary file leaves in it, if it touches it.
    pub left: Option<GuestFile>,
}

impl<S> WriteWorld<S> {
    /// How a step ends.
    pub open spec fn ends(self, step: WriteStep<S>) -> Result<(), S> {
        match step {
            WriteStep::CreateDirectory => self.created,
            WriteStep::WriteTemporary => self.written,
            WriteStep::Rename => self.renamed,
            WriteStep::RemoveTemporary(_) => self.removed,
        }
    }

    /// The first failure of the steps that must succeed, if any.
    pub open spec fn outcome(self) -> Result<(), S> {
        match (self.created, self.written, self.renamed) {
            (Err(error), _, _) => Err(error),
            (_, Err(error), _) => Err(error),
            (_, _, Err(error)) => Err(error),
            _ => Ok(()),
        }
    }
}

/// The steps that an atomic write takes from a step, in order, and how it ends;
/// no end after `events` steps means that it goes on.
pub open spec fn run_write<S>(step: WriteStep<S>, world: WriteWorld<S>, events: nat) -> (
    Seq<WriteStep<S>>,
    Option<Result<(), S>>,
)
    decreases events,
{
    if events == 0 {
        (Seq::empty(), None)
    } else {
        match write_advanced(step, world.ends(step)) {
            WriteProgress::Finished(ended) => (seq![step], Some(ended)),
            WriteProgress::Continue(next) => {
                let rest = run_write(next, world, (events - 1) as nat);
                (seq![step] + rest.0, rest.1)
            },
        }
    }
}

/// An atomic write succeeds exactly when the directory exists, the temporary file
/// was written and it was moved into place; otherwise it reports the first
/// failure. It removes the temporary file exactly when writing or moving it
/// failed.
pub proof fn law_failed_write_removes_its_temporary<S>(world: WriteWorld<S>)
    ensures
        run_write(WriteStep::CreateDirectory, world, 4).1 == Some(world.outcome()),
        (exists|i: int|
            0 <= i < run_write(WriteStep::CreateDirectory, world, 4).0.len()
                && #[trigger] run_write(WriteStep::CreateDirectory, world, 4).0[i]
                is RemoveTemporary) <==> world.created is Ok && world.outcome() is Err,
{
    reveal_with_fuel(run_write, 5);
    let steps = run_write(WriteStep::CreateDirectory, world, 4).0;
    if world.created is Ok {
        match (world.written, world.renamed) {
            (Err(error), _) => {
                assert(steps[2] == WriteStep::RemoveTemporary(error));
            },
            (_, Err(error)) => {
                assert(steps[3] == WriteStep::RemoveTemporary(error));
            },
            _ => {},
        }
    }
}

/// A file of the guest.
pub struct GuestFile {
    pub contents: Seq<u8>,
    pub mode: u32,
}

/// The guest's files, by their paths.
pub type Files = Map<Seq<u8>, GuestFile>;

/// The files after a step of an atomic write.
pub open spec fn files_after<S>(
    files: Files,
    plan: WritePlan<Seq<u8>>,
    contents: Seq<u8>,
    step: WriteStep<S>,
    world: WriteWorld<S>,
) -> Files {
    match (step, world.ends(step)) {
        (WriteStep::CreateDirectory, _) => files,
        (WriteStep::WriteTemporary, Ok(_)) => files.insert(
            plan.temporary,
            GuestFile { contents, mode: plan.mode },
        ),
        (WriteStep::WriteTemporary, Err(_)) => match world.left {
            Some(left) => files.insert(plan.temporary, left),
            None => files,
        },
        (WriteStep::Rename, Ok(_)) => if plan.temporary == plan.target {
            files
        } else {
            files.insert(plan.target, files[plan.temporary]).remove(plan.temporary)
        },
        (WriteStep::RemoveTemporary(_), Ok(_)) => files.remove(plan.temporary),
        (_, Err(_)) => files,
    }
}

/// The files after the steps that [`run_write`] takes.
pub open spec fn files_written<S>(
    files: Files,
    plan: WritePlan<Seq<u8>>,
    contents: Seq<u8>,
    step: WriteStep<S>,
    world: WriteWorld<S>,
    events: nat,
) -> Files
    decreases events,
{
    if events == 0 {
        files
    } else {
        let files = files_after(files, plan, contents, step, world);
        match write_advanced(step, world.ends(step)) {
            WriteProgress::Finished(_) => files,
            WriteProgress::Continue(next) => files_written(
                files,
                plan,
                contents,
                next,
                world,
                (events - 1) as nat,
            ),
        }
    }
}

/// The files after an atomic write.
pub open spec fn after_write<S>(
    files: Files,
    plan: WritePlan<Seq<u8>>,
    contents: Seq<u8>,
    world: WriteWorld<S>,
) -> Files {
    files_written(files, plan, contents, WriteStep::CreateDirectory, world, 4)
}

/// A file that was written whole is read back as it was written, unless it is
/// larger than a control read returns: the response has the contents and no error.
pub proof fn law_read_gives_back_what_was_written<S>(
    path: Seq<char>,
    parent: Option<Seq<char>>,
    name: Option<Seq<char>>,
    request: u64,
    mode: u32,
    contents: Seq<u8>,
    files: Files,
    world: WriteWorld<S>,
    reader: u64,
    read: Result<Vec<u8>, String>,
)
    requires
        write_plan_of(path, parent, name, request, mode) is Ok,
        run_write(WriteStep::CreateDirectory, world, 4).1 == Some(Ok::<(), S>(())),
        contents.len() <= MAX_CONTROL_FILE_BYTES,
        ({
            let plan = write_plan_of(path, parent, name, request, mode)->Ok_0;
            let file = after_write(files, plan, contents, world)[encode_utf8(path)].contents;
            match (read, control_read(true, file.len() as u64, file)) {
                (Ok(read), Ok(expected)) => read@ == expected,
                (Err(message), Err(expected)) => message@ == expected,
                _ => false,
            }
        }),
    ensures
        after_write(
            files,
            write_plan_of(path, parent, name, request, mode)->Ok_0,
            contents,
            world,
        ).contains_key(encode_utf8(path)),
        read_response(reader, read).id == reader,
        read_response(reader, read).error is None,
        read_response(reader, read).contents matches Some(read) && read@ == contents,
{
    law_failed_write_removes_its_temporary(world);
    reveal_with_fuel(files_written, 5);
}

/// After a write that succeeds, the file at the path has the mode that was asked
/// for, whatever it had before; after one that fails it has the mode that it had,
/// unless it is itself the temporary file.
pub proof fn law_written_file_has_its_mode<S>(
    path: Seq<char>,
    parent: Option<Seq<char>>,
    name: Option<Seq<char>>,
    request: u64,
    mode: u32,
    contents: Seq<u8>,
    files: Files,
    world: WriteWorld<S>,
)
    requires
        write_plan_of(path, parent, name, request, mode) is Ok,
    ensures
        ({
            let plan = write_plan_of(path, parent, name, request, mode)->Ok_0;
            let target = encode_utf8(path);
            let after = after_write(files, plan, contents, world);
            if world.outcome() is Ok {
                after.contains_key(target) && after[target].mode == mode
            } else {
                plan.temporary != target ==> {
                    &&& after.contains_key(target) == files.contains_key(target)
                    &&& files.contains_key(target) ==> after[target].mode == files[target].mode
                }
            }
        }),
{
    reveal_with_fuel(files_written, 5);
}

/// A write that fails leaves every file but its temporary one as it was, contents
/// and mode, and so the target; a write that succeeds changes the target alone,
/// which then has the contents and the mode of the request. No temporary file is
/// left behind: after a success in any case, after a failure where there was none
/// before and removing it worked.
pub proof fn law_write_is_all_or_nothing<S>(
    files: Files,
    plan: WritePlan<Seq<u8>>,
    contents: Seq<u8>,
    world: WriteWorld<S>,
    other: Seq<u8>,
)
    requires
        plan.temporary != plan.target,
        other != plan.temporary,
    ensures
        ({
            let after = after_write(files, plan, contents, world);
            let expected = if world.outcome() is Ok {
                files.insert(plan.target, GuestFile { contents, mode: plan.mode })
            } else {
                files
            };
            &&& after.contains_key(other) == expected.contains_key(other)
            &&& expected.contains_key(other) ==> after[other] == expected[other]
            &&& world.outcome() is Ok || world.removed is Ok && !files.contains_key(plan.temporary)
                ==> !after.contains_key(plan.temporary)
        }),
{
    reveal_with_fuel(files_written, 5);
}

/// The response to a write.
pub fn write_file_response(id: u64, written: Result<(), String>) -> (response: ControlResponse)
    ensures
        response == (ControlResponse {
            id,
            error: match written {
                Ok(_) => None,
                Err(error) => Some(error),
            },
        }),
{
    ControlResponse {
        id,
        error: match written {
            Ok(_) => None,
            Err(error) => Some(error),
        },
    }
}

/// How synchronizing the file systems ended.
#[derive(Debug)]
pub enum SyncOutcome {
    Succeeded,
    /// The program exited with the described status.
    Exited(String),
    /// The program could not be run.
    Failed(String),
}

/// The response to a shutdown, once the file systems were synchronized.
pub fn shutdown_response(request: ShutdownRequest, outcome: SyncOutcome) -> (response:
    ControlResponse)
    ensures
        response.id == request.id,
        match (outcome, response.error) {
            (SyncOutcome::Succeeded, None) => true,
            (SyncOutcome::Exited(status), Some(error)) => error@ == "sync exited with "@ + status@,
            (SyncOutcome::Failed(failure), Some(error)) => error == failure,
            _ => false,
        },
{
    let error = match outcome {
        SyncOutcome::Succeeded => None,
        SyncOutcome::Exited(status) => Some(
            String::from_str("sync exited with ").concat(status.as_str()),
        ),
        SyncOutcome::Failed(error) => Some(error),
    };
    ControlResponse { id: request.id, error }
}

} // verus!
