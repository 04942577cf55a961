//! The service's requests and answers, and the decisions of each request,
//! written as steps that the server runs: each step either asks for one piece
//! of outside work or gives the answer.

use vstd::prelude::*;
use crate::codec::{is_v4_uuid, base64_decoding, decodes_to, decode_contents, is_uuid_text, is_valid_uuid, new_workspace_id};
use crate::docker::CompileOutcome;
use crate::error::{ApiError, ErrorCode};
use crate::text::{joined, same_text};
use crate::validation::{decoded_len, decoded_len_estimate, exceeds_file_limit, MAX_TOTAL_BYTES, is_path_safe, is_safe_path, is_source_type, is_supported_source_type, MAX_FILE_BYTES};

verus! {

broadcast use vstd::string::group_string_axioms;

/// Query of a sync request.
pub struct SyncQuery {
    pub source_type: String,
}

/// One uploaded file: its relative path and its contents in Base64.
pub struct FileEntry {
    pub path: String,
    pub content: String,
}

/// Body of a sync request.
pub struct SyncRequest {
    pub files: Vec<FileEntry>,
}

/// Answer to a successful sync.
pub struct SyncResponse {
    pub success: bool,
    pub workspace_id: String,
    pub source_type: String,
}

/// Query of a compile request.
pub struct CompileQuery {
    pub workspace_id: String,
    pub source_type: String,
}

/// Answer to a compile request.
pub struct CompileResponse {
    pub success: bool,
    pub workspace_id: String,
    pub status_code: i32,
    pub output: String,
}

/// Query of an output request.
pub struct OutputQuery {
    pub workspace_id: String,
}

/// Answer to a successful delete request.
pub struct DeleteResponse {
    pub success: bool,
    pub workspace_id: String,
    pub message: String,
}

/// `e` is the error answer with `code` and `message`.
pub open spec fn is_error(e: ApiError, code: ErrorCode, message: Seq<char>) -> bool {
    e.code == code && e.message@ == message
}

/// The length in bytes of a text (what `str::len` gives).
pub open spec fn byte_len(s: Seq<char>) -> usize {
    vstd::utf8::encode_utf8(s).len() as usize
}

/// The file's decoded contents stay within the per-file limit.
pub open spec fn file_within_limit(f: FileEntry) -> bool {
    !(decoded_len_estimate(byte_len(f.content@) as int) > MAX_FILE_BYTES)
}

/// The file may be accepted: a safe path and contents within the limit.
pub open spec fn file_accepted(f: FileEntry) -> bool {
    is_safe_path(f.path@) && file_within_limit(f)
}

/// The first file at or after `i` that is not accepted.
pub open spec fn first_rejected_from(files: Seq<FileEntry>, i: int) -> Option<int>
    decreases files.len() - i,
{
    if i < 0 || i >= files.len() {
        None
    } else if !file_accepted(files[i]) {
        Some(i)
    } else {
        first_rejected_from(files, i + 1)
    }
}

/// The decoded size of all files together.
pub open spec fn total_decoded(files: Seq<FileEntry>) -> int
    decreases files.len(),
{
    if files.len() == 0 {
        0
    } else {
        total_decoded(files.drop_last()) + decoded_len_estimate(
            byte_len(files.last().content@) as int,
        )
    }
}

/// The message that refuses an upload too large as a whole.
pub open spec fn total_too_large_message() -> Seq<char> {
    "Upload exceeds 100MB total limit"@
}

/// Every file is accepted and all of them together stay within the total limit.
pub open spec fn upload_accepted(files: Seq<FileEntry>) -> bool {
    first_rejected_from(files, 0) is None && total_decoded(files) <= MAX_TOTAL_BYTES
}

proof fn lemma_total_prefix(files: Seq<FileEntry>, k: int)
    requires
        0 <= k <= files.len(),
    ensures
        0 <= total_decoded(files.take(k)) <= total_decoded(files),
    decreases files.len(),
{
    if files.len() > 0 {
        if k == files.len() {
            assert(files.take(k) =~= files);
            lemma_total_prefix(files.drop_last(), k - 1);
        } else {
            assert(files.drop_last().take(k) =~= files.take(k));
            lemma_total_prefix(files.drop_last(), k);
        }
    } else {
        assert(files.take(k) =~= files);
    }
}

/// The answer that rejects file `f`: its path when that is unsafe, else its size.
pub open spec fn is_file_rejection(e: ApiError, f: FileEntry) -> bool {
    if !is_safe_path(f.path@) {
        is_error(e, ErrorCode::InvalidPath, "Invalid or unsafe file path: "@ + f.path@)
    } else {
        is_error(e, ErrorCode::PayloadTooLarge, "File exceeds 50MB limit: "@ + f.path@)
    }
}

proof fn lemma_first_rejected(files: Seq<FileEntry>, i: int)
    requires
        0 <= i,
    ensures
        first_rejected_from(files, i) matches Some(k) ==> i <= k < files.len() && !file_accepted(
            files[k],
        ) && forall|j: int| i <= j < k ==> file_accepted(#[trigger] files[j]),
        first_rejected_from(files, i) is None ==> forall|j: int|
            i <= j < files.len() ==> file_accepted(#[trigger] files[j]),
    decreases files.len() - i,
{
    if i < files.len() && file_accepted(files[i]) {
        lemma_first_rejected(files, i + 1);
    }
}

/// The answer that rejects file `f`.
fn file_rejection(f: &FileEntry) -> (e: ApiError)
    requires
        !file_accepted(*f),
    ensures
        is_file_rejection(e, *f),
{
    if !is_path_safe(f.path.as_str()) {
        ApiError {
            code: ErrorCode::InvalidPath,
            message: joined("Invalid or unsafe file path: ", f.path.as_str()),
        }
    } else {
        ApiError {
            code: ErrorCode::PayloadTooLarge,
            message: joined("File exceeds 50MB limit: ", f.path.as_str()),
        }
    }
}

/// Checks the uploaded files in order; the first one not accepted is
/// answered; when all are, their total size is checked.
pub fn check_files(files: &Vec<FileEntry>) -> (r: Result<(), ApiError>)
    ensures
        upload_accepted(files@) ==> r is Ok,
        first_rejected_from(files@, 0) matches Some(k) ==> (r matches Err(e) && is_file_rejection(
            e,
            files@[k],
        )),
        first_rejected_from(files@, 0) is None && total_decoded(files@) > MAX_TOTAL_BYTES ==> (
        r matches Err(e) && is_error(e, ErrorCode::PayloadTooLarge, total_too_large_message())),
{
    let n = files.len();
    for i in 0..n
        invariant
            n == files@.len(),
            first_rejected_from(files@, 0) == first_rejected_from(files@, i as int),
    {
        let f = &files[i];
        let accepted = is_path_safe(f.path.as_str()) && !exceeds_file_limit(f.content.as_str().len());
        if !accepted {
            return Err(file_rejection(f));
        }
    }
    proof {
        lemma_first_rejected(files@, 0);
    }
    let mut total: usize = 0;
    for i in 0..n
        invariant
            n == files@.len(),
            forall|j: int| 0 <= j < n ==> file_accepted(#[trigger] files@[j]),
            first_rejected_from(files@, 0) is None,
            total == total_decoded(files@.take(i as int)),
            total <= MAX_TOTAL_BYTES,
    {
        assert(files@.take(i + 1).drop_last() =~= files@.take(i as int));
        assert(file_accepted(files@[i as int]));
        let d = decoded_len(files[i].content.as_str().len());
        total = total + d;
        if total > MAX_TOTAL_BYTES {
            proof {
                lemma_total_prefix(files@, i + 1);
            }
            return Err(
                ApiError {
                    code: ErrorCode::PayloadTooLarge,
                    message: "Upload exceeds 100MB total limit".to_owned(),
                },
            );
        }
    }
    assert(files@.take(n as int) =~= files@);
    Ok(())
}

/// Where a sync stands.
pub enum SyncStage {
    AwaitContainer,
    AwaitWorkspace,
    AwaitParentDir,
    AwaitWrite,
    AwaitCopy,
}

/// What a sync asks the server to do next.
pub enum SyncAction {
    EnsureContainer,
    CreateWorkspace { workspace_id: String },
    CreateParentDir { workspace_id: String, path: String },
    WriteFile { workspace_id: String, path: String, contents: Vec<u8> },
    CopyWorkspace { workspace_id: String },
}

/// A sync in progress.
pub struct SyncHandler {
    stage: SyncStage,
    source_type: String,
    files: Vec<FileEntry>,
    workspace_id: String,
    next: usize,
}

/// The state of a sync: where it stands, what was asked, the workspace it
/// fills, and the file it is at.
pub struct SyncView {
    pub stage: SyncStage,
    pub source_type: Seq<char>,
    pub files: Seq<FileEntry>,
    pub workspace_id: Seq<char>,
    pub next: int,
}

impl View for SyncHandler {
    type V = SyncView;

    closed spec fn view(&self) -> SyncView {
        SyncView {
            stage: self.stage,
            source_type: self.source_type@,
            files: self.files@,
            workspace_id: self.workspace_id@,
            next: self.next as int,
        }
    }
}

/// What comes of a step of a sync: more work, or the answer.
pub enum SyncStep {
    Perform(SyncHandler, SyncAction),
    Reply(Result<SyncResponse, ApiError>),
}

/// The step answers with the error `code` and `message`.
pub open spec fn sync_fails(s: SyncStep, code: ErrorCode, message: Seq<char>) -> bool {
    s matches SyncStep::Reply(Err(e)) && is_error(e, code, message)
}

/// The step goes on to `stage`, with the same request, workspace and file.
pub open spec fn sync_goes_on(s: SyncStep, h: SyncView, stage: SyncStage, next: int) -> bool {
    s matches SyncStep::Perform(j, _) && j@.stage == stage && j@.source_type == h.source_type
        && j@.files == h.files && j@.workspace_id == h.workspace_id && j@.next == next
}

/// Asks to make the parent directory of file `i`.
pub open spec fn asks_parent_dir(s: SyncStep, h: SyncView, i: int) -> bool {
    sync_goes_on(s, h, SyncStage::AwaitParentDir, i) && (s matches SyncStep::Perform(
        _,
        SyncAction::CreateParentDir { workspace_id, path },
    ) && workspace_id@ == h.workspace_id && path@ == h.files[i].path@)
}

/// One step of a sync, taking the outcome of the work last asked for.
pub open spec fn sync_step(h: SyncView, outcome: Result<(), String>, s: SyncStep) -> bool {
    match h.stage {
        SyncStage::AwaitContainer => match outcome {
            Err(e) => sync_fails(s, ErrorCode::DockerUnavailable, "Docker unavailable: "@ + e@),
            Ok(_) => match first_rejected_from(h.files, 0) {
                Some(k) => s matches SyncStep::Reply(Err(e)) && is_file_rejection(e, h.files[k]),
                None => if total_decoded(h.files) > MAX_TOTAL_BYTES {
                    sync_fails(s, ErrorCode::PayloadTooLarge, total_too_large_message())
                } else {
                    s matches SyncStep::Perform(j, SyncAction::CreateWorkspace { workspace_id })
                    && j@.stage is AwaitWorkspace && j@.source_type == h.source_type && j@.files
                    == h.files && workspace_id@ == j@.workspace_id && is_v4_uuid(
                    j@.workspace_id,
                )
                },
            },
        },
        SyncStage::AwaitWorkspace => match outcome {
            Err(e) => sync_fails(
                s,
                ErrorCode::FileWriteFailed,
                "Failed to create workspace directory: "@ + e@,
            ),
            Ok(_) => asks_parent_dir(s, h, 0),
        },
        SyncStage::AwaitParentDir => {
            let f = h.files[h.next];
            match outcome {
                Err(e) => sync_fails(
                    s,
                    ErrorCode::FileWriteFailed,
                    "Failed to create folder structure: "@ + e@,
                ),
                Ok(_) => match base64_decoding(f.content@) {
                    Err(m) => sync_fails(
                        s,
                        ErrorCode::FileWriteFailed,
                        "Invalid base64 in file "@ + f.path@ + ": "@ + m,
                    ),
                    Ok(bytes) => sync_goes_on(s, h, SyncStage::AwaitWrite, h.next) && (
                    s matches SyncStep::Perform(
                        _,
                        SyncAction::WriteFile { workspace_id, path, contents },
                    ) && workspace_id@ == h.workspace_id && path@ == f.path@ && contents@
                        == bytes),
                },
            }
        },
        SyncStage::AwaitWrite => match outcome {
            Err(e) => sync_fails(
                s,
                ErrorCode::FileWriteFailed,
                "Failed to write file "@ + h.files[h.next].path@ + ": "@ + e@,
            ),
            Ok(_) => if h.next + 1 < h.files.len() {
                asks_parent_dir(s, h, h.next + 1)
            } else {
                sync_goes_on(s, h, SyncStage::AwaitCopy, h.next) && (s matches SyncStep::Perform(
                    _,
                    SyncAction::CopyWorkspace { workspace_id },
                ) && workspace_id@ == h.workspace_id)
            },
        },
        SyncStage::AwaitCopy => match outcome {
            Err(e) => sync_fails(
                s,
                ErrorCode::DockerExecFailed,
                "Failed to copy workspace to Docker: "@ + e@,
            ),
            Ok(_) => s matches SyncStep::Reply(Ok(r)) && r.success && r.workspace_id@
                == h.workspace_id && r.source_type@ == h.source_type,
        },
    }
}

/// Starts a sync, after the rate limit has been checked: an empty upload
/// or an unknown source type is answered at once; otherwise the container
/// is checked first.
pub fn sync_handler(rate: Result<(), ApiError>, query: SyncQuery, body: SyncRequest) -> (s: SyncStep)
    ensures
        rate matches Err(e) ==> s == SyncStep::Reply(Err(e)),
        rate is Ok && body.files@.len() == 0 ==> sync_fails(
            s,
            ErrorCode::FileWriteFailed,
            "At least one file is required"@,
        ),
        rate is Ok && body.files@.len() > 0 && !is_source_type(query.source_type@) ==> sync_fails(
            s,
            ErrorCode::InvalidSourceType,
            "Source type must be c, cpp, or rust"@,
        ),
        rate is Ok && body.files@.len() > 0 && is_source_type(query.source_type@) ==> (
        s matches SyncStep::Perform(j, SyncAction::EnsureContainer) && j@.stage is AwaitContainer
            && j@.source_type == query.source_type@ && j@.files == body.files@),
{
    if let Err(e) = rate {
        return SyncStep::Reply(Err(e));
    }
    if body.files.len() == 0 {
        return SyncStep::Reply(
            Err(
                ApiError {
                    code: ErrorCode::FileWriteFailed,
                    message: "At least one file is required".to_owned(),
                },
            ),
        );
    }
    if !is_supported_source_type(query.source_type.as_str()) {
        return SyncStep::Reply(
            Err(
                ApiError {
                    code: ErrorCode::InvalidSourceType,
                    message: "Source type must be c, cpp, or rust".to_owned(),
                },
            ),
        );
    }
    let h = SyncHandler {
        stage: SyncStage::AwaitContainer,
        source_type: query.source_type,
        files: body.files,
        workspace_id: String::new(),
        next: 0,
    };
    SyncStep::Perform(h, SyncAction::EnsureContainer)
}

impl SyncHandler {
    #[verifier::type_invariant]
    spec fn wf(self) -> bool {
        &&& self.files@.len() > 0
        &&& is_source_type(self.source_type@)
        &&& !(self.stage is AwaitContainer) ==> {
            &&& upload_accepted(self.files@)
            &&& is_v4_uuid(self.workspace_id@)
        }
        &&& (self.stage is AwaitParentDir || self.stage is AwaitWrite) ==> self.next
            < self.files@.len()
    }

    /// Takes the outcome of the work last asked for and decides the next step.
    pub fn resume(self, outcome: Result<(), String>) -> (s: SyncStep)
        ensures
            sync_step(self@, outcome, s),
            s matches SyncStep::Perform(_, SyncAction::CreateParentDir { path, .. }) ==> is_safe_path(
                path@,
            ),
            s matches SyncStep::Perform(_, SyncAction::WriteFile { path, .. }) ==> is_safe_path(
                path@,
            ),
            s matches SyncStep::Reply(Ok(r)) ==> is_v4_uuid(r.workspace_id@) && is_uuid_text(
                r.workspace_id@,
            ),
    {
        proof {
            use_type_invariant(&self);
            lemma_first_rejected(self@.files, 0);
        }
        let ghost h = self@;
        match self.stage {
            SyncStage::AwaitContainer => match outcome {
                Err(e) => SyncStep::Reply(
                    Err(
                        ApiError {
                            code: ErrorCode::DockerUnavailable,
                            message: joined("Docker unavailable: ", e.as_str()),
                        },
                    ),
                ),
                Ok(_) => match check_files(&self.files) {
                    Err(e) => SyncStep::Reply(Err(e)),
                    Ok(_) => {
                        let id = new_workspace_id();
                        let action = SyncAction::CreateWorkspace { workspace_id: id.clone() };
                        let j = SyncHandler {
                            stage: SyncStage::AwaitWorkspace,
                            source_type: self.source_type,
                            files: self.files,
                            workspace_id: id,
                            next: 0,
                        };
                        SyncStep::Perform(j, action)
                    },
                },
            },
            SyncStage::AwaitWorkspace => match outcome {
                Err(e) => SyncStep::Reply(
                    Err(
                        ApiError {
                            code: ErrorCode::FileWriteFailed,
                            message: joined("Failed to create workspace directory: ", e.as_str()),
                        },
                    ),
                ),
                Ok(_) => {
                    let action = SyncAction::CreateParentDir {
                        workspace_id: self.workspace_id.clone(),
                        path: self.files[0].path.clone(),
                    };
                    let j = SyncHandler {
                        stage: SyncStage::AwaitParentDir,
                        source_type: self.source_type,
                        files: self.files,
                        workspace_id: self.workspace_id,
                        next: 0,
                    };
                    SyncStep::Perform(j, action)
                },
            },
            SyncStage::AwaitParentDir => match outcome {
                Err(e) => SyncStep::Reply(
                    Err(
                        ApiError {
                            code: ErrorCode::FileWriteFailed,
                            message: joined("Failed to create folder structure: ", e.as_str()),
                        },
                    ),
                ),
                Ok(_) => {
                    let i = self.next;
                    match decode_contents(self.files[i].content.as_str()) {
                        Err(m) => {
                            let head = joined("Invalid base64 in file ", self.files[i].path.as_str());
                            let head = joined(head.as_str(), ": ");
                            SyncStep::Reply(
                                Err(
                                    ApiError {
                                        code: ErrorCode::FileWriteFailed,
                                        message: joined(head.as_str(), m.as_str()),
                                    },
                                ),
                            )
                        },
                        Ok(bytes) => {
                            let action = SyncAction::WriteFile {
                                workspace_id: self.workspace_id.clone(),
                                path: self.files[i].path.clone(),
                                contents: bytes,
                            };
                            let j = SyncHandler {
                                stage: SyncStage::AwaitWrite,
                                source_type: self.source_type,
                                files: self.files,
                                workspace_id: self.workspace_id,
                                next: i,
                            };
                            SyncStep::Perform(j, action)
                        },
                    }
                },
            },
            SyncStage::AwaitWrite => match outcome {
                Err(e) => {
                    let head = joined("Failed to write file ", self.files[self.next].path.as_str());
                    let head = joined(head.as_str(), ": ");
                    SyncStep::Reply(
                        Err(
                            ApiError {
                                code: ErrorCode::FileWriteFailed,
                                message: joined(head.as_str(), e.as_str()),
                            },
                        ),
                    )
                },
                Ok(_) => {
                    let i = self.next;
                    let n = self.files.len();
                    if i + 1 < n {
                        let action = SyncAction::CreateParentDir {
                            workspace_id: self.workspace_id.clone(),
                            path: self.files[i + 1].path.clone(),
                        };
                        let j = SyncHandler {
                            stage: SyncStage::AwaitParentDir,
                            source_type: self.source_type,
                            files: self.files,
                            workspace_id: self.workspace_id,
                            next: i + 1,
                        };
                        SyncStep::Perform(j, action)
                    } else {
                        let action = SyncAction::CopyWorkspace { workspace_id: self.workspace_id.clone() };
                        let j = SyncHandler {
                            stage: SyncStage::AwaitCopy,
                            source_type: self.source_type,
                            files: self.files,
                            workspace_id: self.workspace_id,
                            next: i,
                        };
                        SyncStep::Perform(j, action)
                    }
                },
            },
            SyncStage::AwaitCopy => match outcome {
                Err(e) => SyncStep::Reply(
                    Err(
                        ApiError {
                            code: ErrorCode::DockerExecFailed,
                            message: joined("Failed to copy workspace to Docker: ", e.as_str()),
                        },
                    ),
                ),
                Ok(_) => SyncStep::Reply(
                    Ok(
                        SyncResponse {
                            success: true,
                            workspace_id: self.workspace_id,
                            source_type: self.source_type,
                        },
                    ),
                ),
            },
        }
    }
}


/// The answer to a workspace identifier that names no workspace.
pub open spec fn workspace_not_found_message() -> Seq<char> {
    "Workspace not found or expired"@
}

fn workspace_not_found() -> (e: ApiError)
    ensures
        is_error(e, ErrorCode::WorkspaceNotFound, workspace_not_found_message()),
{
    ApiError { code: ErrorCode::WorkspaceNotFound, message: "Workspace not found or expired".to_owned() }
}

fn docker_unavailable(detail: &str) -> (e: ApiError)
    ensures
        is_error(e, ErrorCode::DockerUnavailable, "Docker unavailable: "@ + detail@),
{
    ApiError { code: ErrorCode::DockerUnavailable, message: joined("Docker unavailable: ", detail) }
}

/// Stage marker: the workspace directory is being looked for.
pub struct WorkspaceCheck;

/// Stage marker: the build container is being brought up.
pub struct ContainerCheck;

/// Stage marker: the workspace's activity marker is being refreshed.
pub struct ActivityTouch;

/// Stage marker: the build runs.
pub struct BuildRun;

/// A compile request, past its query checks, at stage `S`.
pub struct CompileJob<S> {
    workspace_id: String,
    source_type: String,
    stage: S,
}

impl<S> View for CompileJob<S> {
    type V = (Seq<char>, Seq<char>);

    /// The workspace identifier and the source type.
    closed spec fn view(&self) -> (Seq<char>, Seq<char>) {
        (self.workspace_id@, self.source_type@)
    }
}

/// What comes of a step of a compile request.
pub enum CompileStep {
    CheckWorkspace(CompileJob<WorkspaceCheck>),
    CheckContainer(CompileJob<ContainerCheck>),
    Touch(CompileJob<ActivityTouch>),
    Build(CompileJob<BuildRun>),
    Reply(Result<CompileResponse, ApiError>),
}

/// The step answers with the error `code` and `message`.
pub open spec fn compile_fails(s: CompileStep, code: ErrorCode, message: Seq<char>) -> bool {
    s matches CompileStep::Reply(Err(e)) && is_error(e, code, message)
}

impl<S> CompileJob<S> {
    #[verifier::type_invariant]
    spec fn wf(self) -> bool {
        is_uuid_text(self.workspace_id@) && is_source_type(self.source_type@)
    }

    /// The workspace to build.
    pub fn workspace_id(&self) -> (r: String)
        ensures
            r@ == self@.0,
            is_uuid_text(r@),
    {
        proof {
            use_type_invariant(self);
        }
        self.workspace_id.clone()
    }

    /// The source type to build as.
    pub fn source_type(&self) -> (r: String)
        ensures
            r@ == self@.1,
            is_source_type(r@),
    {
        proof {
            use_type_invariant(self);
        }
        self.source_type.clone()
    }
}

/// Starts a compile request, after the rate limit has been checked: the
/// workspace identifier, then the source type, are checked before anything
/// is looked up.
pub fn compile_handler(rate: Result<(), ApiError>, query: CompileQuery) -> (s: CompileStep)
    ensures
        rate matches Err(e) ==> s == CompileStep::Reply(Err(e)),
        rate is Ok && !is_uuid_text(query.workspace_id@) ==> compile_fails(
            s,
            ErrorCode::WorkspaceNotFound,
            workspace_not_found_message(),
        ),
        rate is Ok && is_uuid_text(query.workspace_id@) && !is_source_type(
            query.source_type@,
        ) ==> compile_fails(
            s,
            ErrorCode::InvalidSourceType,
            "Source type must be c, cpp, or rust"@,
        ),
        rate is Ok && is_uuid_text(query.workspace_id@) && is_source_type(query.source_type@)
            ==> (s matches CompileStep::CheckWorkspace(j) && j@ == (
            query.workspace_id@,
            query.source_type@,
        )),
{
    if let Err(e) = rate {
        return CompileStep::Reply(Err(e));
    }
    if !is_valid_uuid(query.workspace_id.as_str()) {
        return CompileStep::Reply(Err(workspace_not_found()));
    }
    if !is_supported_source_type(query.source_type.as_str()) {
        return CompileStep::Reply(
            Err(
                ApiError {
                    code: ErrorCode::InvalidSourceType,
                    message: "Source type must be c, cpp, or rust".to_owned(),
                },
            ),
        );
    }
    CompileStep::CheckWorkspace(
        CompileJob {
            workspace_id: query.workspace_id,
            source_type: query.source_type,
            stage: WorkspaceCheck,
        },
    )
}

impl CompileJob<WorkspaceCheck> {
    /// Whether the workspace directory exists decides whether to go on.
    pub fn workspace_checked(self, exists: bool) -> (s: CompileStep)
        ensures
            !exists ==> compile_fails(
                s,
                ErrorCode::WorkspaceNotFound,
                workspace_not_found_message(),
            ),
            exists ==> (s matches CompileStep::CheckContainer(j) && j@ == self@),
    {
        proof {
            use_type_invariant(&self);
        }
        if !exists {
            return CompileStep::Reply(Err(workspace_not_found()));
        }
        CompileStep::CheckContainer(
            CompileJob {
                workspace_id: self.workspace_id,
                source_type: self.source_type,
                stage: ContainerCheck,
            },
        )
    }
}

impl CompileJob<ContainerCheck> {
    /// A container that could not be brought up ends the request.
    pub fn container_checked(self, ready: Result<(), String>) -> (s: CompileStep)
        ensures
            ready matches Err(e) ==> compile_fails(
                s,
                ErrorCode::DockerUnavailable,
                "Docker unavailable: "@ + e@,
            ),
            ready is Ok ==> (s matches CompileStep::Touch(j) && j@ == self@),
    {
        proof {
            use_type_invariant(&self);
        }
        match ready {
            Err(e) => CompileStep::Reply(Err(docker_unavailable(e.as_str()))),
            Ok(_) => CompileStep::Touch(
                CompileJob {
                    workspace_id: self.workspace_id,
                    source_type: self.source_type,
                    stage: ActivityTouch,
                },
            ),
        }
    }
}

impl CompileJob<ActivityTouch> {
    /// Whatever came of refreshing the activity marker, the build runs next.
    pub fn touched(self) -> (s: CompileStep)
        ensures
            s matches CompileStep::Build(j) && j@ == self@,
    {
        proof {
            use_type_invariant(&self);
        }
        CompileStep::Build(
            CompileJob {
                workspace_id: self.workspace_id,
                source_type: self.source_type,
                stage: BuildRun,
            },
        )
    }
}

impl CompileJob<BuildRun> {
    /// The answer reports the build's outcome.
    pub fn built(self, outcome: CompileOutcome) -> (r: CompileResponse)
        ensures
            r.success == outcome.success,
            r.workspace_id@ == self@.0,
            r.status_code == outcome.status_code,
            r.output@ == outcome.output@,
    {
        CompileResponse {
            success: outcome.success,
            workspace_id: self.workspace_id,
            status_code: outcome.status_code,
            output: outcome.output,
        }
    }
}

/// A packed build output and how it is offered for download.
pub struct ArchiveReply {
    pub content_disposition: String,
    pub bytes: Vec<u8>,
}

/// The download header of a workspace's build output.
pub open spec fn disposition_of(workspace_id: Seq<char>) -> Seq<char> {
    "attachment; filename=\""@ + workspace_id + "-output.zip\""@
}

/// An output request, past its query check, at stage `S`.
pub struct OutputJob<S> {
    workspace_id: String,
    stage: S,
}

/// Stage marker: the build output is being packed.
pub struct Packing;

impl<S> View for OutputJob<S> {
    type V = Seq<char>;

    /// The workspace identifier.
    closed spec fn view(&self) -> Seq<char> {
        self.workspace_id@
    }
}

/// What comes of a step of an output request.
pub enum OutputStep {
    CheckWorkspace(OutputJob<WorkspaceCheck>),
    CheckContainer(OutputJob<ContainerCheck>),
    Touch(OutputJob<ActivityTouch>),
    Package(OutputJob<Packing>),
    Reply(Result<ArchiveReply, ApiError>),
}

/// The step answers with the error `code` and `message`.
pub open spec fn output_fails(s: OutputStep, code: ErrorCode, message: Seq<char>) -> bool {
    s matches OutputStep::Reply(Err(e)) && is_error(e, code, message)
}

impl<S> OutputJob<S> {
    #[verifier::type_invariant]
    spec fn wf(self) -> bool {
        is_uuid_text(self.workspace_id@)
    }

    /// The workspace whose output is asked for.
    pub fn workspace_id(&self) -> (r: String)
        ensures
            r@ == self@,
            is_uuid_text(r@),
    {
        proof {
            use_type_invariant(self);
        }
        self.workspace_id.clone()
    }
}

/// Starts an output request, after the rate limit has been checked.
pub fn output_handler(rate: Result<(), ApiError>, query: OutputQuery) -> (s: OutputStep)
    ensures
        rate matches Err(e) ==> s == OutputStep::Reply(Err(e)),
        rate is Ok && !is_uuid_text(query.workspace_id@) ==> output_fails(
            s,
            ErrorCode::WorkspaceNotFound,
            workspace_not_found_message(),
        ),
        rate is Ok && is_uuid_text(query.workspace_id@) ==> (s matches OutputStep::CheckWorkspace(
            j,
        ) && j@ == query.workspace_id@),
{
    if let Err(e) = rate {
        return OutputStep::Reply(Err(e));
    }
    if !is_valid_uuid(query.workspace_id.as_str()) {
        return OutputStep::Reply(Err(workspace_not_found()));
    }
    OutputStep::CheckWorkspace(OutputJob { workspace_id: query.workspace_id, stage: WorkspaceCheck })
}

impl OutputJob<WorkspaceCheck> {
    /// Whether the workspace directory exists decides whether to go on.
    pub fn workspace_checked(self, exists: bool) -> (s: OutputStep)
        ensures
            !exists ==> output_fails(s, ErrorCode::WorkspaceNotFound, workspace_not_found_message()),
            exists ==> (s matches OutputStep::CheckContainer(j) && j@ == self@),
    {
        proof {
            use_type_invariant(&self);
        }
        if !exists {
            return OutputStep::Reply(Err(workspace_not_found()));
        }
        OutputStep::CheckContainer(OutputJob { workspace_id: self.workspace_id, stage: ContainerCheck })
    }
}

impl OutputJob<ContainerCheck> {
    /// A container that could not be brought up ends the request.
    pub fn container_checked(self, ready: Result<(), String>) -> (s: OutputStep)
        ensures
            ready matches Err(e) ==> output_fails(
                s,
                ErrorCode::DockerUnavailable,
                "Docker unavailable: "@ + e@,
            ),
            ready is Ok ==> (s matches OutputStep::Touch(j) && j@ == self@),
    {
        proof {
            use_type_invariant(&self);
        }
        match ready {
            Err(e) => OutputStep::Reply(Err(docker_unavailable(e.as_str()))),
            Ok(_) => OutputStep::Touch(OutputJob { workspace_id: self.workspace_id, stage: ActivityTouch }),
        }
    }
}

impl OutputJob<ActivityTouch> {
    /// Whatever came of refreshing the activity marker, the output is packed next.
    pub fn touched(self) -> (s: OutputStep)
        ensures
            s matches OutputStep::Package(j) && j@ == self@,
    {
        proof {
            use_type_invariant(&self);
        }
        OutputStep::Package(OutputJob { workspace_id: self.workspace_id, stage: Packing })
    }
}

impl OutputJob<Packing> {
    /// The packed archive is offered for download; a missing output directory
    /// is answered as a missing workspace, any other failure as a failed command.
    pub fn packaged(self, packed: Result<Vec<u8>, String>) -> (r: Result<ArchiveReply, ApiError>)
        ensures
            packed matches Ok(b) ==> (r matches Ok(a) && a.bytes@ == b@ && a.content_disposition@
                == disposition_of(self@)),
            packed matches Err(e) ==> if e@ == "WORKSPACE_NOT_FOUND"@ {
                r matches Err(x) && is_error(
                    x,
                    ErrorCode::WorkspaceNotFound,
                    "Output directory not found (compile may have failed)"@,
                )
            } else {
                r matches Err(x) && is_error(
                    x,
                    ErrorCode::DockerExecFailed,
                    "Failed to package build output: "@ + e@,
                )
            },
    {
        match packed {
            Ok(bytes) => {
                let head = joined("attachment; filename=\"", self.workspace_id.as_str());
                Ok(ArchiveReply { content_disposition: joined(head.as_str(), "-output.zip\""), bytes })
            },
            Err(e) => if same_text(e.as_str(), "WORKSPACE_NOT_FOUND") {
                Err(
                    ApiError {
                        code: ErrorCode::WorkspaceNotFound,
                        message: "Output directory not found (compile may have failed)".to_owned(),
                    },
                )
            } else {
                Err(
                    ApiError {
                        code: ErrorCode::DockerExecFailed,
                        message: joined("Failed to package build output: ", e.as_str()),
                    },
                )
            },
        }
    }
}

/// A delete request, past its identifier check, at stage `S`.
pub struct DeleteJob<S> {
    workspace_id: String,
    stage: S,
}

/// Stage marker: the workspace is being removed, locally and in the container.
pub struct Removal;

impl<S> View for DeleteJob<S> {
    type V = Seq<char>;

    /// The workspace identifier.
    closed spec fn view(&self) -> Seq<char> {
        self.workspace_id@
    }
}

/// What comes of a step of a delete request.
pub enum DeleteStep {
    CheckWorkspace(DeleteJob<WorkspaceCheck>),
    Remove(DeleteJob<Removal>),
    Reply(Result<DeleteResponse, ApiError>),
}

/// How a failed removal is shown: `None`, or `Some(..)` around the failure's
/// rendering.
pub open spec fn shown_failure(r: Result<(), String>) -> Seq<char> {
    match r {
        Ok(_) => "None"@,
        Err(d) => "Some("@ + d@ + ")"@,
    }
}

fn show_failure(r: &Result<(), String>) -> (t: String)
    ensures
        t@ == shown_failure(*r),
{
    match r {
        Ok(_) => "None".to_owned(),
        Err(d) => {
            let head = joined("Some(", d.as_str());
            joined(head.as_str(), ")")
        },
    }
}

impl<S> DeleteJob<S> {
    #[verifier::type_invariant]
    spec fn wf(self) -> bool {
        is_uuid_text(self.workspace_id@)
    }

    /// The workspace to delete.
    pub fn workspace_id(&self) -> (r: String)
        ensures
            r@ == self@,
            is_uuid_text(r@),
    {
        proof {
            use_type_invariant(self);
        }
        self.workspace_id.clone()
    }
}

/// Starts a delete request, after the rate limit has been checked.
pub fn delete_workspace_handler(rate: Result<(), ApiError>, workspace_id: String) -> (s: DeleteStep)
    ensures
        rate matches Err(e) ==> s == DeleteStep::Reply(Err(e)),
        rate is Ok && !is_uuid_text(workspace_id@) ==> (s matches DeleteStep::Reply(Err(e))
            && is_error(e, ErrorCode::WorkspaceNotFound, workspace_not_found_message())),
        rate is Ok && is_uuid_text(workspace_id@) ==> (s matches DeleteStep::CheckWorkspace(j)
            && j@ == workspace_id@),
{
    if let Err(e) = rate {
        return DeleteStep::Reply(Err(e));
    }
    if !is_valid_uuid(workspace_id.as_str()) {
        return DeleteStep::Reply(Err(workspace_not_found()));
    }
    DeleteStep::CheckWorkspace(DeleteJob { workspace_id, stage: WorkspaceCheck })
}

impl DeleteJob<WorkspaceCheck> {
    /// Whether the workspace directory exists decides whether to remove it.
    pub fn workspace_checked(self, exists: bool) -> (s: DeleteStep)
        ensures
            !exists ==> (s matches DeleteStep::Reply(Err(e)) && is_error(
                e,
                ErrorCode::WorkspaceNotFound,
                workspace_not_found_message(),
            )),
            exists ==> (s matches DeleteStep::Remove(j) && j@ == self@),
    {
        proof {
            use_type_invariant(&self);
        }
        if !exists {
            return DeleteStep::Reply(Err(workspace_not_found()));
        }
        DeleteStep::Remove(DeleteJob { workspace_id: self.workspace_id, stage: Removal })
    }
}

impl DeleteJob<Removal> {
    /// Both removals must have succeeded; otherwise both outcomes are reported.
    pub fn removed(self, local: Result<(), String>, container: Result<(), String>) -> (r: Result<
        DeleteResponse,
        ApiError,
    >)
        ensures
            local is Ok && container is Ok ==> (r matches Ok(d) && d.success && d.workspace_id@
                == self@ && d.message@ == "Workspace deleted"@),
            !(local is Ok && container is Ok) ==> (r matches Err(e) && is_error(
                e,
                ErrorCode::FileWriteFailed,
                "Failed to clean up workspace resources. Local error: "@ + shown_failure(local)
                    + ", Docker error: "@ + shown_failure(container),
            )),
    {
        if local.is_err() || container.is_err() {
            let a = joined("Failed to clean up workspace resources. Local error: ", show_failure(&local).as_str());
            let b = joined(a.as_str(), ", Docker error: ");
            return Err(
                ApiError {
                    code: ErrorCode::FileWriteFailed,
                    message: joined(b.as_str(), show_failure(&container).as_str()),
                },
            );
        }
        Ok(
            DeleteResponse {
                success: true,
                workspace_id: self.workspace_id,
                message: "Workspace deleted".to_owned(),
            },
        )
    }
}

/// How long a workspace may sit unused before it is removed: one hour, in
/// nanoseconds.
pub const WORKSPACE_TTL_NANOS: u128 = 3600000000000;

/// A workspace has expired: the age of its creation, when the platform
/// reports one, or else of its last change, exceeds the limit; an age that
/// cannot be measured never expires it.
pub open spec fn is_expired(created_age: Option<Option<u128>>, modified_age: Option<Option<u128>>) -> bool {
    match created_age {
        Some(age) => match age {
            Some(n) => n > WORKSPACE_TTL_NANOS,
            None => false,
        },
        None => match modified_age {
            Some(Some(n)) => n > WORKSPACE_TTL_NANOS,
            _ => false,
        },
    }
}

/// Whether a workspace directory is due for removal. Each age is `None` when
/// the platform has no such time stamp, and `Some(None)` when the time
/// stamp lies in the future.
pub fn workspace_expired(created_age: Option<Option<u128>>, modified_age: Option<Option<u128>>) -> (r: bool)
    ensures
        r == is_expired(created_age, modified_age),
{
    match created_age {
        Some(age) => match age {
            Some(n) => n > WORKSPACE_TTL_NANOS,
            None => false,
        },
        None => match modified_age {
            Some(Some(n)) => n > WORKSPACE_TTL_NANOS,
            _ => false,
        },
    }
}

/// What the desktop client encodes for upload, a sync writes back byte for
/// byte, at the path it was uploaded under.
pub proof fn law_upload_round_trip(h: SyncView, data: Seq<u8>, s: SyncStep)
    requires
        h.stage is AwaitParentDir,
        0 <= h.next < h.files.len(),
        decodes_to(h.files[h.next].content@, data),
        sync_step(h, Ok(()), s),
    ensures
        s matches SyncStep::Perform(_, SyncAction::WriteFile { path, contents, .. }) && path@
            == h.files[h.next].path@ && contents@ == data,
{
}

} // verus!
