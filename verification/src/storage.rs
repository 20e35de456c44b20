use vstd::prelude::*;
use crate::invite::{Invite, InviteId, InviteView};

verus! {

/// Where the invite with identifier `id` is kept: `invites/<id>`.
pub open spec fn blob_path(id: Seq<char>) -> Seq<char> {
    "invites/"@ + id
}

/// The content type under which invites are stored.
pub open spec fn json_content_type() -> Seq<char> {
    "application/json"@
}

/// The message given when storage holds more than one copy of an invite.
pub open spec fn duplicate_message() -> Seq<char> {
    "Two of same invite exists"@
}

/// The path of the blob that holds the invite `id`.
pub fn blob_path_of(id: &InviteId) -> (path: String)
    ensures
        path@ == blob_path(id@),
{
    String::from_str("invites/").concat(id.as_str())
}

/// A request to the blob storage.
pub enum StorageAction {
    /// List the blobs whose path starts with `prefix`.
    List { prefix: String },
    /// Delete the blob at `url`.
    Delete { url: String },
    /// Store `body` at `pathname` with the given content type.
    Put { pathname: String, body: String, content_type: String },
    /// Download the blob at `url`.
    Download { url: String },
}

/// The contents of a [`StorageAction`].
pub enum StorageRequest {
    List(Seq<char>),
    Delete(Seq<char>),
    Put(Seq<char>, Seq<char>, Seq<char>),
    Download(Seq<char>),
}

impl View for StorageAction {
    type V = StorageRequest;

    open spec fn view(&self) -> StorageRequest {
        match self {
            StorageAction::List { prefix } => StorageRequest::List(prefix@),
            StorageAction::Delete { url } => StorageRequest::Delete(url@),
            StorageAction::Put { pathname, body, content_type } => StorageRequest::Put(
                pathname@,
                body@,
                content_type@,
            ),
            StorageAction::Download { url } => StorageRequest::Download(url@),
        }
    }
}

/// The texts held by a vector of strings.
pub open spec fn texts(v: Seq<String>) -> Seq<Seq<char>> {
    v.map_values(|s: String| s@)
}

// ---------------------------------------------------------------------------
// Storing an invite
// ---------------------------------------------------------------------------

/// How far the storing of an invite has come.
#[derive(Debug, Clone, Copy, PartialEq, Eq, Structural)]
pub enum UploadStage {
    /// Waiting for the listing of the invite's path.
    Listing,
    /// Waiting for the old copy to be deleted.
    Deleting,
    /// Waiting for the new copy to be stored.
    Putting,
    /// The invite is stored.
    Done,
    /// Storing failed.
    Failed,
}

/// What storage answered to the last request of an upload.
pub enum UploadEvent {
    /// The urls of the blobs found under the listed prefix.
    Listed(Vec<String>),
    /// The blob was deleted.
    Deleted,
    /// The blob was stored.
    Stored,
    /// The request failed with this message.
    Failed(String),
}

/// The contents of an [`UploadEvent`].
pub enum UploadInput {
    Listed(Seq<Seq<char>>),
    Deleted,
    Stored,
    Failed(Seq<char>),
}

impl View for UploadEvent {
    type V = UploadInput;

    open spec fn view(&self) -> UploadInput {
        match self {
            UploadEvent::Listed(urls) => UploadInput::Listed(texts(urls@)),
            UploadEvent::Deleted => UploadInput::Deleted,
            UploadEvent::Stored => UploadInput::Stored,
            UploadEvent::Failed(msg) => UploadInput::Failed(msg@),
        }
    }
}

/// What an upload does next.
pub enum UploadStep {
    /// Send this request to storage.
    Act(StorageAction),
    /// The invite is stored.
    Done,
    /// Storing failed with this message.
    Failed(String),
}

/// The contents of an [`UploadStep`].
pub enum UploadOutcome {
    Act(StorageRequest),
    Done,
    Failed(Seq<char>),
}

impl View for UploadStep {
    type V = UploadOutcome;

    open spec fn view(&self) -> UploadOutcome {
        match self {
            UploadStep::Act(a) => UploadOutcome::Act(a@),
            UploadStep::Done => UploadOutcome::Done,
            UploadStep::Failed(msg) => UploadOutcome::Failed(msg@),
        }
    }
}

/// The storing of a serialized invite under its path, replacing the copy
/// stored before, if any.
pub struct InviteUpload {
    path: String,
    body: String,
    stage: UploadStage,
}

/// The state of an [`InviteUpload`].
pub struct UploadState {
    pub path: Seq<char>,
    pub body: Seq<char>,
    pub stage: UploadStage,
}

impl View for InviteUpload {
    type V = UploadState;

    closed spec fn view(&self) -> UploadState {
        UploadState { path: self.path@, body: self.body@, stage: self.stage }
    }
}

/// Whether an upload in `stage` can take `event`: each request has its own
/// answer, and a failure can answer any request.
pub open spec fn upload_accepts(stage: UploadStage, event: UploadInput) -> bool {
    match event {
        UploadInput::Listed(_) => stage == UploadStage::Listing,
        UploadInput::Deleted => stage == UploadStage::Deleting,
        UploadInput::Stored => stage == UploadStage::Putting,
        UploadInput::Failed(_) => stage == UploadStage::Listing || stage == UploadStage::Deleting
            || stage == UploadStage::Putting,
    }
}

/// The upload for invite `id` with serialized contents `body`, and its first request.
pub open spec fn upload_begin(id: Seq<char>, body: Seq<char>) -> (UploadState, StorageRequest) {
    (
        UploadState { path: blob_path(id), body, stage: UploadStage::Listing },
        StorageRequest::List(blob_path(id)),
    )
}

/// The request that stores the body at the path.
pub open spec fn put_request(s: UploadState) -> StorageRequest {
    StorageRequest::Put(s.path, s.body, json_content_type())
}

/// How an upload answers `event`: more than one stored copy is an error;
/// one copy is deleted before the new one is stored; with none the new
/// one is stored at once; a failed request ends the upload with its message.
pub open spec fn upload_next(s: UploadState, event: UploadInput) -> (UploadState, UploadOutcome) {
    match event {
        UploadInput::Listed(urls) => if urls.len() > 1 {
            (UploadState { stage: UploadStage::Failed, ..s }, UploadOutcome::Failed(duplicate_message()))
        } else if urls.len() == 1 {
            (
                UploadState { stage: UploadStage::Deleting, ..s },
                UploadOutcome::Act(StorageRequest::Delete(urls[0])),
            )
        } else {
            (UploadState { stage: UploadStage::Putting, ..s }, UploadOutcome::Act(put_request(s)))
        },
        UploadInput::Deleted => (
            UploadState { stage: UploadStage::Putting, ..s },
            UploadOutcome::Act(put_request(s)),
        ),
        UploadInput::Stored => (UploadState { stage: UploadStage::Done, ..s }, UploadOutcome::Done),
        UploadInput::Failed(msg) => (
            UploadState { stage: UploadStage::Failed, ..s },
            UploadOutcome::Failed(msg),
        ),
    }
}

impl InviteUpload {
    /// Starts storing `body`, the serialized invite `id`: first the blobs
    /// under the invite's path are listed.
    pub fn begin(id: &InviteId, body: String) -> (res: (InviteUpload, StorageAction))
        ensures
            (res.0@, res.1@) == upload_begin(id@, body@),
    {
        let path = blob_path_of(id);
        let prefix = path.clone();
        (InviteUpload { path, body, stage: UploadStage::Listing }, StorageAction::List { prefix })
    }

    /// Whether the upload can take `event` now.
    pub fn accepts(&self, event: &UploadEvent) -> (ok: bool)
        ensures
            ok == upload_accepts(self@.stage, event@),
    {
        match event {
            UploadEvent::Listed(_) => self.stage == UploadStage::Listing,
            UploadEvent::Deleted => self.stage == UploadStage::Deleting,
            UploadEvent::Stored => self.stage == UploadStage::Putting,
            UploadEvent::Failed(_) => self.stage == UploadStage::Listing || self.stage
                == UploadStage::Deleting || self.stage == UploadStage::Putting,
        }
    }

    /// Whether the upload has ended, stored or failed.
    pub fn finished(&self) -> (done: bool)
        ensures
            done == (self@.stage == UploadStage::Done || self@.stage == UploadStage::Failed),
    {
        self.stage == UploadStage::Done || self.stage == UploadStage::Failed
    }

    fn put_action(&self) -> (a: StorageAction)
        ensures
            a@ == put_request(self@),
    {
        StorageAction::Put {
            pathname: self.path.clone(),
            body: self.body.clone(),
            content_type: String::from_str("application/json"),
        }
    }

    /// Takes storage's answer to the last request and says what comes next.
    pub fn step(&mut self, event: UploadEvent) -> (next: UploadStep)
        requires
            upload_accepts(old(self)@.stage, event@),
        ensures
            (final(self)@, next@) == upload_next(old(self)@, event@),
    {
        match event {
            UploadEvent::Listed(urls) => {
                if urls.len() > 1 {
                    self.stage = UploadStage::Failed;
                    UploadStep::Failed(String::from_str("Two of same invite exists"))
                } else if urls.len() == 1 {
                    self.stage = UploadStage::Deleting;
                    let url = urls[0].clone();
                    UploadStep::Act(StorageAction::Delete { url })
                } else {
                    self.stage = UploadStage::Putting;
                    UploadStep::Act(self.put_action())
                }
            },
            UploadEvent::Deleted => {
                self.stage = UploadStage::Putting;
                UploadStep::Act(self.put_action())
            },
            UploadEvent::Stored => {
                self.stage = UploadStage::Done;
                UploadStep::Done
            },
            UploadEvent::Failed(msg) => {
                self.stage = UploadStage::Failed;
                UploadStep::Failed(msg)
            },
        }
    }
}


// ---------------------------------------------------------------------------
// Loading an invite
// ---------------------------------------------------------------------------

/// Why an invite could not be loaded.
#[derive(Debug)]
pub enum FromBlobError {
    /// Storage failed, the stored contents could not be read, or storage
    /// holds more than one copy; the message says which.
    Error(String),
    /// No invite is stored under the identifier.
    NotFound,
}

/// The contents of a [`FromBlobError`].
pub enum LoadError {
    Error(Seq<char>),
    NotFound,
}

impl View for FromBlobError {
    type V = LoadError;

    open spec fn view(&self) -> LoadError {
        match self {
            FromBlobError::Error(msg) => LoadError::Error(msg@),
            FromBlobError::NotFound => LoadError::NotFound,
        }
    }
}

/// How far the loading of an invite has come.
#[derive(Debug, Clone, Copy, PartialEq, Eq, Structural)]
pub enum FetchStage {
    /// Waiting for the listing of the invite's path.
    Listing,
    /// Waiting for the stored invite, downloaded and read.
    Downloading,
    /// The invite was found.
    Done,
    /// Loading failed.
    Failed,
}

/// What storage answered to the last request of a load.
pub enum FetchEvent {
    /// The urls of the blobs found under the listed prefix.
    Listed(Vec<String>),
    /// The downloaded blob, read as an invite.
    Received(Invite),
    /// The request failed, or the blob could not be read, with this message.
    Failed(String),
}

/// The contents of a [`FetchEvent`].
pub enum FetchInput {
    Listed(Seq<Seq<char>>),
    Received(InviteView),
    Failed(Seq<char>),
}

impl View for FetchEvent {
    type V = FetchInput;

    open spec fn view(&self) -> FetchInput {
        match self {
            FetchEvent::Listed(urls) => FetchInput::Listed(texts(urls@)),
            FetchEvent::Received(invite) => FetchInput::Received(invite@),
            FetchEvent::Failed(msg) => FetchInput::Failed(msg@),
        }
    }
}

/// What a load does next.
pub enum FetchStep {
    /// Send this request to storage.
    Act(StorageAction),
    /// The invite was loaded.
    Found(Invite),
    /// Loading failed.
    Failed(FromBlobError),
}

/// The contents of a [`FetchStep`].
pub enum FetchOutcome {
    Act(StorageRequest),
    Found(InviteView),
    Failed(LoadError),
}

impl View for FetchStep {
    type V = FetchOutcome;

    open spec fn view(&self) -> FetchOutcome {
        match self {
            FetchStep::Act(a) => FetchOutcome::Act(a@),
            FetchStep::Found(invite) => FetchOutcome::Found(invite@),
            FetchStep::Failed(err) => FetchOutcome::Failed(err@),
        }
    }
}

/// The loading of the invite stored under an identifier.
pub struct InviteFetch {
    path: String,
    stage: FetchStage,
}

/// The state of an [`InviteFetch`].
pub struct FetchState {
    pub path: Seq<char>,
    pub stage: FetchStage,
}

impl View for InviteFetch {
    type V = FetchState;

    closed spec fn view(&self) -> FetchState {
        FetchState { path: self.path@, stage: self.stage }
    }
}

/// Whether a load in `stage` can take `event`.
pub open spec fn fetch_accepts(stage: FetchStage, event: FetchInput) -> bool {
    match event {
        FetchInput::Listed(_) => stage == FetchStage::Listing,
        FetchInput::Received(_) => stage == FetchStage::Downloading,
        FetchInput::Failed(_) => stage == FetchStage::Listing || stage == FetchStage::Downloading,
    }
}

/// The load of invite `id`, and its first request.
pub open spec fn fetch_begin(id: Seq<char>) -> (FetchState, StorageRequest) {
    (FetchState { path: blob_path(id), stage: FetchStage::Listing }, StorageRequest::List(blob_path(id)))
}

/// How a load answers `event`: more than one stored copy is an error, no
/// copy means the invite is not found, the one copy is downloaded; the
/// downloaded invite is the result; a failure ends the load with its message.
pub open spec fn fetch_next(s: FetchState, event: FetchInput) -> (FetchState, FetchOutcome) {
    match event {
        FetchInput::Listed(urls) => if urls.len() > 1 {
            (
                FetchState { stage: FetchStage::Failed, ..s },
                FetchOutcome::Failed(LoadError::Error(duplicate_message())),
            )
        } else if urls.len() == 0 {
            (FetchState { stage: FetchStage::Failed, ..s }, FetchOutcome::Failed(LoadError::NotFound))
        } else {
            (
                FetchState { stage: FetchStage::Downloading, ..s },
                FetchOutcome::Act(StorageRequest::Download(urls[0])),
            )
        },
        FetchInput::Received(invite) => (
            FetchState { stage: FetchStage::Done, ..s },
            FetchOutcome::Found(invite),
        ),
        FetchInput::Failed(msg) => (
            FetchState { stage: FetchStage::Failed, ..s },
            FetchOutcome::Failed(LoadError::Error(msg)),
        ),
    }
}

impl InviteFetch {
    /// Starts loading the invite `id`: first the blobs under its path are listed.
    pub fn begin(id: &InviteId) -> (res: (InviteFetch, StorageAction))
        ensures
            (res.0@, res.1@) == fetch_begin(id@),
    {
        let path = blob_path_of(id);
        let prefix = path.clone();
        (InviteFetch { path, stage: FetchStage::Listing }, StorageAction::List { prefix })
    }

    /// Whether the load can take `event` now.
    pub fn accepts(&self, event: &FetchEvent) -> (ok: bool)
        ensures
            ok == fetch_accepts(self@.stage, event@),
    {
        match event {
            FetchEvent::Listed(_) => self.stage == FetchStage::Listing,
            FetchEvent::Received(_) => self.stage == FetchStage::Downloading,
            FetchEvent::Failed(_) => self.stage == FetchStage::Listing || self.stage
                == FetchStage::Downloading,
        }
    }

    /// Takes storage's answer to the last request and says what comes next.
    pub fn step(&mut self, event: FetchEvent) -> (next: FetchStep)
        requires
            fetch_accepts(old(self)@.stage, event@),
        ensures
            (final(self)@, next@) == fetch_next(old(self)@, event@),
    {
        match event {
            FetchEvent::Listed(urls) => {
                if urls.len() > 1 {
                    self.stage = FetchStage::Failed;
                    FetchStep::Failed(
                        FromBlobError::Error(String::from_str("Two of same invite exists")),
                    )
                } else if urls.len() == 0 {
                    self.stage = FetchStage::Failed;
                    FetchStep::Failed(FromBlobError::NotFound)
                } else {
                    self.stage = FetchStage::Downloading;
                    let url = urls[0].clone();
                    FetchStep::Act(StorageAction::Download { url })
                }
            },
            FetchEvent::Received(invite) => {
                self.stage = FetchStage::Done;
                FetchStep::Found(invite)
            },
            FetchEvent::Failed(msg) => {
                self.stage = FetchStage::Failed;
                FetchStep::Failed(FromBlobError::Error(msg))
            },
        }
    }
}

// ---------------------------------------------------------------------------
// Laws
// ---------------------------------------------------------------------------

/// Different invites are kept at different paths, all under `invites/`:
/// the path starts with `invites/` and the rest of it is the identifier.
pub proof fn lemma_blob_paths_are_distinct(a: Seq<char>, b: Seq<char>)
    ensures
        blob_path(a).len() == 8 + a.len(),
        blob_path(a).subrange(0, 8) == seq!['i', 'n', 'v', 'i', 't', 'e', 's', '/'],
        blob_path(a).subrange(8, blob_path(a).len() as int) == a,
        blob_path(a) == blob_path(b) ==> a == b,
{
    reveal_strlit("invites/");
    assert(blob_path(a).subrange(0, 8) =~= "invites/"@);
    assert(blob_path(a).subrange(8, blob_path(a).len() as int) =~= a);
    assert(blob_path(b).subrange(8, blob_path(b).len() as int) =~= b);
}

/// An invite is loaded from the path it is stored at: the load lists the
/// very path under which the upload of the same identifier puts the invite.
pub proof fn lemma_load_reads_where_upload_writes(id: Seq<char>, body: Seq<char>)
    ensures
        upload_begin(id, body).1 == fetch_begin(id).1,
        put_request(upload_begin(id, body).0) == StorageRequest::Put(
            blob_path(id),
            body,
            json_content_type(),
        ),
{
}

/// When storage holds no copy of the invite, storing it lists the path,
/// puts the body there as JSON, and is done.
pub proof fn lemma_upload_into_empty(id: Seq<char>, body: Seq<char>)
    ensures
        ({
            let (s0, a0) = upload_begin(id, body);
            let (s1, o1) = upload_next(s0, UploadInput::Listed(Seq::empty()));
            let (s2, o2) = upload_next(s1, UploadInput::Stored);
            &&& a0 == StorageRequest::List(blob_path(id))
            &&& upload_accepts(s0.stage, UploadInput::Listed(Seq::empty()))
            &&& o1 == UploadOutcome::Act(
                StorageRequest::Put(blob_path(id), body, json_content_type()),
            )
            &&& upload_accepts(s1.stage, UploadInput::Stored)
            &&& o2 == UploadOutcome::Done
            &&& s2.stage == UploadStage::Done
        }),
{
}

/// When storage holds one copy of the invite, storing it deletes that copy
/// first, then puts the body at the invite's path, and is done.
pub proof fn lemma_upload_replaces_copy(id: Seq<char>, body: Seq<char>, url: Seq<char>)
    ensures
        ({
            let (s0, a0) = upload_begin(id, body);
            let (s1, o1) = upload_next(s0, UploadInput::Listed(seq![url]));
            let (s2, o2) = upload_next(s1, UploadInput::Deleted);
            let (s3, o3) = upload_next(s2, UploadInput::Stored);
            &&& o1 == UploadOutcome::Act(StorageRequest::Delete(url))
            &&& upload_accepts(s1.stage, UploadInput::Deleted)
            &&& o2 == UploadOutcome::Act(
                StorageRequest::Put(blob_path(id), body, json_content_type()),
            )
            &&& upload_accepts(s2.stage, UploadInput::Stored)
            &&& o3 == UploadOutcome::Done
            &&& s3.stage == UploadStage::Done
        }),
{
    assert(seq![url].len() == 1);
}

/// Nothing is ever written while storage holds more than one copy of the
/// invite: the upload fails at once with the duplicate message, and a failed
/// or finished upload takes no further answer.
pub proof fn lemma_upload_refuses_duplicates(s: UploadState, urls: Seq<Seq<char>>)
    requires
        urls.len() > 1,
    ensures
        upload_next(s, UploadInput::Listed(urls)).1 == UploadOutcome::Failed(duplicate_message()),
        forall|e: UploadInput| !upload_accepts(upload_next(s, UploadInput::Listed(urls)).0.stage, e),
{
}

/// Every write of an upload puts the upload's own body, as JSON, at the
/// upload's own path; every delete removes a blob that the listing of that
/// path returned.
pub proof fn lemma_upload_writes_only_its_invite(s: UploadState, e: UploadInput)
    requires
        upload_accepts(s.stage, e),
    ensures
        upload_next(s, e).0.path == s.path,
        upload_next(s, e).0.body == s.body,
        upload_next(s, e).1 matches UploadOutcome::Act(StorageRequest::Put(p, b, t)) ==> p == s.path
            && b == s.body && t == json_content_type(),
        upload_next(s, e).1 matches UploadOutcome::Act(StorageRequest::Delete(u)) ==> (
        e matches UploadInput::Listed(urls) && urls == seq![u]),
        !(upload_next(s, e).1 matches UploadOutcome::Act(StorageRequest::List(_))),
        !(upload_next(s, e).1 matches UploadOutcome::Act(StorageRequest::Download(_))),
{
    if let UploadInput::Listed(urls) = e {
        if urls.len() == 1 {
            assert(urls == seq![urls[0]]);
        }
    }
}

/// Loading an invite finds it exactly when storage lists one copy and that
/// copy arrives; no copy is "not found"; several copies are an error.
pub proof fn lemma_fetch_outcomes(id: Seq<char>, url: Seq<char>, invite: InviteView, urls: Seq<
    Seq<char>,
>)
    ensures
        ({
            let (s0, a0) = fetch_begin(id);
            let (s1, o1) = fetch_next(s0, FetchInput::Listed(seq![url]));
            &&& a0 == StorageRequest::List(blob_path(id))
            &&& o1 == FetchOutcome::Act(StorageRequest::Download(url))
            &&& fetch_accepts(s1.stage, FetchInput::Received(invite))
            &&& fetch_next(s1, FetchInput::Received(invite)).1 == FetchOutcome::Found(invite)
            &&& fetch_next(s0, FetchInput::Listed(Seq::empty())).1 == FetchOutcome::Failed(
                LoadError::NotFound,
            )
            &&& urls.len() > 1 ==> fetch_next(s0, FetchInput::Listed(urls)).1
                == FetchOutcome::Failed(LoadError::Error(duplicate_message()))
        }),
{
    assert(seq![url].len() == 1);
}

} // verus!
