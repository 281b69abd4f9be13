//! The download worker's decision logic: destination paths and the state
//! machine that one item's download follows. The surrounding I/O (the
//! existence check, the GET, the file creation, the body streaming) reports
//! each observation as an event; the machine decides what happens next, so
//! every decision is checked here while the I/O stays outside.

use vstd::prelude::*;
use crate::channel::Channel;
use crate::extension::Extension;
use crate::item::Data;
use crate::text::{int_rep, i64_to_string};
use vstd::string::StringExecFns;

verus! {

/// The status a successful download requires.
pub const OK_STATUS: u16 = 200;

/// How one item's download attempt ended.
#[derive(Clone, Copy, Debug, PartialEq, Eq, Structural)]
pub enum DownloadOutcome {
    /// The destination file already existed; no request was made.
    AlreadyPresent,
    /// The body was streamed into a freshly created destination file.
    Saved,
    /// The GET request itself failed.
    RequestFailed,
    /// The GET returned a status other than 200 OK.
    BadStatus(u16),
    /// The destination file could not be created.
    CreateFailed,
}

impl DownloadOutcome {
    /// Whether this outcome counts as a failed attempt.
    pub open spec fn is_failure(self) -> bool {
        match self {
            DownloadOutcome::AlreadyPresent => false,
            DownloadOutcome::Saved => false,
            DownloadOutcome::RequestFailed => true,
            DownloadOutcome::BadStatus(_) => true,
            DownloadOutcome::CreateFailed => true,
        }
    }

    /// Whether this outcome counts as a failed attempt.
    pub fn failed(&self) -> (r: bool)
        ensures
            r == self.is_failure(),
    {
        match self {
            DownloadOutcome::AlreadyPresent => false,
            DownloadOutcome::Saved => false,
            DownloadOutcome::RequestFailed => true,
            DownloadOutcome::BadStatus(_) => true,
            DownloadOutcome::CreateFailed => true,
        }
    }
}

/// Where one item's download stands. Each non-final state asks the I/O for
/// one observation: `Start` for the existence check, `AwaitResponse` for the
/// GET, `AwaitFile` for the file creation. `Finished(Saved)` asks it to
/// stream the body into the created file.
#[derive(Clone, Copy, Debug, PartialEq, Eq, Structural)]
pub enum WorkerState {
    Start,
    AwaitResponse,
    AwaitFile,
    Finished(DownloadOutcome),
}

/// One observation made by the surrounding I/O: whether the destination file
/// exists, the GET's status (`None` when the request itself failed), or
/// whether the destination file could be created.
#[derive(Clone, Copy, Debug, PartialEq, Eq, Structural)]
pub enum WorkerEvent {
    Exists(bool),
    Response(Option<u16>),
    FileCreated(bool),
}

/// Which events can answer which state.
pub open spec fn event_fits(s: WorkerState, e: WorkerEvent) -> bool {
    match s {
        WorkerState::Start => e is Exists,
        WorkerState::AwaitResponse => e is Response,
        WorkerState::AwaitFile => e is FileCreated,
        WorkerState::Finished(_) => false,
    }
}

/// The worker's transition relation, one observation at a time.
pub open spec fn step_spec(s: WorkerState, e: WorkerEvent) -> WorkerState {
    match (s, e) {
        (WorkerState::Start, WorkerEvent::Exists(true)) => WorkerState::Finished(
            DownloadOutcome::AlreadyPresent,
        ),
        (WorkerState::Start, WorkerEvent::Exists(false)) => WorkerState::AwaitResponse,
        (WorkerState::AwaitResponse, WorkerEvent::Response(None)) => WorkerState::Finished(
            DownloadOutcome::RequestFailed,
        ),
        (WorkerState::AwaitResponse, WorkerEvent::Response(Some(status))) => if status
            == OK_STATUS {
            WorkerState::AwaitFile
        } else {
            WorkerState::Finished(DownloadOutcome::BadStatus(status))
        },
        (WorkerState::AwaitFile, WorkerEvent::FileCreated(true)) => WorkerState::Finished(
            DownloadOutcome::Saved,
        ),
        (WorkerState::AwaitFile, WorkerEvent::FileCreated(false)) => WorkerState::Finished(
            DownloadOutcome::CreateFailed,
        ),
        _ => s,
    }
}

/// Advances one item's download by one observation.
pub fn step(s: WorkerState, e: WorkerEvent) -> (r: WorkerState)
    requires
        event_fits(s, e),
    ensures
        r == step_spec(s, e),
{
    match (s, e) {
        (WorkerState::Start, WorkerEvent::Exists(true)) => WorkerState::Finished(
            DownloadOutcome::AlreadyPresent,
        ),
        (WorkerState::Start, WorkerEvent::Exists(false)) => WorkerState::AwaitResponse,
        (WorkerState::AwaitResponse, WorkerEvent::Response(None)) => WorkerState::Finished(
            DownloadOutcome::RequestFailed,
        ),
        (WorkerState::AwaitResponse, WorkerEvent::Response(Some(status))) => if status
            == OK_STATUS {
            WorkerState::AwaitFile
        } else {
            WorkerState::Finished(DownloadOutcome::BadStatus(status))
        },
        (WorkerState::AwaitFile, WorkerEvent::FileCreated(true)) => WorkerState::Finished(
            DownloadOutcome::Saved,
        ),
        (WorkerState::AwaitFile, WorkerEvent::FileCreated(false)) => WorkerState::Finished(
            DownloadOutcome::CreateFailed,
        ),
        _ => s,
    }
}

/// The destination file name of one item: `<id>.<extension>`.
pub open spec fn file_name_spec(id: int, ext: Extension) -> Seq<char> {
    int_rep(id) + "."@ + ext.tag_spec()
}

/// Builds the destination file name of one item.
pub fn file_name(id: i64, ext: &Extension) -> (s: String)
    ensures
        s@ == file_name_spec(id as int, *ext),
{
    let mut s = i64_to_string(id);
    s.append(".");
    s.append(ext.tag());
    proof {
        assert(s@ =~= file_name_spec(id as int, *ext));
    }
    s
}

/// The destination path of one item relative to the chosen root:
/// `<channel>/<id>.<extension>`.
pub open spec fn relative_dest_spec(c: Channel, id: int, ext: Extension) -> Seq<char> {
    c.tag_spec() + "/"@ + int_rep(id) + "."@ + ext.tag_spec()
}

/// Builds the destination path of one item relative to the chosen root.
pub fn relative_dest(item: &Data) -> (s: String)
    ensures
        s@ == relative_dest_spec(item.channel_name, item.id as int, item.extension),
{
    let mut s = item.channel_name.tag().to_owned();
    s.append("/");
    let name = file_name(item.id, &item.extension);
    s.append(name.as_str());
    proof {
        assert(s@ =~= relative_dest_spec(item.channel_name, item.id as int, item.extension));
    }
    s
}

/// Law: under one channel and extension, distinct ids give distinct
/// destination paths, so parallel workers never write to the same file.
pub proof fn lemma_distinct_ids_distinct_paths(c: Channel, id1: int, id2: int, e: Extension)
    requires
        id1 != id2,
    ensures
        relative_dest_spec(c, id1, e) != relative_dest_spec(c, id2, e),
{
    reveal_strlit("/");
    reveal_strlit(".");
    if relative_dest_spec(c, id1, e) == relative_dest_spec(c, id2, e) {
        let p1 = relative_dest_spec(c, id1, e);
        let p2 = relative_dest_spec(c, id2, e);
        let k = c.tag_spec().len() + 1;
        let m1 = int_rep(id1).len();
        let m2 = int_rep(id2).len();
        assert(p1.len() == k + m1 + 1 + e.tag_spec().len());
        assert(p2.len() == k + m2 + 1 + e.tag_spec().len());
        assert(m1 == m2);
        assert(int_rep(id1) =~= p1.subrange(k as int, (k + m1) as int));
        assert(int_rep(id2) =~= p2.subrange(k as int, (k + m2) as int));
        crate::text::lemma_int_rep_injective(id1, id2);
        assert(false);
    }
}

/// Law: an item whose destination file already exists finishes at once with a
/// non-failing outcome — the machine never reaches the state that asks for a
/// network request.
pub proof fn lemma_preexisting_never_requests(o: DownloadOutcome)
    ensures
        step_spec(WorkerState::Start, WorkerEvent::Exists(true)) == WorkerState::Finished(
            DownloadOutcome::AlreadyPresent,
        ),
        step_spec(WorkerState::Start, WorkerEvent::Exists(true)) != WorkerState::AwaitResponse,
        step_spec(WorkerState::Start, WorkerEvent::Exists(true)) == WorkerState::Finished(o)
            ==> !o.is_failure(),
{
}

} // verus!
