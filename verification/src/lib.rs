//! Verified core of a package-repository fetcher.
//!
//! The crate manages a cache of version-controlled package repositories:
//! downloading them in bulk, deciding which ones carry changes the user has
//! not reviewed yet, producing review diffs without disturbing a repository's
//! checked-out state, merging reviewed changes, and recording what was
//! reviewed.
//!
//! All decision logic lives here and is verified.  Running the external
//! version-control tool, walking the file system and spawning worker threads
//! are left to an unverified shell around this crate: the functions here
//! build exact command descriptions, step small state machines from one
//! command outcome to the next, and fold the stream of completion events
//! into progress callbacks.

pub mod callback;
pub mod cmd;
pub mod diff;
pub mod download;
pub mod error;
pub mod fetch;
pub mod merge;
pub mod model;
pub mod remote;
pub mod status;
pub mod text;

pub use callback::Callback;
pub use cmd::{action_args, color_str, CmdOutcome, CmdRequest, CmdSpec, GitAction};
pub use diff::{DiffNext, DiffStep, DiffTask};
pub use download::{
    download_request, drain_events, worker_count, FetchDone, FetchEvent, FetchKind, Progress,
    EVENT_QUEUE_BOUND, MAX_WORKERS,
};
pub use error::{CommandFailed, Error};
pub use fetch::{diff_entry, diff_file_contents, Fetch, LinkKind, LinkSpec, Repo};
pub use merge::{
    log_request, mark_seen_request, CommitNext, CommitStep, CommitTask, MergeNext, MergeStep,
    MergeTask,
};
pub use remote::repo_url;
pub use status::{
    select_marked, HasDiffNext, HasDiffStep, HasDiffTask, NeedsMergeNext, NeedsMergeTask,
    UnseenNext, UnseenStep, UnseenTask,
};
pub use text::{first_two_lines, path_join, trim};
