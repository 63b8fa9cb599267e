//! The state of the managed torrent, and what each request makes of it.

use vstd::prelude::*;
use crate::path_text::{
    below, components, is_absolute, join_path, split_path, starts_at_root,
};
use crate::text::{text_of, texts};
use super::tasks::{DownloadTask, ResumeTask};

verus! {

/// How often the torrent is looked at, in milliseconds.
pub const POLL_INTERVAL_MS: u64 = 500;

/// The name of the file that says that the payload was downloaded in full.
pub const COMPLETE_MARKER: &'static str = ".garlemald-patches-complete";

/// The pattern of the files that are downloaded.
pub const ZIP_ONLY_REGEX: &'static str = "(?i)\\.zip$";

/// The life of the managed torrent.
#[derive(Debug, Clone, Copy, PartialEq, Eq, Structural)]
pub enum TorrentState {
    Idle,
    Resolving,
    Downloading,
    Complete,
    Seeding,
    Stopped,
    Error,
}

/// The state whose number is `value`, and `Idle` where there is none.
pub open spec fn torrent_state_of(value: u8) -> TorrentState {
    match value {
        1 => TorrentState::Resolving,
        2 => TorrentState::Downloading,
        3 => TorrentState::Complete,
        4 => TorrentState::Seeding,
        5 => TorrentState::Stopped,
        6 => TorrentState::Error,
        _ => TorrentState::Idle,
    }
}

impl TorrentState {
    /// The number that a state is kept as.
    pub open spec fn code(self) -> u8 {
        match self {
            TorrentState::Idle => 0,
            TorrentState::Resolving => 1,
            TorrentState::Downloading => 2,
            TorrentState::Complete => 3,
            TorrentState::Seeding => 4,
            TorrentState::Stopped => 5,
            TorrentState::Error => 6,
        }
    }

    /// The state with the given number, and `Idle` for a number that no state has.
    pub fn from_u8(value: u8) -> (r: TorrentState)
        ensures
            r == torrent_state_of(value),
    {
        match value {
            1 => TorrentState::Resolving,
            2 => TorrentState::Downloading,
            3 => TorrentState::Complete,
            4 => TorrentState::Seeding,
            5 => TorrentState::Stopped,
            6 => TorrentState::Error,
            _ => TorrentState::Idle,
        }
    }

    /// The number that the state is kept as; see [`TorrentState::code`].
    pub fn as_u8(self) -> (r: u8)
        ensures
            r == self.code(),
    {
        match self {
            TorrentState::Idle => 0,
            TorrentState::Resolving => 1,
            TorrentState::Downloading => 2,
            TorrentState::Complete => 3,
            TorrentState::Seeding => 4,
            TorrentState::Stopped => 5,
            TorrentState::Error => 6,
        }
    }
}

/// A state is told by its number.
pub proof fn law_torrent_state_round_trip(state: TorrentState)
    ensures
        torrent_state_of(state.code()) == state,
{
}

/// The state at one moment.
#[derive(Debug)]
pub struct TorrentSnapshot {
    pub state: TorrentState,
    pub progress_bytes: u64,
    pub total_bytes: u64,
    pub uploaded_bytes: u64,
    pub peers: u32,
    pub download_bps: u64,
    pub upload_bps: u64,
    pub error: Option<String>,
}

/// Why a request was refused.
#[derive(Debug, Clone, Copy, PartialEq, Eq, Structural)]
pub enum TorrentServiceError {
    /// A download is already resolving or under way.
    Busy,
}

impl TorrentServiceError {
    /// The text of the error.
    pub fn message(&self) -> (r: String)
        ensures
            r@ == "a torrent download is already in progress"@,
    {
        "a torrent download is already in progress".to_owned()
    }
}

/// What the session itself says of a torrent.
#[derive(Debug, Clone, Copy, PartialEq, Eq, Structural)]
pub enum EngineState {
    /// The first check of the files goes on.
    Initializing,
    Live,
    Paused,
    Error,
}

/// The part of the statistics that a running torrent has.
#[derive(Debug, Clone, Copy, PartialEq, Eq, Structural)]
pub struct LiveStats {
    pub peers: u64,
    pub download_bps: u64,
    pub upload_bps: u64,
}

/// The statistics of a torrent.
#[derive(Debug, PartialEq, Eq)]
pub struct TorrentStats {
    pub state: EngineState,
    pub error: Option<String>,
    pub progress_bytes: u64,
    pub total_bytes: u64,
    pub uploaded_bytes: u64,
    pub finished: bool,
    pub live: Option<LiveStats>,
}

/// What follows a change of the seeding preference.
#[derive(Debug, Clone, Copy, PartialEq, Eq, Structural)]
pub enum SeedingChange {
    Nothing,
    /// Wake the torrent, with a task of the given generation.
    Resume { generation: u64 },
    /// Pause the torrent.
    Pause,
}

/// The owner of the torrent's state.
#[derive(Debug)]
pub struct TorrentService {
    pub state: u8,
    pub progress_bytes: u64,
    pub total_bytes: u64,
    pub uploaded_bytes: u64,
    pub peers: u32,
    pub download_bps: u64,
    pub upload_bps: u64,
    pub error: Option<String>,
    pub seeding_enabled: bool,
    /// Changes with each task that takes over, so that an earlier task knows.
    pub generation: u64,
    /// Whether there is a session.
    pub has_session: bool,
    /// Whether the session has a torrent.
    pub has_handle: bool,
    /// Where the session puts its files.
    pub output_dir: Option<String>,
    pub persistence_dir: String,
}

impl TorrentService {
    /// The state of the torrent.
    pub open spec fn current(self) -> TorrentState {
        torrent_state_of(self.state)
    }

    /// A session has a place for its files, and a torrent has a session.
    pub open spec fn wf(self) -> bool {
        &&& self.state == self.current().code()
        &&& self.has_session ==> self.output_dir is Some
        &&& self.has_handle ==> self.has_session
    }

    /// Whether the counters are those of `other`.
    pub open spec fn same_counters(self, other: TorrentService) -> bool {
        &&& self.progress_bytes == other.progress_bytes
        &&& self.total_bytes == other.total_bytes
        &&& self.uploaded_bytes == other.uploaded_bytes
        &&& self.peers == other.peers
        &&& self.download_bps == other.download_bps
        &&& self.upload_bps == other.upload_bps
    }

    /// Whether session, torrent and directories are those of `other`.
    pub open spec fn same_session(self, other: TorrentService) -> bool {
        &&& self.has_session == other.has_session
        &&& self.has_handle == other.has_handle
        &&& self.output_dir == other.output_dir
        &&& self.persistence_dir == other.persistence_dir
    }

    /// Whether at most state and error differ from `other`.
    pub open spec fn same_but_state(self, other: TorrentService) -> bool {
        &&& self.same_counters(other)
        &&& self.same_session(other)
        &&& self.seeding_enabled == other.seeding_enabled
        &&& self.generation == other.generation
    }

    /// Whether the state has been set, and nothing else.
    pub open spec fn moved(self, old: TorrentService, state: TorrentState) -> bool {
        &&& self.state == state.code()
        &&& self.error == old.error
        &&& self.same_but_state(old)
    }

    /// Whether the service has failed with the given message, and nothing else differs.
    pub open spec fn failed(self, old: TorrentService, message: Seq<char>) -> bool {
        &&& self.state == TorrentState::Error.code()
        &&& self.error is Some
        &&& self.error->0@ == message
        &&& self.same_but_state(old)
    }

    /// The generation after the given one.
    pub open spec fn after(generation: u64) -> u64 {
        if generation == u64::MAX {
            0
        } else {
            (generation + 1) as u64
        }
    }

    /// A service without a session.
    pub fn new(persistence_dir: &str) -> (r: TorrentService)
        ensures
            r.wf(),
            r.current() == TorrentState::Idle,
            r.progress_bytes == 0,
            r.total_bytes == 0,
            r.uploaded_bytes == 0,
            r.peers == 0,
            r.download_bps == 0,
            r.upload_bps == 0,
            r.error is None,
            r.seeding_enabled,
            r.generation == 0,
            !r.has_session,
            !r.has_handle,
            r.output_dir is None,
            r.persistence_dir@ == persistence_dir@,
    {
        TorrentService {
            state: TorrentState::Idle.as_u8(),
            progress_bytes: 0,
            total_bytes: 0,
            uploaded_bytes: 0,
            peers: 0,
            download_bps: 0,
            upload_bps: 0,
            error: None,
            seeding_enabled: true,
            generation: 0,
            has_session: false,
            has_handle: false,
            output_dir: None,
            persistence_dir: persistence_dir.to_owned(),
        }
    }

    /// Whether a stop or a later task has taken over from the task of the given generation.
    pub fn is_superseded(&self, generation: u64) -> (r: bool)
        ensures
            r == (self.generation != generation),
    {
        self.generation != generation
    }

    /// The state of the torrent.
    pub fn state(&self) -> (r: TorrentState)
        ensures
            r == self.current(),
    {
        TorrentState::from_u8(self.state)
    }

    pub fn set_state(&mut self, state: TorrentState)
        ensures
            final(self).moved(*old(self), state),
            old(self).wf() ==> final(self).wf(),
    {
        self.state = state.as_u8();
    }

    /// Records a failure.
    pub fn fail(&mut self, message: &str)
        ensures
            final(self).failed(*old(self), message@),
            old(self).wf() ==> final(self).wf(),
    {
        self.error = Some(message.to_owned());
        self.set_state(TorrentState::Error);
    }

    /// Records a failure of the task of the given generation, unless another has taken over.
    pub fn fail_unless_superseded(&mut self, generation: u64, message: &str)
        ensures
            old(self).generation != generation ==> *final(self) == *old(self),
            old(self).generation == generation ==> final(self).failed(*old(self), message@),
            old(self).wf() ==> final(self).wf(),
    {
        if self.is_superseded(generation) {
            return ;
        }
        self.fail(message);
    }

    /// Takes over the counters. A torrent that does not run has no peers and no speed.
    pub fn apply_stats(&mut self, stats: &TorrentStats)
        ensures
            final(self).counted(*old(self), *stats),
            old(self).wf() ==> final(self).wf(),
    {
        self.progress_bytes = stats.progress_bytes;
        self.total_bytes = stats.total_bytes;
        self.uploaded_bytes = stats.uploaded_bytes;
        let (peers, down_bps, up_bps): (u32, u64, u64) = match &stats.live {
            Some(live) => {
                let peers: u64 = live.peers % 0x1_0000_0000;
                (peers as u32, live.download_bps, live.upload_bps)
            },
            None => (0, 0, 0),
        };
        self.peers = peers;
        self.download_bps = down_bps;
        self.upload_bps = up_bps;
    }

    /// Whether the counters are those of the statistics. Of the number of peers the lower 32 bits
    /// are kept.
    pub open spec fn counters_of(self, stats: TorrentStats) -> bool {
        &&& self.progress_bytes == stats.progress_bytes
        &&& self.total_bytes == stats.total_bytes
        &&& self.uploaded_bytes == stats.uploaded_bytes
        &&& match stats.live {
            Some(live) => {
                &&& self.peers == live.peers % 0x1_0000_0000
                &&& self.download_bps == live.download_bps
                &&& self.upload_bps == live.upload_bps
            },
            None => self.peers == 0 && self.download_bps == 0 && self.upload_bps == 0,
        }
    }

    /// Whether the counters are those of the statistics, and nothing else differs.
    pub open spec fn counted(self, old: TorrentService, stats: TorrentStats) -> bool {
        &&& self.counters_of(stats)
        &&& self.state == old.state
        &&& self.error == old.error
        &&& self.same_session(old)
        &&& self.seeding_enabled == old.seeding_enabled
        &&& self.generation == old.generation
    }

    /// The state at this moment.
    pub fn snapshot(&self) -> (r: TorrentSnapshot)
        ensures
            r.state == self.current(),
            r.progress_bytes == self.progress_bytes,
            r.total_bytes == self.total_bytes,
            r.uploaded_bytes == self.uploaded_bytes,
            r.peers == self.peers,
            r.download_bps == self.download_bps,
            r.upload_bps == self.upload_bps,
            r.error == self.error,
    {
        TorrentSnapshot {
            state: self.state(),
            progress_bytes: self.progress_bytes,
            total_bytes: self.total_bytes,
            uploaded_bytes: self.uploaded_bytes,
            peers: self.peers,
            download_bps: self.download_bps,
            upload_bps: self.upload_bps,
            error: match &self.error {
                Some(message) => Some(message.clone()),
                None => None,
            },
        }
    }

    /// Lets a new task take over, and returns its generation.
    fn next_generation(&mut self) -> (r: u64)
        ensures
            r == Self::after(old(self).generation),
            final(self).generation == r,
            final(self).state == old(self).state,
            final(self).error == old(self).error,
            final(self).same_counters(*old(self)),
            final(self).same_session(*old(self)),
            final(self).seeding_enabled == old(self).seeding_enabled,
    {
        self.generation = self.generation.wrapping_add(1);
        self.generation
    }

    /// Asks for a download. It is refused while one is resolving or under way; otherwise the
    /// service resolves, and the returned task is to be run.
    pub fn start_download(&mut self, endpoint_url: String, output_dir: String) -> (r: Result<
        DownloadTask,
        TorrentServiceError,
    >)
        requires
            old(self).wf(),
        ensures
            final(self).wf(),
            if old(self).current() == TorrentState::Resolving || old(self).current()
                == TorrentState::Downloading {
                &&& r is Err
                &&& r->Err_0 == TorrentServiceError::Busy
                &&& *final(self) == *old(self)
            } else {
                &&& r is Ok
                &&& r->Ok_0.begins(endpoint_url, output_dir, Self::after(old(self).generation))
                &&& final(self).generation == Self::after(old(self).generation)
                &&& final(self).current() == TorrentState::Resolving
                &&& final(self).error is None
                &&& final(self).same_counters(*old(self))
                &&& final(self).same_session(*old(self))
                &&& final(self).seeding_enabled == old(self).seeding_enabled
            },
    {
        match self.state() {
            TorrentState::Resolving | TorrentState::Downloading => {
                return Err(TorrentServiceError::Busy);
            },
            _ => {},
        }
        self.error = None;
        self.set_state(TorrentState::Resolving);
        let generation: u64 = self.next_generation();
        Ok(DownloadTask::begin(endpoint_url, output_dir, generation))
    }

    /// Asks, at the start of the program, for a torrent of an earlier run to be taken up again.
    /// Nothing is done where there is a session; otherwise the returned task is to be run.
    pub fn ensure_seeding_if_complete(&mut self, output_dir: String) -> (r: Option<ResumeTask>)
        requires
            old(self).wf(),
        ensures
            final(self).wf(),
            if old(self).has_session {
                &&& r is None
                &&& *final(self) == *old(self)
            } else {
                &&& r is Some
                &&& r->0.begins(output_dir, Self::after(old(self).generation))
                &&& final(self).generation == Self::after(old(self).generation)
                &&& final(self).state == old(self).state
                &&& final(self).error == old(self).error
                &&& final(self).same_counters(*old(self))
                &&& final(self).same_session(*old(self))
                &&& final(self).seeding_enabled == old(self).seeding_enabled
            },
    {
        if self.has_session {
            return None;
        }
        let generation: u64 = self.next_generation();
        Some(ResumeTask::begin(output_dir, generation))
    }

    /// Sets whether a torrent that is complete is seeded. One that is already complete is woken
    /// or paused at once.
    pub fn set_seeding_enabled(&mut self, enabled: bool) -> (r: SeedingChange)
        requires
            old(self).wf(),
        ensures
            final(self).wf(),
            final(self).seeding_enabled == enabled,
            final(self).state == old(self).state,
            final(self).error == old(self).error,
            final(self).same_counters(*old(self)),
            final(self).same_session(*old(self)),
            if old(self).current() == TorrentState::Complete && enabled {
                &&& final(self).generation == Self::after(old(self).generation)
                &&& r == (SeedingChange::Resume { generation: final(self).generation })
            } else if old(self).current() == TorrentState::Seeding && !enabled {
                &&& final(self).generation == Self::after(old(self).generation)
                &&& r == SeedingChange::Pause
            } else {
                &&& final(self).generation == old(self).generation
                &&& r == SeedingChange::Nothing
            },
    {
        self.seeding_enabled = enabled;
        match self.state() {
            TorrentState::Complete => {
                if enabled {
                    let generation: u64 = self.next_generation();
                    return SeedingChange::Resume { generation };
                }
            },
            TorrentState::Seeding => {
                if !enabled {
                    self.next_generation();
                    return SeedingChange::Pause;
                }
            },
            _ => {},
        }
        SeedingChange::Nothing
    }

    /// The torrent was woken for seeding. The result says whether to keep looking at it.
    pub fn seeding_resumed(&mut self, outcome: Result<(), String>) -> (r: bool)
        requires
            old(self).wf(),
        ensures
            final(self).wf(),
            match outcome {
                Ok(_) => r && final(self).moved(*old(self), TorrentState::Seeding),
                Err(e) => !r && final(self).failed(
                    *old(self),
                    "could not resume seeding: "@ + e@,
                ),
            },
    {
        match outcome {
            Ok(_) => {
                self.set_state(TorrentState::Seeding);
                true
            },
            Err(e) => {
                let mut message: String = "could not resume seeding: ".to_owned();
                message.append(e.as_str());
                self.fail(message.as_str());
                false
            },
        }
    }

    /// The torrent was paused because seeding was switched off; `Ok` also where there was no
    /// torrent to pause.
    pub fn seeding_paused(&mut self, outcome: Result<(), String>)
        requires
            old(self).wf(),
        ensures
            final(self).wf(),
            match outcome {
                Ok(_) => final(self).moved(*old(self), TorrentState::Complete),
                Err(e) => final(self).failed(*old(self), "could not pause seeding: "@ + e@),
            },
    {
        match outcome {
            Ok(_) => {
                self.set_state(TorrentState::Complete);
            },
            Err(e) => {
                let mut message: String = "could not pause seeding: ".to_owned();
                message.append(e.as_str());
                self.fail(message.as_str());
            },
        }
    }

    /// Whether there is a session with a torrent.
    pub open spec fn has_torrent(self) -> bool {
        self.has_session && self.has_handle
    }

    /// Whether the torrent was stopped, and every task superseded.
    pub open spec fn stopped(self, old: TorrentService) -> bool {
        &&& self.generation == Self::after(old.generation)
        &&& self.current() == TorrentState::Stopped
        &&& self.error == old.error
        &&& self.same_counters(old)
        &&& self.same_session(old)
        &&& self.seeding_enabled == old.seeding_enabled
    }

    /// The user's cancel: every task that runs is superseded. The result says whether there is a
    /// torrent to pause.
    pub fn stop(&mut self) -> (r: bool)
        requires
            old(self).wf(),
        ensures
            final(self).wf(),
            final(self).stopped(*old(self)),
            r == old(self).has_torrent(),
    {
        self.next_generation();
        self.set_state(TorrentState::Stopped);
        self.has_session && self.has_handle
    }

    /// Where the session puts its files, which may differ from a preference that was changed
    /// since.
    pub fn session_output_dir(&self) -> (r: Option<String>)
        ensures
            r == self.output_dir,
    {
        match &self.output_dir {
            Some(dir) => Some(dir.clone()),
            None => None,
        }
    }

    /// The torrent's own folder below the session's output directory. `first_file` is the path of
    /// the torrent's first file, where its file list is known.
    pub fn payload_dir(&self, first_file: Option<&str>) -> (r: Option<String>)
        ensures
            text_of(r) == match (self.output_dir, first_file) {
                (Some(out), Some(file)) => match first_component(file@) {
                    Some(top) => if self.has_handle {
                        Some(below(out@, top))
                    } else {
                        None
                    },
                    None => None,
                },
                _ => None,
            },
    {
        match (&self.output_dir, first_file) {
            (Some(out), Some(file)) => {
                if !self.has_handle {
                    return None;
                }
                match top_of(file) {
                    Some(top) => Some(join_path(out.as_str(), top.as_str())),
                    None => None,
                }
            },
            _ => None,
        }
    }

    /// The path of the marker that says that the payload is complete.
    pub fn marker_path(&self) -> (r: Option<String>)
        ensures
            text_of(r) == match self.output_dir {
                Some(dir) => Some(below(dir@, COMPLETE_MARKER@)),
                None => None,
            },
    {
        match &self.output_dir {
            Some(dir) => Some(complete_marker_path(dir.as_str())),
            None => None,
        }
    }

    /// The session has a torrent.
    pub fn torrent_attached(&mut self)
        requires
            old(self).wf(),
            old(self).has_session,
        ensures
            final(self).wf(),
            final(self).attached(*old(self)),
    {
        self.has_handle = true;
    }

    /// Whether the session has got a torrent, and nothing else differs.
    pub open spec fn attached(self, old: TorrentService) -> bool {
        &&& self.has_handle
        &&& self.has_session == old.has_session
        &&& self.output_dir == old.output_dir
        &&& self.persistence_dir == old.persistence_dir
        &&& self.state == old.state
        &&& self.error == old.error
        &&& self.same_counters(old)
        &&& self.seeding_enabled == old.seeding_enabled
        &&& self.generation == old.generation
    }

    /// Whether a session was made, and nothing else differs.
    pub open spec fn opened(self, old: TorrentService, output_dir: Seq<char>) -> bool {
        &&& self.has_session
        &&& self.output_dir is Some
        &&& self.output_dir->0@ == output_dir
        &&& self.has_handle == old.has_handle
        &&& self.persistence_dir == old.persistence_dir
        &&& self.state == old.state
        &&& self.error == old.error
        &&& self.same_counters(old)
        &&& self.seeding_enabled == old.seeding_enabled
        &&& self.generation == old.generation
    }

    /// A session was made that puts its files in `output_dir`.
    pub fn session_created(&mut self, output_dir: &str)
        requires
            old(self).wf(),
        ensures
            final(self).wf(),
            final(self).opened(*old(self), output_dir@),
    {
        self.has_session = true;
        self.output_dir = Some(output_dir.to_owned());
    }
}

/// The first component of a path, the root being one.
pub open spec fn first_component(path: Seq<char>) -> Option<Seq<char>> {
    if is_absolute(path) {
        Some("/"@)
    } else if components(path).len() > 0 {
        Some(components(path)[0])
    } else {
        None
    }
}

/// See [`first_component`].
fn top_of(path: &str) -> (r: Option<String>)
    ensures
        text_of(r) == first_component(path@),
{
    if starts_at_root(path) {
        return Some("/".to_owned());
    }
    let parts: Vec<String> = split_path(path);
    assert(texts(parts@) == components(path@));
    if parts.len() > 0 {
        assert(texts(parts@)[0] == parts@[0]@);
        Some(parts[0].clone())
    } else {
        None
    }
}

/// The marker's path in the given directory.
pub fn complete_marker_path(output_dir: &str) -> (r: String)
    ensures
        r@ == below(output_dir@, COMPLETE_MARKER@),
        r@ == below(output_dir@, ".garlemald-patches-complete"@),
{
    join_path(output_dir, COMPLETE_MARKER)
}

/// A task is superseded by whatever lets another take over: a stop, a new download, a new resume.
pub proof fn law_taking_over_supersedes(generation: u64)
    ensures
        TorrentService::after(generation) != generation,
{
}

/// The generations count up, and begin again behind the last.
pub proof fn law_generations_count_up(generation: u64)
    ensures
        TorrentService::after(generation) == (generation + 1) % 0x1_0000_0000_0000_0000,
{
}

/// A stop supersedes every task and changes nothing else but the state.
pub proof fn law_what_a_stop_changes(service: TorrentService, old: TorrentService)
    requires
        service.stopped(old),
    ensures
        service.current() == TorrentState::Stopped,
        service.generation != old.generation,
        service.error == old.error,
        service.has_session == old.has_session,
        service.has_handle == old.has_handle,
        service.output_dir == old.output_dir,
        service.persistence_dir == old.persistence_dir,
        service.seeding_enabled == old.seeding_enabled,
        service.progress_bytes == old.progress_bytes,
        service.total_bytes == old.total_bytes,
        service.uploaded_bytes == old.uploaded_bytes,
        service.peers == old.peers,
        service.download_bps == old.download_bps,
        service.upload_bps == old.upload_bps,
{
}

/// A new state, or a failure, changes state and error and nothing else.
pub proof fn law_what_a_new_state_changes(
    moved: TorrentService,
    failed: TorrentService,
    old: TorrentService,
    state: TorrentState,
    message: Seq<char>,
)
    requires
        moved.moved(old, state),
        failed.failed(old, message),
    ensures
        moved.current() == state,
        moved.error == old.error,
        failed.current() == TorrentState::Error,
        text_of(failed.error) == Some(message),
        moved.generation == old.generation && failed.generation == old.generation,
        moved.has_session == old.has_session && failed.has_session == old.has_session,
        moved.has_handle == old.has_handle && failed.has_handle == old.has_handle,
        moved.output_dir == old.output_dir && failed.output_dir == old.output_dir,
        moved.persistence_dir == old.persistence_dir && failed.persistence_dir
            == old.persistence_dir,
        moved.seeding_enabled == old.seeding_enabled && failed.seeding_enabled
            == old.seeding_enabled,
        moved.progress_bytes == old.progress_bytes && failed.progress_bytes == old.progress_bytes,
        moved.total_bytes == old.total_bytes && failed.total_bytes == old.total_bytes,
        moved.uploaded_bytes == old.uploaded_bytes && failed.uploaded_bytes == old.uploaded_bytes,
        moved.peers == old.peers && failed.peers == old.peers,
        moved.download_bps == old.download_bps && failed.download_bps == old.download_bps,
        moved.upload_bps == old.upload_bps && failed.upload_bps == old.upload_bps,
{
    law_torrent_state_round_trip(state);
}

/// New counters are those of the statistics, and zero rates where the torrent is not live; nothing
/// else changes.
pub proof fn law_what_counting_changes(
    service: TorrentService,
    old: TorrentService,
    stats: TorrentStats,
)
    requires
        service.counted(old, stats),
    ensures
        service.progress_bytes == stats.progress_bytes,
        service.total_bytes == stats.total_bytes,
        service.uploaded_bytes == stats.uploaded_bytes,
        stats.live is None ==> service.peers == 0 && service.download_bps == 0 && service.upload_bps
            == 0,
        stats.live is Some ==> service.download_bps == stats.live->0.download_bps
            && service.upload_bps == stats.live->0.upload_bps && (stats.live->0.peers <= u32::MAX
            ==> service.peers == stats.live->0.peers),
        service.state == old.state,
        service.error == old.error,
        service.generation == old.generation,
        service.has_session == old.has_session,
        service.has_handle == old.has_handle,
        service.output_dir == old.output_dir,
        service.persistence_dir == old.persistence_dir,
        service.seeding_enabled == old.seeding_enabled,
{
}

/// A session that was made puts its files where it was told, and a torrent that was attached is
/// there; nothing else changes.
pub proof fn law_what_a_session_changes(
    opened: TorrentService,
    attached: TorrentService,
    old: TorrentService,
    output_dir: Seq<char>,
)
    requires
        opened.opened(old, output_dir),
        attached.attached(old),
    ensures
        opened.has_session,
        text_of(opened.output_dir) == Some(output_dir),
        opened.has_handle == old.has_handle,
        attached.has_handle,
        attached.has_session == old.has_session,
        attached.output_dir == old.output_dir,
        attached.has_torrent() == old.has_session,
        opened.state == old.state && attached.state == old.state,
        opened.error == old.error && attached.error == old.error,
        opened.generation == old.generation && attached.generation == old.generation,
        opened.seeding_enabled == old.seeding_enabled && attached.seeding_enabled
            == old.seeding_enabled,
        opened.progress_bytes == old.progress_bytes && attached.progress_bytes
            == old.progress_bytes,
        opened.persistence_dir == old.persistence_dir && attached.persistence_dir
            == old.persistence_dir,
{
}

/// The first component of a path: the root where it starts there, or else its first name.
pub proof fn law_the_first_component(parts: Seq<Seq<char>>)
    requires
        parts.len() > 0,
        crate::path_text::fit(parts, false),
    ensures
        first_component(crate::path_text::path_from(true, parts)) == Some(seq!['/']),
        first_component(crate::path_text::path_from(false, parts)) == Some(parts[0]),
        first_component(Seq::empty()) is None,
{
    reveal_strlit("/");
    assert("/"@ =~= seq!['/']);
    assert(crate::path_text::fit(parts, true)) by {
        assert forall|i: int| 0 <= i < parts.len() implies crate::path_text::is_plain(
            #[trigger] parts[i],
        ) && (parts[i] != seq!['.'] || i == 0) by {}
    }
    crate::path_text::lemma_components_of_path_from(false, parts);
    crate::path_text::lemma_path_from_root(true, parts);
    crate::path_text::lemma_path_from_root(false, parts);
    let none = Seq::<char>::empty();
    assert(none.take(0) == none);
    assert(components(none) == Seq::<Seq<char>>::empty());
}

/// The number of each state, and that no other number has a state of its own.
pub proof fn law_the_numbers_of_the_states(state: TorrentState, value: u8)
    ensures
        state.code() == match state {
            TorrentState::Idle => 0u8,
            TorrentState::Resolving => 1,
            TorrentState::Downloading => 2,
            TorrentState::Complete => 3,
            TorrentState::Seeding => 4,
            TorrentState::Stopped => 5,
            TorrentState::Error => 6,
        },
        value > 6 ==> torrent_state_of(value) == TorrentState::Idle,
{
}

/// Whether there is a torrent, and what a service may be.
pub proof fn law_what_a_service_has(service: TorrentService)
    requires
        service.wf(),
    ensures
        service.has_torrent() <==> service.has_session && service.has_handle,
        service.has_handle ==> service.has_session,
        service.has_session ==> service.output_dir is Some,
        service.current() == torrent_state_of(service.state),
{
}

} // verus!
