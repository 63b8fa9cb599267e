//! The tasks that work on the torrent. A task names its next action, and is told how it went; it
//! ends without a trace when another task has taken over.

use vstd::prelude::*;
use crate::patcher::extract::{has_zip_extension, is_zip};
use crate::text::{starts_with, text_of, texts};
use super::endpoint::MagnetFetchError;
use super::service::{EngineState, TorrentService, TorrentState, TorrentStats};

verus! {

/// How often adding the torrent is tried.
pub const MAX_ADD_ATTEMPTS: u32 = 4;

/// What a monitor does next.
#[derive(Debug, Clone, Copy, PartialEq, Eq, Structural)]
pub enum MonitorStep {
    /// Look whether another task has taken over, before the pause between two looks.
    BeforeSleep,
    /// Let the poll interval go by.
    Sleep,
    /// Read the statistics.
    ReadStats,
    /// Write the marker that the payload is complete.
    WriteMarker,
    /// Pause the torrent that is complete.
    PauseCompleted,
    Finished,
}

/// The task that keeps the counters up to date, and decides once, when the torrent is complete,
/// whether it is seeded.
#[derive(Debug, Clone, Copy, PartialEq, Eq, Structural)]
pub struct Monitor {
    pub step: MonitorStep,
    pub generation: u64,
    /// Whether that decision was made.
    pub past_completion: bool,
}

impl Monitor {
    /// Begins to look at the torrent.
    pub fn begin(generation: u64, already_seeding: bool) -> (r: Monitor)
        ensures
            r == (Monitor {
                step: MonitorStep::BeforeSleep,
                generation,
                past_completion: already_seeding,
            }),
    {
        Monitor { step: MonitorStep::BeforeSleep, generation, past_completion: already_seeding }
    }

    /// Whether only the step differs.
    pub open spec fn moved(self, old: Monitor, step: MonitorStep) -> bool {
        self == (Monitor { step, ..old })
    }

    /// Goes to sleep, unless another task has taken over.
    pub fn before_sleep(&mut self, service: &TorrentService)
        requires
            old(self).step == MonitorStep::BeforeSleep,
        ensures
            final(self).moved(
                *old(self),
                if service.generation != old(self).generation {
                    MonitorStep::Finished
                } else {
                    MonitorStep::Sleep
                },
            ),
    {
        self.step = if service.is_superseded(self.generation) {
            MonitorStep::Finished
        } else {
            MonitorStep::Sleep
        };
    }

    /// Looks at the torrent, unless another task has taken over meanwhile.
    pub fn slept(&mut self, service: &TorrentService)
        requires
            old(self).step == MonitorStep::Sleep,
        ensures
            final(self).moved(
                *old(self),
                if service.generation != old(self).generation {
                    MonitorStep::Finished
                } else {
                    MonitorStep::ReadStats
                },
            ),
    {
        self.step = if service.is_superseded(self.generation) {
            MonitorStep::Finished
        } else {
            MonitorStep::ReadStats
        };
    }

    /// The statistics were read.
    pub fn stats_read(&mut self, service: &mut TorrentService, stats: TorrentStats)
        requires
            old(service).wf(),
            old(self).step == MonitorStep::ReadStats,
        ensures
            final(service).wf(),
            final(service).counters_of(stats),
            final(service).same_session(*old(service)),
            final(service).generation == old(service).generation,
            final(service).seeding_enabled == old(service).seeding_enabled,
            if stats.state == EngineState::Error {
                &&& final(self).moved(*old(self), MonitorStep::Finished)
                &&& final(service).current() == TorrentState::Error
                &&& final(service).error is Some
                &&& final(service).error->0@ == match stats.error {
                    Some(e) => e@,
                    None => "torrent entered an error state"@,
                }
            } else if old(self).past_completion {
                &&& final(self).moved(*old(self), MonitorStep::BeforeSleep)
                &&& final(service).state == old(service).state
                &&& final(service).error == old(service).error
            } else if !stats.finished {
                &&& final(self).moved(*old(self), MonitorStep::BeforeSleep)
                &&& final(service).current() == TorrentState::Downloading
                &&& final(service).error == old(service).error
            } else {
                &&& *final(self) == (Monitor {
                    step: MonitorStep::WriteMarker,
                    past_completion: true,
                    ..*old(self)
                })
                &&& final(service).state == old(service).state
                &&& final(service).error == old(service).error
            },
    {
        service.apply_stats(&stats);
        if stats.state == EngineState::Error {
            match &stats.error {
                Some(e) => {
                    service.fail(e.as_str());
                },
                None => {
                    service.fail("torrent entered an error state");
                },
            }
            self.step = MonitorStep::Finished;
        } else if self.past_completion {
            self.step = MonitorStep::BeforeSleep;
        } else if !stats.finished {
            service.set_state(TorrentState::Downloading);
            self.step = MonitorStep::BeforeSleep;
        } else {
            self.past_completion = true;
            self.step = MonitorStep::WriteMarker;
        }
    }

    /// The marker was written, as far as that could be done: the torrent is seeded, or paused
    /// where the user does not want that.
    pub fn marker_written(&mut self, service: &mut TorrentService)
        requires
            old(service).wf(),
            old(self).step == MonitorStep::WriteMarker,
        ensures
            final(service).wf(),
            if old(service).seeding_enabled {
                &&& final(self).moved(*old(self), MonitorStep::BeforeSleep)
                &&& final(service).moved(*old(service), TorrentState::Seeding)
            } else {
                &&& final(self).moved(*old(self), MonitorStep::PauseCompleted)
                &&& *final(service) == *old(service)
            },
    {
        if service.seeding_enabled {
            service.set_state(TorrentState::Seeding);
            self.step = MonitorStep::BeforeSleep;
        } else {
            self.step = MonitorStep::PauseCompleted;
        }
    }

    /// The complete torrent was paused.
    pub fn paused(&mut self, service: &mut TorrentService, outcome: Result<(), String>)
        requires
            old(service).wf(),
            old(self).step == MonitorStep::PauseCompleted,
        ensures
            final(service).wf(),
            final(self).moved(*old(self), MonitorStep::Finished),
            match outcome {
                Ok(_) => final(service).moved(*old(service), TorrentState::Complete),
                Err(e) => final(service).failed(
                    *old(service),
                    "could not pause the completed torrent: "@ + e@,
                ),
            },
    {
        match outcome {
            Ok(_) => {
                service.set_state(TorrentState::Complete);
            },
            Err(e) => {
                let mut message: String = "could not pause the completed torrent: ".to_owned();
                message.append(e.as_str());
                service.fail(message.as_str());
            },
        }
        self.step = MonitorStep::Finished;
    }
}

/// How fetching the magnet link went.
#[derive(Debug, PartialEq, Eq)]
pub enum MagnetOutcome {
    Fetched(String),
    Refused(MagnetFetchError),
    /// The fetch itself broke off.
    TaskFailed(String),
}

/// How adding the torrent went.
#[derive(Debug, PartialEq, Eq)]
pub enum AddOutcome {
    Added,
    /// The session has the torrent already.
    AlreadyManaged,
    /// The session only listed the torrent's files.
    ListOnly,
    Failed(String),
}

/// What a download does next.
#[derive(Debug, Clone, Copy, PartialEq, Eq, Structural)]
pub enum DownloadStep {
    FetchMagnet,
    /// Take the session that there is, or make one.
    OpenSession,
    /// Add the torrent, only its zip files where `narrowed` says so.
    AddTorrent,
    /// Drop the torrent that the session has, but keep its files.
    DropStale,
    /// Pause the torrent that was added in vain.
    PauseAdded,
    /// Remove the marker that the payload is complete.
    ClearMarker,
    /// Look at the torrent from now on.
    Watch,
    Finished,
}

/// The task that fetches the magnet link and adds the torrent.
#[derive(Debug)]
pub struct DownloadTask {
    pub step: DownloadStep,
    pub generation: u64,
    pub endpoint_url: String,
    pub output_dir: String,
    /// The magnet link, once it is known.
    pub magnet: String,
    /// Whether only the zip files are to be downloaded.
    pub narrowed: bool,
    /// How often adding the torrent was tried.
    pub attempts: u32,
}

impl DownloadTask {
    /// Whether the task has not begun.
    pub open spec fn begins(
        self,
        endpoint_url: String,
        output_dir: String,
        generation: u64,
    ) -> bool {
        &&& self.step == DownloadStep::FetchMagnet
        &&& self.generation == generation
        &&& self.endpoint_url == endpoint_url
        &&& self.output_dir == output_dir
        &&& self.narrowed
        &&& self.attempts == 0
    }

    /// Adding the torrent is not tried too often, and first for the zip files alone.
    pub open spec fn wf(self) -> bool {
        &&& self.attempts <= MAX_ADD_ATTEMPTS
        &&& self.step == DownloadStep::AddTorrent || self.step == DownloadStep::DropStale
            ==> self.attempts < MAX_ADD_ATTEMPTS
        &&& self.step == DownloadStep::FetchMagnet || self.step == DownloadStep::OpenSession
            ==> self.narrowed && self.attempts == 0
    }

    /// Whether only the step differs.
    pub open spec fn moved(self, old: DownloadTask, step: DownloadStep) -> bool {
        &&& self.step == step
        &&& self.generation == old.generation
        &&& self.endpoint_url == old.endpoint_url
        &&& self.output_dir == old.output_dir
        &&& self.magnet == old.magnet
        &&& self.narrowed == old.narrowed
        &&& self.attempts == old.attempts
    }

    /// A task that has not begun.
    pub fn begin(endpoint_url: String, output_dir: String, generation: u64) -> (r: DownloadTask)
        ensures
            r.wf(),
            r.begins(endpoint_url, output_dir, generation),
            r.magnet@.len() == 0,
    {
        DownloadTask {
            step: DownloadStep::FetchMagnet,
            generation,
            endpoint_url,
            output_dir,
            magnet: String::new(),
            narrowed: true,
            attempts: 0,
        }
    }

    /// Ends the task with an error, which counts only where no other task has taken over.
    fn fail(&mut self, service: &mut TorrentService, message: &str)
        requires
            old(self).wf(),
            old(service).wf(),
        ensures
            final(self).wf(),
            final(self).moved(*old(self), DownloadStep::Finished),
            final(service).wf(),
            reported(*final(service), *old(service), old(self).generation, message@),
    {
        service.fail_unless_superseded(self.generation, message);
        self.step = DownloadStep::Finished;
    }

    /// The magnet link was fetched.
    pub fn magnet_fetched(&mut self, service: &mut TorrentService, outcome: MagnetOutcome)
        requires
            old(self).wf(),
            old(service).wf(),
            old(self).step == DownloadStep::FetchMagnet,
        ensures
            final(self).wf(),
            final(service).wf(),
            match outcome {
                MagnetOutcome::Fetched(magnet) => {
                    &&& final(self).step == DownloadStep::OpenSession
                    &&& final(self).magnet == magnet
                    &&& final(self).generation == old(self).generation
                    &&& final(self).endpoint_url == old(self).endpoint_url
                    &&& final(self).output_dir == old(self).output_dir
                    &&& *final(service) == *old(service)
                },
                MagnetOutcome::Refused(e) => {
                    &&& final(self).moved(*old(self), DownloadStep::Finished)
                    &&& reported(
                        *final(service),
                        *old(service),
                        old(self).generation,
                        "could not fetch the patch magnet link: "@ + e.text(),
                    )
                },
                MagnetOutcome::TaskFailed(e) => {
                    &&& final(self).moved(*old(self), DownloadStep::Finished)
                    &&& reported(
                        *final(service),
                        *old(service),
                        old(self).generation,
                        "magnet fetch task failed: "@ + e@,
                    )
                },
            },
    {
        match outcome {
            MagnetOutcome::Fetched(magnet) => {
                self.magnet = magnet;
                self.step = DownloadStep::OpenSession;
            },
            MagnetOutcome::Refused(e) => {
                let mut message: String = "could not fetch the patch magnet link: ".to_owned();
                message.append(e.message().as_str());
                self.fail(service, message.as_str());
            },
            MagnetOutcome::TaskFailed(e) => {
                let mut message: String = "magnet fetch task failed: ".to_owned();
                message.append(e.as_str());
                self.fail(service, message.as_str());
            },
        }
    }

    /// The session is there: one that was there before, or one that was made now.
    pub fn session_opened(
        &mut self,
        service: &mut TorrentService,
        outcome: Result<SessionOrigin, String>,
    )
        requires
            old(self).wf(),
            old(service).wf(),
            old(self).step == DownloadStep::OpenSession,
        ensures
            final(self).wf(),
            final(service).wf(),
            match outcome {
                Ok(SessionOrigin::Existing) => {
                    &&& final(self).moved(*old(self), DownloadStep::AddTorrent)
                    &&& *final(service) == *old(service)
                },
                Ok(SessionOrigin::Created) => {
                    &&& final(self).moved(*old(self), DownloadStep::AddTorrent)
                    &&& final(service).opened(*old(service), old(self).output_dir@)
                },
                Err(e) => {
                    &&& final(self).moved(*old(self), DownloadStep::Finished)
                    &&& reported(
                        *final(service),
                        *old(service),
                        old(self).generation,
                        "could not start the torrent session: "@ + e@,
                    )
                },
            },
    {
        match outcome {
            Ok(SessionOrigin::Existing) => {
                self.step = DownloadStep::AddTorrent;
            },
            Ok(SessionOrigin::Created) => {
                service.session_created(self.output_dir.as_str());
                self.step = DownloadStep::AddTorrent;
            },
            Err(e) => {
                let mut message: String = "could not start the torrent session: ".to_owned();
                message.append(e.as_str());
                self.fail(service, message.as_str());
            },
        }
    }

    /// Tries once more to add the torrent, unless that was tried too often.
    fn try_again(&mut self, service: &mut TorrentService, narrowed: bool)
        requires
            old(self).wf(),
            old(service).wf(),
            old(self).attempts < MAX_ADD_ATTEMPTS,
        ensures
            final(self).wf(),
            final(service).wf(),
            retried(*final(self), *old(self), *final(service), *old(service), narrowed),
    {
        self.narrowed = narrowed;
        self.attempts = self.attempts + 1;
        if self.attempts < MAX_ADD_ATTEMPTS {
            self.step = DownloadStep::AddTorrent;
        } else {
            service.fail_unless_superseded(
                self.generation,
                "could not add the patch torrent after several attempts",
            );
            self.step = DownloadStep::Finished;
        }
    }

    /// The session was asked to add the torrent. One that only carries loose patch files has no
    /// zip files, and is added in full.
    pub fn add_tried(&mut self, service: &mut TorrentService, outcome: AddOutcome)
        requires
            old(self).wf(),
            old(service).wf(),
            old(service).has_session,
            old(self).step == DownloadStep::AddTorrent,
        ensures
            final(self).wf(),
            final(service).wf(),
            match outcome {
                AddOutcome::Added => added(
                    *final(self),
                    *old(self),
                    *final(service),
                    *old(service),
                ),
                AddOutcome::AlreadyManaged => {
                    &&& final(self).moved(*old(self), DownloadStep::DropStale)
                    &&& *final(service) == *old(service)
                },
                AddOutcome::ListOnly => {
                    &&& final(self).moved(*old(self), DownloadStep::Finished)
                    &&& reported(
                        *final(service),
                        *old(service),
                        old(self).generation,
                        "torrent session returned an unexpected list-only response"@,
                    )
                },
                AddOutcome::Failed(e) => if old(self).narrowed {
                    retried(*final(self), *old(self), *final(service), *old(service), false)
                } else {
                    &&& final(self).moved(*old(self), DownloadStep::Finished)
                    &&& reported(
                        *final(service),
                        *old(service),
                        old(self).generation,
                        "could not add the patch torrent: "@ + e@,
                    )
                },
            },
    {
        match outcome {
            AddOutcome::Added => {
                service.torrent_attached();
                self.step = if service.is_superseded(self.generation) {
                    DownloadStep::PauseAdded
                } else {
                    DownloadStep::ClearMarker
                };
            },
            AddOutcome::AlreadyManaged => {
                self.step = DownloadStep::DropStale;
            },
            AddOutcome::ListOnly => {
                self.fail(service, "torrent session returned an unexpected list-only response");
            },
            AddOutcome::Failed(e) => {
                if self.narrowed {
                    self.try_again(service, false);
                } else {
                    let mut message: String = "could not add the patch torrent: ".to_owned();
                    message.append(e.as_str());
                    self.fail(service, message.as_str());
                }
            },
        }
    }

    /// The torrent that the session had was dropped.
    pub fn stale_dropped(&mut self, service: &mut TorrentService, outcome: Result<(), String>)
        requires
            old(self).wf(),
            old(service).wf(),
            old(self).step == DownloadStep::DropStale,
        ensures
            final(self).wf(),
            final(service).wf(),
            match outcome {
                Ok(_) => retried(
                    *final(self),
                    *old(self),
                    *final(service),
                    *old(service),
                    old(self).narrowed,
                ),
                Err(e) => {
                    &&& final(self).moved(*old(self), DownloadStep::Finished)
                    &&& reported(
                        *final(service),
                        *old(service),
                        old(self).generation,
                        "could not drop the stale managed torrent: "@ + e@,
                    )
                },
            },
    {
        match outcome {
            Ok(_) => {
                let narrowed: bool = self.narrowed;
                self.try_again(service, narrowed);
            },
            Err(e) => {
                let mut message: String = "could not drop the stale managed torrent: ".to_owned();
                message.append(e.as_str());
                self.fail(service, message.as_str());
            },
        }
    }

    /// The torrent that was added after a stop was paused, as far as that could be done.
    pub fn added_paused(&mut self)
        requires
            old(self).wf(),
            old(self).step == DownloadStep::PauseAdded,
        ensures
            final(self).wf(),
            final(self).moved(*old(self), DownloadStep::Finished),
    {
        self.step = DownloadStep::Finished;
    }

    /// The marker was removed, as far as that could be done: the download is under way.
    pub fn marker_cleared(&mut self, service: &mut TorrentService)
        requires
            old(self).wf(),
            old(service).wf(),
            old(self).step == DownloadStep::ClearMarker,
        ensures
            final(self).wf(),
            final(self).moved(*old(self), DownloadStep::Watch),
            final(service).wf(),
            final(service).moved(*old(service), TorrentState::Downloading),
    {
        service.set_state(TorrentState::Downloading);
        self.step = DownloadStep::Watch;
    }

    /// The monitor that goes on with the torrent.
    pub fn monitor(&self) -> (r: Monitor)
        requires
            self.step == DownloadStep::Watch,
        ensures
            r == (Monitor {
                step: MonitorStep::BeforeSleep,
                generation: self.generation,
                past_completion: false,
            }),
    {
        Monitor::begin(self.generation, false)
    }
}

/// Where a session comes from.
#[derive(Debug, Clone, Copy, PartialEq, Eq, Structural)]
pub enum SessionOrigin {
    Existing,
    Created,
}

/// Whether the failure of a task counts: only where no other task has taken over.
pub open spec fn reported(
    service: TorrentService,
    old: TorrentService,
    generation: u64,
    message: Seq<char>,
) -> bool {
    if old.generation != generation {
        service == old
    } else {
        service.failed(old, message)
    }
}

/// Whether the session has got the torrent. It is downloaded, or paused where another task has
/// taken over.
pub open spec fn added(
    task: DownloadTask,
    old_task: DownloadTask,
    service: TorrentService,
    old: TorrentService,
) -> bool {
    &&& task.moved(
        old_task,
        if old.generation != old_task.generation {
            DownloadStep::PauseAdded
        } else {
            DownloadStep::ClearMarker
        },
    )
    &&& service.attached(old)
}

/// Whether the torrent is added once more, or the task has given up after too many attempts.
pub open spec fn retried(
    task: DownloadTask,
    old_task: DownloadTask,
    service: TorrentService,
    old: TorrentService,
    narrowed: bool,
) -> bool {
    &&& task.generation == old_task.generation
    &&& task.endpoint_url == old_task.endpoint_url
    &&& task.output_dir == old_task.output_dir
    &&& task.magnet == old_task.magnet
    &&& task.narrowed == narrowed
    &&& task.attempts == old_task.attempts + 1
    &&& if task.attempts < MAX_ADD_ATTEMPTS {
        &&& task.step == DownloadStep::AddTorrent
        &&& service == old
    } else {
        &&& task.step == DownloadStep::Finished
        &&& reported(
            service,
            old,
            old_task.generation,
            "could not add the patch torrent after several attempts"@,
        )
    }
}

/// The places of the zip files in a torrent's file list, in their order.
pub open spec fn zip_places(files: Seq<Seq<char>>) -> Seq<usize>
    decreases files.len(),
{
    if files.len() == 0 {
        Seq::empty()
    } else if is_zip(files.last()) {
        zip_places(files.drop_last()).push((files.len() - 1) as usize)
    } else {
        zip_places(files.drop_last())
    }
}

/// See [`zip_places`].
pub fn zip_selection(files: &Vec<String>) -> (r: Vec<usize>)
    ensures
        r@ == zip_places(texts(files@)),
{
    let ghost all: Seq<Seq<char>> = texts(files@);
    let mut out: Vec<usize> = Vec::new();
    let mut i: usize = 0;
    while i < files.len()
        invariant
            i <= files.len(),
            all == texts(files@),
            out@ == zip_places(all.take(i as int)),
        decreases files.len() - i,
    {
        assert(all.take(i + 1).drop_last() =~= all.take(i as int));
        assert(all.take(i + 1).last() == files@[i as int]@);
        if has_zip_extension(files[i].as_str()) {
            out.push(i);
        }
        i = i + 1;
    }
    assert(all.take(all.len() as int) =~= all);
    out
}

/// Whether a torrent is to be narrowed to its zip files: it has some, and other files too.
pub open spec fn mixes_zips(files: Seq<Seq<char>>) -> bool {
    0 < zip_places(files).len() < files.len()
}

/// Whether one of the names does not begin with a dot.
pub open spec fn any_visible(names: Seq<Seq<char>>) -> bool {
    exists|i: int| 0 <= i < names.len() && !"."@.is_prefix_of(#[trigger] names[i])
}

/// Whether a directory with the given entries holds the state of an earlier session; `None` where
/// it could not be read.
pub fn has_persisted_state(names: Option<&Vec<String>>) -> (r: bool)
    ensures
        r == match names {
            Some(names) => any_visible(texts(names@)),
            None => false,
        },
{
    match names {
        Some(list) => {
            let mut i: usize = 0;
            while i < list.len()
                invariant
                    names == Some(list),
                    i <= list.len(),
                    forall|j: int| 0 <= j < i ==> "."@.is_prefix_of(#[trigger] texts(list@)[j]),
                decreases list.len() - i,
            {
                if !starts_with(list[i].as_str(), ".") {
                    assert(!"."@.is_prefix_of(texts(list@)[i as int]));
                    return true;
                }
                i = i + 1;
            }
            false
        },
        None => false,
    }
}

/// What a resume does next.
#[derive(Debug, Clone, Copy, PartialEq, Eq, Structural)]
pub enum ResumeStep {
    /// List the persistence directory.
    CheckState,
    /// Take the session that there is, or make one.
    OpenSession,
    /// Look for a torrent in the session.
    FindTorrent,
    /// Look whether the first check of the files is over.
    AwaitCheck,
    /// Tell whether the torrent is finished, whether it is paused, and whether the marker exists.
    Judge,
    /// Pause the torrent.
    HoldPaused,
    /// Wake the torrent.
    Wake,
    /// Look again whether a check of the files is over.
    AwaitRecheck,
    /// List the torrent's files.
    ListFiles,
    /// Narrow the torrent to the selection.
    Narrow,
    /// Look at the torrent from now on.
    Watch,
    Finished,
}

/// The task that takes up a torrent of an earlier run.
#[derive(Debug)]
pub struct ResumeTask {
    pub step: ResumeStep,
    pub generation: u64,
    pub output_dir: String,
    /// The places of the files to which the torrent is narrowed.
    pub selection: Vec<usize>,
}

impl ResumeTask {
    /// Whether the task has not begun.
    pub open spec fn begins(self, output_dir: String, generation: u64) -> bool {
        &&& self.step == ResumeStep::CheckState
        &&& self.generation == generation
        &&& self.output_dir == output_dir
    }

    /// Whether only the step differs.
    pub open spec fn moved(self, old: ResumeTask, step: ResumeStep) -> bool {
        &&& self.step == step
        &&& self.generation == old.generation
        &&& self.output_dir == old.output_dir
        &&& self.selection == old.selection
    }

    /// The given step, or the end where another task has taken over.
    pub open spec fn unless_superseded(self, service: TorrentService, step: ResumeStep) -> ResumeStep {
        if service.generation != self.generation {
            ResumeStep::Finished
        } else {
            step
        }
    }

    /// A task that has not begun.
    pub fn begin(output_dir: String, generation: u64) -> (r: ResumeTask)
        ensures
            r.begins(output_dir, generation),
            r.selection@.len() == 0,
    {
        ResumeTask {
            step: ResumeStep::CheckState,
            generation,
            output_dir,
            selection: Vec::new(),
        }
    }

    /// The persistence directory was listed. Without the state of an earlier session no session
    /// is made.
    pub fn state_checked(&mut self, names: Option<&Vec<String>>)
        requires
            old(self).step == ResumeStep::CheckState,
        ensures
            final(self).moved(
                *old(self),
                if names is Some && any_visible(texts(names->0@)) {
                    ResumeStep::OpenSession
                } else {
                    ResumeStep::Finished
                },
            ),
    {
        self.step = if has_persisted_state(names) {
            ResumeStep::OpenSession
        } else {
            ResumeStep::Finished
        };
    }

    /// The session is there.
    pub fn session_opened(
        &mut self,
        service: &mut TorrentService,
        outcome: Result<SessionOrigin, String>,
    )
        requires
            old(service).wf(),
            old(self).step == ResumeStep::OpenSession,
        ensures
            final(service).wf(),
            match outcome {
                Ok(SessionOrigin::Existing) => {
                    &&& final(self).moved(*old(self), ResumeStep::FindTorrent)
                    &&& *final(service) == *old(service)
                },
                Ok(SessionOrigin::Created) => {
                    &&& final(self).moved(*old(self), ResumeStep::FindTorrent)
                    &&& final(service).opened(*old(service), old(self).output_dir@)
                },
                Err(e) => {
                    &&& final(self).moved(*old(self), ResumeStep::Finished)
                    &&& final(service).failed(
                        *old(service),
                        "could not restore the torrent session: "@ + e@,
                    )
                },
            },
    {
        match outcome {
            Ok(SessionOrigin::Existing) => {
                self.step = ResumeStep::FindTorrent;
            },
            Ok(SessionOrigin::Created) => {
                service.session_created(self.output_dir.as_str());
                self.step = ResumeStep::FindTorrent;
            },
            Err(e) => {
                let mut message: String = "could not restore the torrent session: ".to_owned();
                message.append(e.as_str());
                service.fail(message.as_str());
                self.step = ResumeStep::Finished;
            },
        }
    }

    /// The session was searched for a torrent.
    pub fn torrent_found(&mut self, service: &mut TorrentService, found: bool)
        requires
            old(service).wf(),
            old(service).has_session,
            old(self).step == ResumeStep::FindTorrent,
        ensures
            final(service).wf(),
            if found {
                &&& final(self).moved(*old(self), ResumeStep::AwaitCheck)
                &&& final(service).has_handle
                &&& final(service).output_dir == old(service).output_dir
                &&& final(service).has_session
                &&& final(service).persistence_dir == old(service).persistence_dir
                &&& final(service).current() == TorrentState::Downloading
                &&& final(service).error == old(service).error
                &&& final(service).same_counters(*old(service))
                &&& final(service).seeding_enabled == old(service).seeding_enabled
                &&& final(service).generation == old(service).generation
            } else {
                &&& final(self).moved(*old(self), ResumeStep::Finished)
                &&& *final(service) == *old(service)
            },
    {
        if found {
            service.torrent_attached();
            service.set_state(TorrentState::Downloading);
            self.step = ResumeStep::AwaitCheck;
        } else {
            self.step = ResumeStep::Finished;
        }
    }

    fn go(&mut self, service: &TorrentService, step: ResumeStep)
        ensures
            final(self).moved(*old(self), old(self).unless_superseded(*service, step)),
    {
        self.step = if service.is_superseded(self.generation) {
            ResumeStep::Finished
        } else {
            step
        };
    }

    /// The torrent was looked at while its files may still be checked. Waking it before that is
    /// over would start a second check beside the first.
    pub fn check_polled(&mut self, service: &TorrentService, state: EngineState)
        requires
            old(self).step == ResumeStep::AwaitCheck,
        ensures
            final(self).moved(
                *old(self),
                old(self).unless_superseded(
                    *service,
                    if state == EngineState::Initializing {
                        ResumeStep::AwaitCheck
                    } else {
                        ResumeStep::Judge
                    },
                ),
            ),
    {
        self.go(
            service,
            if state == EngineState::Initializing {
                ResumeStep::AwaitCheck
            } else {
                ResumeStep::Judge
            },
        );
    }

    /// Decides what becomes of the torrent. Where the marker says that the payload is complete
    /// and the session does not, the torrent is held, so that a good payload is not downloaded
    /// again.
    pub fn judged(&mut self, finished: bool, marker_exists: bool, paused: bool)
        requires
            old(self).step == ResumeStep::Judge,
        ensures
            final(self).moved(
                *old(self),
                if !finished && marker_exists {
                    ResumeStep::HoldPaused
                } else if paused {
                    ResumeStep::Wake
                } else {
                    ResumeStep::AwaitRecheck
                },
            ),
    {
        self.step = if !finished && marker_exists {
            ResumeStep::HoldPaused
        } else if paused {
            ResumeStep::Wake
        } else {
            ResumeStep::AwaitRecheck
        };
    }

    /// The torrent was paused, or was so already.
    pub fn held(&mut self, service: &mut TorrentService)
        requires
            old(service).wf(),
            old(self).step == ResumeStep::HoldPaused,
        ensures
            final(service).wf(),
            final(self).moved(*old(self), ResumeStep::Finished),
            final(service).moved(*old(service), TorrentState::Complete),
    {
        service.set_state(TorrentState::Complete);
        self.step = ResumeStep::Finished;
    }

    /// The torrent was woken, as far as that could be done.
    pub fn woken(&mut self)
        requires
            old(self).step == ResumeStep::Wake,
        ensures
            final(self).moved(*old(self), ResumeStep::AwaitRecheck),
    {
        self.step = ResumeStep::AwaitRecheck;
    }

    /// The torrent was looked at while its files may be checked again.
    pub fn recheck_polled(&mut self, service: &TorrentService, state: EngineState)
        requires
            old(self).step == ResumeStep::AwaitRecheck,
        ensures
            final(self).moved(
                *old(self),
                old(self).unless_superseded(
                    *service,
                    if state == EngineState::Initializing {
                        ResumeStep::AwaitRecheck
                    } else {
                        ResumeStep::ListFiles
                    },
                ),
            ),
    {
        self.go(
            service,
            if state == EngineState::Initializing {
                ResumeStep::AwaitRecheck
            } else {
                ResumeStep::ListFiles
            },
        );
    }

    /// The torrent's files were listed. A torrent that mixes zip files with others is narrowed to
    /// the zip files.
    pub fn files_listed(&mut self, service: &TorrentService, files: Option<&Vec<String>>)
        requires
            old(self).step == ResumeStep::ListFiles,
        ensures
            final(self).generation == old(self).generation,
            final(self).output_dir == old(self).output_dir,
            if files is Some && mixes_zips(texts(files->0@)) {
                &&& final(self).step == ResumeStep::Narrow
                &&& final(self).selection@ == zip_places(texts(files->0@))
            } else {
                &&& final(self).step == old(self).unless_superseded(*service, ResumeStep::Watch)
                &&& final(self).selection == old(self).selection
            },
    {
        if let Some(files) = files {
            let zips: Vec<usize> = zip_selection(files);
            if zips.len() > 0 && zips.len() != files.len() {
                proof {
                    lemma_zip_places_fit(texts(files@));
                }
                self.selection = zips;
                self.step = ResumeStep::Narrow;
                return ;
            }
        }
        self.go(service, ResumeStep::Watch);
    }

    /// The torrent was narrowed, as far as that could be done.
    pub fn narrowed(&mut self, service: &TorrentService)
        requires
            old(self).step == ResumeStep::Narrow,
        ensures
            final(self).moved(
                *old(self),
                old(self).unless_superseded(*service, ResumeStep::Watch),
            ),
    {
        self.go(service, ResumeStep::Watch);
    }

    /// The monitor that goes on with the torrent.
    pub fn monitor(&self) -> (r: Monitor)
        requires
            self.step == ResumeStep::Watch,
        ensures
            r == (Monitor {
                step: MonitorStep::BeforeSleep,
                generation: self.generation,
                past_completion: false,
            }),
    {
        Monitor::begin(self.generation, false)
    }
}

proof fn lemma_zip_places_fit(files: Seq<Seq<char>>)
    ensures
        zip_places(files).len() <= files.len(),
    decreases files.len(),
{
    if files.len() > 0 {
        lemma_zip_places_fit(files.drop_last());
    }
}

/// The places to which a torrent is narrowed are those of its zip files.
pub proof fn law_selection_is_the_zip_files(files: Seq<Seq<char>>, place: int)
    requires
        files.len() <= usize::MAX,
        0 <= place < files.len(),
    ensures
        zip_places(files).contains(place as usize) <==> is_zip(files[place]),
        forall|k: int|
            0 <= k < zip_places(files).len() ==> #[trigger] zip_places(files)[k] < files.len(),
    decreases files.len(),
{
    let front = files.drop_last();
    let places = zip_places(files);
    let before = zip_places(front);
    let last = (files.len() - 1) as usize;
    if front.len() > 0 {
        law_selection_is_the_zip_files(front, if place < front.len() { place } else { 0 });
    }
    assert(is_zip(files.last()) ==> places == before.push(last));
    assert(!is_zip(files.last()) ==> places == before);
    if place < front.len() {
        if is_zip(files[place]) {
            let k = choose|k: int| 0 <= k < before.len() && before[k] == place as usize;
            assert(places[k] == place as usize);
        }
        if places.contains(place as usize) {
            let k = choose|k: int| 0 <= k < places.len() && places[k] == place as usize;
            assert(k < before.len());
            assert(before[k] == place as usize);
        }
    } else {
        if is_zip(files.last()) {
            assert(places[places.len() - 1] == place as usize);
        }
        if places.contains(place as usize) && !is_zip(files.last()) {
            let k = choose|k: int| 0 <= k < places.len() && places[k] == place as usize;
            assert(before[k] < front.len());
        }
    }
    assert forall|k: int| 0 <= k < places.len() implies #[trigger] places[k] < files.len() by {
        if k < before.len() {
            assert(before[k] < front.len());
        }
    }
}

/// A download that fails after it was stopped does not turn the stop into an error.
pub proof fn law_a_stop_is_not_undone_by_a_failure(
    before: TorrentService,
    stopped: TorrentService,
    after: TorrentService,
    message: Seq<char>,
)
    requires
        stopped.stopped(before),
        reported(after, stopped, before.generation, message),
    ensures
        after.current() == TorrentState::Stopped,
        after.error == before.error,
{
}

/// A download that is stopped while its torrent is added does not run on: whichever comes second,
/// the stop or the torrent, pauses it.
pub proof fn law_a_stopped_download_is_paused(
    task: DownloadTask,
    next: DownloadTask,
    first: TorrentService,
    second: TorrentService,
    third: TorrentService,
)
    requires
        first.has_session,
        first.generation == task.generation,
    ensures
        second.stopped(first) && added(next, task, third, second) ==> next.step
            == DownloadStep::PauseAdded,
        added(next, task, second, first) && third.stopped(second) ==> second.has_torrent(),
{
}

/// The places of the zip files are in the order of the files.
pub proof fn law_selection_is_in_order(files: Seq<Seq<char>>, i: int, j: int)
    requires
        files.len() <= usize::MAX,
        0 <= i < j < zip_places(files).len(),
    ensures
        zip_places(files)[i] < zip_places(files)[j],
    decreases files.len(),
{
    let front = files.drop_last();
    let before = zip_places(front);
    lemma_zip_places_fit(front);
    if j < before.len() {
        law_selection_is_in_order(front, i, j);
    } else {
        law_selection_is_the_zip_files(files, 0);
        if front.len() > 0 {
            law_selection_is_the_zip_files(front, 0);
            assert(before[i] < front.len());
        }
    }
}

/// A torrent is narrowed exactly where some of its files are zip files and some are not.
pub proof fn law_when_a_torrent_is_narrowed(files: Seq<Seq<char>>)
    ensures
        mixes_zips(files) <==> (exists|i: int|
            0 <= i < files.len() && is_zip(#[trigger] files[i])) && (exists|i: int|
            0 <= i < files.len() && !is_zip(#[trigger] files[i])),
{
    lemma_zip_count(files);
}

proof fn lemma_zip_count(files: Seq<Seq<char>>)
    ensures
        zip_places(files).len() <= files.len(),
        zip_places(files).len() == 0 <==> forall|i: int|
            0 <= i < files.len() ==> !is_zip(#[trigger] files[i]),
        zip_places(files).len() == files.len() <==> forall|i: int|
            0 <= i < files.len() ==> is_zip(#[trigger] files[i]),
    decreases files.len(),
{
    if files.len() > 0 {
        let front = files.drop_last();
        let last = files.len() - 1;
        lemma_zip_count(front);
        assert(files[last] == files.last());
        assert forall|i: int| 0 <= i < last implies files[i] == #[trigger] front[i] by {}
        if zip_places(files).len() == 0 {
            assert forall|i: int| 0 <= i < files.len() implies !is_zip(#[trigger] files[i]) by {
                if i < last {
                    assert(!is_zip(front[i]));
                }
            }
        }
        if forall|i: int| 0 <= i < files.len() ==> !is_zip(#[trigger] files[i]) {
            assert forall|i: int| 0 <= i < front.len() implies !is_zip(#[trigger] front[i]) by {
                assert(!is_zip(files[i]));
            }
        }
        if zip_places(files).len() == files.len() {
            assert forall|i: int| 0 <= i < files.len() implies is_zip(#[trigger] files[i]) by {
                if i < last {
                    assert(is_zip(front[i]));
                }
            }
        }
        if forall|i: int| 0 <= i < files.len() ==> is_zip(#[trigger] files[i]) {
            assert forall|i: int| 0 <= i < front.len() implies is_zip(#[trigger] front[i]) by {
                assert(is_zip(files[i]));
            }
        }
    }
}

/// One name that does not begin with a dot is enough, whatever others there are.
pub proof fn law_one_visible_name_is_enough(a: Seq<Seq<char>>, b: Seq<Seq<char>>, name: Seq<char>)
    ensures
        any_visible(a + b) <==> any_visible(a) || any_visible(b),
        any_visible(seq![name]) <==> name.len() == 0 || name[0] != '.',
        !any_visible(Seq::empty()),
{
    reveal_strlit(".");
    assert("."@.len() == 1);
    let all = a + b;
    if any_visible(a) {
        let i = choose|i: int| 0 <= i < a.len() && !"."@.is_prefix_of(#[trigger] a[i]);
        assert(all[i] == a[i]);
    }
    if any_visible(b) {
        let i = choose|i: int| 0 <= i < b.len() && !"."@.is_prefix_of(#[trigger] b[i]);
        assert(all[a.len() + i] == b[i]);
    }
    if any_visible(all) {
        let i = choose|i: int| 0 <= i < all.len() && !"."@.is_prefix_of(#[trigger] all[i]);
        if i < a.len() {
            assert(a[i] == all[i]);
        } else {
            assert(b[i - a.len()] == all[i]);
        }
    }
    assert(seq![name][0] == name);
    if name.len() > 0 && name[0] == '.' {
        assert("."@ =~= name.subrange(0, 1));
    }
    if "."@.is_prefix_of(name) {
        assert(name.subrange(0, 1)[0] == "."@[0]);
    }
}

/// The failure of a task that was superseded is not heard; that of the current one is, and changes
/// nothing but state and error.
pub proof fn law_only_the_current_task_fails(
    service: TorrentService,
    old: TorrentService,
    generation: u64,
    message: Seq<char>,
)
    requires
        reported(service, old, generation, message),
    ensures
        old.generation != generation ==> service == old,
        old.generation == generation ==> service.current() == TorrentState::Error && text_of(
            service.error,
        ) == Some(message) && service.output_dir == old.output_dir && service.has_handle
            == old.has_handle && service.has_session == old.has_session && service.generation
            == old.generation && service.progress_bytes == old.progress_bytes
            && service.total_bytes == old.total_bytes,
{
}

/// A task begins with what it was told: a download first for the zip files alone and untried.
pub proof fn law_how_tasks_begin(
    download: DownloadTask,
    resume: ResumeTask,
    endpoint_url: String,
    output_dir: String,
    generation: u64,
)
    requires
        download.begins(endpoint_url, output_dir, generation),
        resume.begins(output_dir, generation),
    ensures
        download.step == DownloadStep::FetchMagnet,
        download.generation == generation && resume.generation == generation,
        download.endpoint_url == endpoint_url,
        download.output_dir == output_dir && resume.output_dir == output_dir,
        download.narrowed && download.attempts == 0,
        resume.step == ResumeStep::CheckState,
{
}

/// A step of a task changes the step alone.
pub proof fn law_a_step_changes_the_step_alone(
    monitor: Monitor,
    old_monitor: Monitor,
    looks: MonitorStep,
    download: DownloadTask,
    old_download: DownloadTask,
    loads: DownloadStep,
    resume: ResumeTask,
    old_resume: ResumeTask,
    takes_up: ResumeStep,
)
    requires
        monitor.moved(old_monitor, looks),
        download.moved(old_download, loads),
        resume.moved(old_resume, takes_up),
    ensures
        monitor.step == looks && monitor.generation == old_monitor.generation
            && monitor.past_completion == old_monitor.past_completion,
        download.step == loads && download.generation == old_download.generation
            && download.endpoint_url == old_download.endpoint_url && download.output_dir
            == old_download.output_dir && download.magnet == old_download.magnet
            && download.narrowed == old_download.narrowed && download.attempts
            == old_download.attempts,
        resume.step == takes_up && resume.generation == old_resume.generation && resume.output_dir
            == old_resume.output_dir && resume.selection == old_resume.selection,
{
}

/// A resume that was superseded ends, whatever step would come; another takes that step.
pub proof fn law_a_superseded_resume_ends(
    task: ResumeTask,
    service: TorrentService,
    step: ResumeStep,
)
    ensures
        service.generation != task.generation ==> task.unless_superseded(service, step)
            == ResumeStep::Finished,
        service.generation == task.generation ==> task.unless_superseded(service, step) == step,
{
}

/// A torrent is tried to be added four times at most, with the same link and to the same place;
/// then the user is told.
pub proof fn law_a_download_is_tried_four_times(
    task: DownloadTask,
    old_task: DownloadTask,
    service: TorrentService,
    old: TorrentService,
    narrowed: bool,
)
    requires
        old_task.wf(),
        retried(task, old_task, service, old, narrowed),
    ensures
        old_task.attempts <= 4,
        task.attempts == old_task.attempts + 1,
        task.narrowed == narrowed && task.magnet == old_task.magnet && task.output_dir
            == old_task.output_dir && task.generation == old_task.generation && task.endpoint_url
            == old_task.endpoint_url,
        old_task.attempts + 1 < 4 ==> task.step == DownloadStep::AddTorrent && service == old,
        old_task.attempts + 1 >= 4 ==> task.step == DownloadStep::Finished,
        old_task.attempts + 1 >= 4 && old.generation == old_task.generation ==> service.current()
            == TorrentState::Error && text_of(service.error) == Some(
            "could not add the patch torrent after several attempts"@,
        ),
{
}

/// A torrent that was added is the session's, and is downloaded unless its task was superseded.
pub proof fn law_what_becomes_of_an_added_torrent(
    task: DownloadTask,
    old_task: DownloadTask,
    service: TorrentService,
    old: TorrentService,
)
    requires
        added(task, old_task, service, old),
    ensures
        service.has_handle,
        service.state == old.state && service.generation == old.generation,
        old.generation == old_task.generation ==> task.step == DownloadStep::ClearMarker,
        old.generation != old_task.generation ==> task.step == DownloadStep::PauseAdded,
{
}

} // verus!
