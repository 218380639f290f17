//! The decisions of one memoized run.
//!
//! A run is a conversation between this state machine and its caller: the
//! machine names the next piece of outside work (an [`Action`]), the caller
//! performs it and reports what happened (an [`Event`]). The machine decides
//! whether to bypass the cache, where the cache lives, whether an entry is a
//! hit, expired or missing, what to record after a miss, and how a race to
//! commit an entry ends.

use vstd::prelude::*;

use crate::cache::{
    cache_dir_from, cache_dir_of, entry_files, get_cache_paths, get_cache_paths_in_dir, join_path,
    path_join, temp_dir_name_of, RenameOutcome, TempCacheDir,
};
use crate::digest::{cache_key, compute_digest};
use crate::env::EnvVars;
use crate::error::MemoError;
use crate::executor::ExecutionResult;
use crate::memo::{expired_at, expiry_of, Memo};
use crate::time::{
    exceeds_time_delta, format_rfc3339, humantime_span, is_span_text_in_reach, parse_span,
    rfc3339_text, span_nanos, span_text_in_reach, total_nanos, Span, Timestamp,
};

verus! {

/// Where a run stands.
#[derive(Clone, Copy, Debug, PartialEq, Eq, Structural)]
pub enum Stage {
    /// Nothing has been done yet.
    Start,
    /// The command runs without the cache.
    AwaitDirect,
    /// The cache directory is being located.
    AwaitLocation,
    /// The cache is being purged.
    AwaitPurge,
    /// The cache directory is being created and cleaned of orphans.
    AwaitPrepared,
    /// The selected environment variables are being read.
    AwaitEnv,
    /// The cache entry for the digest is being looked at.
    AwaitEntry,
    /// A hit is being replayed.
    AwaitReplay,
    /// An expired entry is being removed.
    AwaitRemoval,
    /// The clock and the process id are being read for a new recording.
    AwaitClock,
    /// The command runs, its output going to the temporary directory.
    AwaitExecution,
    /// The metadata is being written to the temporary directory.
    AwaitWrite,
    /// The temporary directory is being renamed into place.
    AwaitCommit,
    /// The run is over.
    Finished,
}

/// What the caller found at the cache entry for the digest.
pub enum EntryState {
    /// Not all three files of the entry exist.
    Missing,
    /// The files exist but the metadata could not be read.
    Unreadable,
    /// The entry's metadata, and the time at which it was read.
    Found { memo: Memo, now: Timestamp },
}

/// What the caller reports after performing an action.
pub enum Event {
    /// The run begins.
    Start,
    /// The command run without the cache exited with this code.
    Exited(i32),
    /// The value of `$XDG_CACHE_HOME` and the home directory, where known.
    Location { xdg: Option<String>, home: Option<String> },
    /// The action was performed.
    Done,
    /// The values of the selected environment variables, in the order asked.
    EnvValues(Vec<Option<String>>),
    /// What was found at the cache entry.
    Entry(EntryState),
    /// The current time and this process's id.
    Clock { now: Timestamp, pid: u32, nanos: i64 },
    /// The command ran while its output was recorded.
    Executed(ExecutionResult),
    /// How the rename of the temporary directory into place went.
    Renamed(RenameOutcome),
}

/// The next piece of outside work.
pub enum Action {
    /// Run the command without the cache.
    RunDirect { command: Vec<String> },
    /// Read `$XDG_CACHE_HOME` and the home directory.
    LocateCache,
    /// Remove the whole cache directory.
    Purge { cache_dir: String },
    /// Create the cache directory and remove orphaned temporary directories.
    PrepareCache { cache_dir: String },
    /// Read these environment variables.
    ReadEnv { names: Vec<String> },
    /// Check that the entry's three files exist, and read its metadata.
    InspectEntry { meta_path: String, stdout_path: String, stderr_path: String },
    /// Copy the recorded stdout and stderr to the console.
    Replay { stdout_path: String, stderr_path: String },
    /// Remove the directory of an expired entry.
    RemoveEntry { dir: String },
    /// Read the clock and the process id.
    ReadClock,
    /// Create the temporary directory and run the command, its output going
    /// both to these files and to the console.
    Execute { temp_dir: String, stdout_path: String, stderr_path: String, command: Vec<String> },
    /// Write the metadata to this file.
    WriteMetadata { path: String, memo: Memo },
    /// Rename the temporary directory into place.
    Commit { from: String, to: String },
    /// Exit with this code.
    Finish(i32),
    /// Fail with this error.
    Fail(MemoError),
    /// Fail with the error of the action just performed.
    ReportFailure,
    /// Stop with this message.
    Panic(String),
}

/// An error as the model sees it.
pub enum ErrorView {
    Io,
    Digest(Seq<char>),
    Json,
    HomeNotFound,
    InvalidCommand(Seq<char>),
    InvalidTtl(Seq<char>),
}

/// Metadata as the model sees it.
pub struct MemoView {
    pub cmd: Seq<Seq<char>>,
    pub env: Map<Seq<char>, Option<Seq<char>>>,
    pub exit_code: i32,
    pub timestamp: Seq<char>,
    pub expires_at: Option<Seq<char>>,
    pub digest: Seq<char>,
}

/// A found entry as the model sees it: its exit code and expiry text.
pub enum EntryView {
    Missing,
    Unreadable,
    Found { exit_code: i32, expires_at: Option<Seq<char>>, now: Timestamp },
}

/// An event as the model sees it.
pub enum EventView {
    Start,
    Exited(i32),
    Location(Option<Seq<char>>, Option<Seq<char>>),
    Done,
    EnvValues(Seq<Option<Seq<char>>>),
    Entry(EntryView),
    Clock(Timestamp, u32, i64),
    Executed(i32),
    Renamed(RenameOutcome),
}

/// An action as the model sees it.
pub enum ActionView {
    RunDirect(Seq<Seq<char>>),
    LocateCache,
    Purge(Seq<char>),
    PrepareCache(Seq<char>),
    ReadEnv(Seq<Seq<char>>),
    InspectEntry(Seq<char>, Seq<char>, Seq<char>),
    Replay(Seq<char>, Seq<char>),
    RemoveEntry(Seq<char>),
    ReadClock,
    Execute(Seq<char>, Seq<char>, Seq<char>, Seq<Seq<char>>),
    WriteMetadata(Seq<char>, MemoView),
    Commit(Seq<char>, Seq<char>),
    Finish(i32),
    Fail(ErrorView),
    ReportFailure,
    Panic(Seq<char>),
}

/// A run as the model sees it.
pub struct SessionView {
    pub stage: Stage,
    pub command: Seq<Seq<char>>,
    pub env_names: Seq<Seq<char>>,
    pub ttl_text: Option<Seq<char>>,
    pub purge: bool,
    pub disabled: bool,
    pub cache_dir: Seq<char>,
    pub ttl: Option<Span>,
    pub env: Map<Seq<char>, Option<Seq<char>>>,
    pub digest: Seq<char>,
    pub temp_dir: Option<Seq<char>>,
    pub committed: bool,
    pub timestamp: Seq<char>,
    pub expires_at: Option<Seq<char>>,
    pub exit_code: i32,
}

pub open spec fn error_view(e: MemoError) -> ErrorView {
    match e {
        MemoError::Io(_) => ErrorView::Io,
        MemoError::Digest(s) => ErrorView::Digest(s@),
        MemoError::Json(_) => ErrorView::Json,
        MemoError::HomeNotFound => ErrorView::HomeNotFound,
        MemoError::InvalidCommand(s) => ErrorView::InvalidCommand(s@),
        MemoError::InvalidTtl(s) => ErrorView::InvalidTtl(s@),
    }
}

pub open spec fn memo_view(m: Memo) -> MemoView {
    MemoView {
        cmd: m.cmd.deep_view(),
        env: m.env@,
        exit_code: m.exit_code,
        timestamp: m.timestamp@,
        expires_at: m.expires_text(),
        digest: m.digest@,
    }
}

pub open spec fn event_view(e: Event) -> EventView {
    match e {
        Event::Start => EventView::Start,
        Event::Exited(c) => EventView::Exited(c),
        Event::Location { xdg, home } => EventView::Location(xdg.deep_view(), home.deep_view()),
        Event::Done => EventView::Done,
        Event::EnvValues(v) => EventView::EnvValues(v.deep_view()),
        Event::Entry(EntryState::Missing) => EventView::Entry(EntryView::Missing),
        Event::Entry(EntryState::Unreadable) => EventView::Entry(EntryView::Unreadable),
        Event::Entry(EntryState::Found { memo, now }) => EventView::Entry(
            EntryView::Found { exit_code: memo.exit_code, expires_at: memo.expires_text(), now },
        ),
        Event::Clock { now, pid, nanos } => EventView::Clock(now, pid, nanos),
        Event::Executed(r) => EventView::Executed(r.exit_code),
        Event::Renamed(o) => EventView::Renamed(o),
    }
}

pub open spec fn action_view(a: Action) -> ActionView {
    match a {
        Action::RunDirect { command } => ActionView::RunDirect(command.deep_view()),
        Action::LocateCache => ActionView::LocateCache,
        Action::Purge { cache_dir } => ActionView::Purge(cache_dir@),
        Action::PrepareCache { cache_dir } => ActionView::PrepareCache(cache_dir@),
        Action::ReadEnv { names } => ActionView::ReadEnv(names.deep_view()),
        Action::InspectEntry { meta_path, stdout_path, stderr_path } => ActionView::InspectEntry(
            meta_path@,
            stdout_path@,
            stderr_path@,
        ),
        Action::Replay { stdout_path, stderr_path } => ActionView::Replay(stdout_path@, stderr_path@),
        Action::RemoveEntry { dir } => ActionView::RemoveEntry(dir@),
        Action::ReadClock => ActionView::ReadClock,
        Action::Execute { temp_dir, stdout_path, stderr_path, command } => ActionView::Execute(
            temp_dir@,
            stdout_path@,
            stderr_path@,
            command.deep_view(),
        ),
        Action::WriteMetadata { path, memo } => ActionView::WriteMetadata(path@, memo_view(memo)),
        Action::Commit { from, to } => ActionView::Commit(from@, to@),
        Action::Finish(c) => ActionView::Finish(c),
        Action::Fail(e) => ActionView::Fail(error_view(e)),
        Action::ReportFailure => ActionView::ReportFailure,
        Action::Panic(m) => ActionView::Panic(m@),
    }
}

/// The value captured for the `i`-th name: the `i`-th value, or "not set"
/// when the caller gave fewer values than names.
pub open spec fn value_at(values: Seq<Option<Seq<char>>>, i: int) -> Option<Seq<char>> {
    if 0 <= i < values.len() {
        values[i]
    } else {
        None
    }
}

/// The variables captured for the cache key, later names overriding earlier
/// ones of the same name.
pub open spec fn captured_env(names: Seq<Seq<char>>, values: Seq<Option<Seq<char>>>) -> Map<
    Seq<char>,
    Option<Seq<char>>,
>
    decreases names.len(),
{
    if names.len() == 0 {
        Map::empty()
    } else {
        captured_env(names.drop_last(), values).insert(
            names.last(),
            value_at(values, names.len() - 1),
        )
    }
}

/// The RFC 3339 text of the expiry of an entry recorded at `now` with this
/// TTL: `Some(None)` without a TTL, `None` when the expiry is out of range.
pub open spec fn expiry_text_of(now: Timestamp, ttl: Option<Span>) -> Option<Option<Seq<char>>> {
    match ttl {
        None => Some(None),
        Some(span) => {
            let total = total_nanos(now) + span_nanos(span);
            let secs = total / 1_000_000_000;
            let nanos = total % 1_000_000_000;
            if i64::MIN <= secs <= i64::MAX {
                match rfc3339_text(secs as i64, nanos as u32) {
                    Some(t) => Some(Some(t)),
                    None => None,
                }
            } else {
                None
            }
        },
    }
}

/// Whether the TTL is more than `chrono::TimeDelta` holds.
pub open spec fn ttl_exceeds_time_delta(ttl: Option<Span>) -> bool {
    match ttl {
        Some(span) => exceeds_time_delta(span),
        None => false,
    }
}

/// The message of the stop when a TTL is more than `chrono::TimeDelta` holds.
pub open spec fn ttl_too_large_message() -> Seq<char> {
    "Duration is too large for chrono"@
}

/// The message of the stop when the expiry lies beyond the representable times.
pub open spec fn expiry_overflow_message() -> Seq<char> {
    "`DateTime + TimeDelta` overflowed"@
}

/// The message of the stop when the clock reads a time that has no RFC 3339 form.
pub open spec fn clock_out_of_range_message() -> Seq<char> {
    "Current time is out of range"@
}

/// The message of the stop when an event does not answer the last action.
pub open spec fn unexpected_event_message() -> Seq<char> {
    "Unexpected event"@
}

/// The run moved to `stage`, nothing else changed.
pub open spec fn moved(v: SessionView, stage: Stage) -> SessionView {
    SessionView { stage, ..v }
}

/// One step of a run: `post` and `act` are what the machine may turn to
/// from `pre` on `ev`.
pub open spec fn step_spec(pre: SessionView, ev: EventView, post: SessionView, act: ActionView) -> bool {
    let finished = moved(pre, Stage::Finished);
    match (pre.stage, ev) {
        (Stage::Start, EventView::Start) => if pre.disabled {
            post == moved(pre, Stage::AwaitDirect) && act == ActionView::RunDirect(pre.command)
        } else {
            post == moved(pre, Stage::AwaitLocation) && act == ActionView::LocateCache
        },
        (Stage::AwaitDirect, EventView::Exited(code)) => post == finished && act == ActionView::Finish(
            code,
        ),
        (Stage::AwaitLocation, EventView::Location(xdg, home)) => match cache_dir_of(xdg, home) {
            None => post == finished && act == ActionView::Fail(ErrorView::HomeNotFound),
            Some(dir) => if pre.purge {
                post == SessionView { stage: Stage::AwaitPurge, cache_dir: dir, ..pre } && act
                    == ActionView::Purge(dir)
            } else {
                match pre.ttl_text {
                    None => post == SessionView {
                        stage: Stage::AwaitPrepared,
                        cache_dir: dir,
                        ttl: None,
                        ..pre
                    } && act == ActionView::PrepareCache(dir),
                    Some(text) => if !span_text_in_reach(text) {
                        post == finished && act == ActionView::Fail(ErrorView::InvalidTtl(text))
                    } else {
                        match humantime_span(text) {
                            None => post == finished && act == ActionView::Fail(
                                ErrorView::InvalidTtl(text),
                            ),
                            Some((secs, nanos)) => post == SessionView {
                                stage: Stage::AwaitPrepared,
                                cache_dir: dir,
                                ttl: Some(Span { secs, nanos }),
                                ..pre
                            } && act == ActionView::PrepareCache(dir),
                        }
                    },
                }
            },
        },
        (Stage::AwaitPurge, EventView::Done) => post == finished && act == ActionView::Finish(0),
        (Stage::AwaitPrepared, EventView::Done) => post == moved(pre, Stage::AwaitEnv) && act
            == ActionView::ReadEnv(pre.env_names),
        (Stage::AwaitEnv, EventView::EnvValues(values)) => {
            let env = captured_env(pre.env_names, values);
            let key = cache_key(pre.command, env);
            let files = entry_files(path_join(pre.cache_dir, key));
            &&& post == SessionView { stage: Stage::AwaitEntry, env, digest: key, ..pre }
            &&& act == ActionView::InspectEntry(files.0, files.1, files.2)
        },
        (Stage::AwaitEntry, EventView::Entry(entry)) => match entry {
            EntryView::Found { exit_code, expires_at, now } => if expired_at(
                expiry_of(expires_at),
                now,
            ) {
                post == moved(pre, Stage::AwaitRemoval) && act == ActionView::RemoveEntry(
                    path_join(pre.cache_dir, pre.digest),
                )
            } else {
                let files = entry_files(path_join(pre.cache_dir, pre.digest));
                post == SessionView { stage: Stage::AwaitReplay, exit_code, ..pre } && act
                    == ActionView::Replay(files.1, files.2)
            },
            _ => post == moved(pre, Stage::AwaitClock) && act == ActionView::ReadClock,
        },
        (Stage::AwaitReplay, EventView::Done) => post == finished && act == ActionView::Finish(
            pre.exit_code,
        ),
        (Stage::AwaitRemoval, EventView::Done) => post == moved(pre, Stage::AwaitClock) && act
            == ActionView::ReadClock,
        (Stage::AwaitClock, EventView::Clock(now, pid, nanos)) => match rfc3339_text(
            now.secs,
            now.nanos,
        ) {
            None => post == finished && act == ActionView::Panic(clock_out_of_range_message()),
            Some(timestamp) => if ttl_exceeds_time_delta(pre.ttl) {
                post == finished && act == ActionView::Panic(ttl_too_large_message())
            } else {
                match expiry_text_of(now, pre.ttl) {
                None => post == finished && act == ActionView::Panic(expiry_overflow_message()),
                Some(expires_at) => {
                    let temp = path_join(pre.cache_dir, temp_dir_name_of(pre.digest, pid, nanos));
                    let files = entry_files(temp);
                    post == SessionView {
                        stage: Stage::AwaitExecution,
                        temp_dir: Some(temp),
                        committed: false,
                        timestamp,
                        expires_at,
                        ..pre
                    } && act == ActionView::Execute(temp, files.1, files.2, pre.command)
                },
                }
            },
        },
        (Stage::AwaitExecution, EventView::Executed(code)) => match pre.temp_dir {
            Some(temp) => post == SessionView { stage: Stage::AwaitWrite, exit_code: code, ..pre }
                && act == ActionView::WriteMetadata(
                entry_files(temp).0,
                MemoView {
                    cmd: pre.command,
                    env: pre.env,
                    exit_code: code,
                    timestamp: pre.timestamp,
                    expires_at: pre.expires_at,
                    digest: pre.digest,
                },
            ),
            None => post == finished && act == ActionView::Panic(unexpected_event_message()),
        },
        (Stage::AwaitWrite, EventView::Done) => match pre.temp_dir {
            Some(temp) => post == moved(pre, Stage::AwaitCommit) && act == ActionView::Commit(
                temp,
                path_join(pre.cache_dir, pre.digest),
            ),
            None => post == finished && act == ActionView::Panic(unexpected_event_message()),
        },
        (Stage::AwaitCommit, EventView::Renamed(outcome)) => match outcome {
            RenameOutcome::Renamed => post == SessionView {
                stage: Stage::Finished,
                committed: pre.temp_dir is Some,
                ..pre
            } && act == ActionView::Finish(pre.exit_code),
            RenameOutcome::Failed => post == finished && act == ActionView::ReportFailure,
            _ => post == finished && act == ActionView::Finish(pre.exit_code),
        },
        _ => post == finished && act == ActionView::Panic(unexpected_event_message()),
    }
}

} // verus!

verus! {

/// A memoized run in progress.
pub struct Session {
    stage: Stage,
    command: Vec<String>,
    env_names: Vec<String>,
    ttl_text: Option<String>,
    purge: bool,
    disabled: bool,
    cache_dir: String,
    ttl: Option<Span>,
    env: EnvVars,
    digest: String,
    temp: Option<TempCacheDir>,
    timestamp: String,
    expires_at: Option<String>,
    exit_code: i32,
}

impl View for Session {
    type V = SessionView;

    closed spec fn view(&self) -> SessionView {
        SessionView {
            stage: self.stage,
            command: self.command.deep_view(),
            env_names: self.env_names.deep_view(),
            ttl_text: self.ttl_text.deep_view(),
            purge: self.purge,
            disabled: self.disabled,
            cache_dir: self.cache_dir@,
            ttl: self.ttl,
            env: self.env@,
            digest: self.digest@,
            temp_dir: match self.temp {
                Some(t) => Some(t.dir()),
                None => None,
            },
            committed: match self.temp {
                Some(t) => t.spec_committed(),
                None => false,
            },
            timestamp: self.timestamp@,
            expires_at: self.expires_at.deep_view(),
            exit_code: self.exit_code,
        }
    }
}

/// A copy of a list of strings.
fn clone_strings(v: &Vec<String>) -> (res: Vec<String>)
    ensures
        res.deep_view() == v.deep_view(),
{
    let mut res: Vec<String> = Vec::new();
    let mut i: usize = 0;
    while i < v.len()
        invariant
            i <= v@.len(),
            res.deep_view() =~= v.deep_view().take(i as int),
        decreases v@.len() - i,
    {
        let ghost prev = res.deep_view();
        let s = v[i].clone();
        res.push(s);
        assert(res.deep_view() =~= prev.push(v@[i as int]@));
        i = i + 1;
    }
    assert(v.deep_view().take(v@.len() as int) =~= v.deep_view());
    res
}

/// A copy of an optional string.
fn clone_opt(v: &Option<String>) -> (res: Option<String>)
    ensures
        res.deep_view() == v.deep_view(),
{
    match v {
        Some(s) => Some(s.clone()),
        None => None,
    }
}

impl Session {
    /// A run of `command` that has not started: `env_names` are the
    /// variables that take part in the cache key (none when absent), `ttl`
    /// the optional time to live, `purge` whether the cache is to be purged
    /// instead, `disabled` whether caching is bypassed.
    pub fn new(
        command: Vec<String>,
        env_names: Option<Vec<String>>,
        ttl: Option<String>,
        purge: bool,
        disabled: bool,
    ) -> (res: Session)
        ensures
            res@.stage == Stage::Start,
            res@.command == command.deep_view(),
            res@.env_names == match env_names {
                Some(n) => n.deep_view(),
                None => Seq::empty(),
            },
            res@.ttl_text == ttl.deep_view(),
            res@.purge == purge,
            res@.disabled == disabled,
            res@.temp_dir is None,
            !res@.committed,
    {
        let names = match env_names {
            Some(n) => n,
            None => {
                let empty: Vec<String> = Vec::new();
                assert(empty.deep_view() =~= Seq::<Seq<char>>::empty());
                empty
            },
        };
        let res = Session {
            stage: Stage::Start,
            command,
            env_names: names,
            ttl_text: ttl,
            purge,
            disabled,
            cache_dir: String::new(),
            ttl: None,
            env: EnvVars::new(),
            digest: String::new(),
            temp: None,
            timestamp: String::new(),
            expires_at: None,
            exit_code: 0,
        };
        res
    }

    /// Where the run stands.
    pub fn stage(&self) -> (res: Stage)
        ensures
            res == self@.stage,
    {
        self.stage
    }

    /// The cache key of the run, once computed.
    pub fn digest(&self) -> (res: &String)
        ensures
            res@ == self@.digest,
    {
        &self.digest
    }

    /// The run's temporary directory, once there is one.
    pub fn temp_dir(&self) -> (res: Option<&String>)
        ensures
            match self@.temp_dir {
                Some(d) => res matches Some(s) && s@ == d,
                None => res is None,
            },
    {
        match &self.temp {
            Some(t) => Some(t.path()),
            None => None,
        }
    }

    /// Whether the run's temporary directory was renamed into place; a
    /// directory that was not is to be removed when the run ends.
    pub fn temp_committed(&self) -> (res: bool)
        ensures
            res == self@.committed,
    {
        match &self.temp {
            Some(t) => t.is_committed(),
            None => false,
        }
    }

    fn finish(&mut self, action: Action) -> (res: Action)
        ensures
            final(self)@ == moved(old(self)@, Stage::Finished),
            res == action,
    {
        self.stage = Stage::Finished;
        action
    }

    fn unexpected(&mut self) -> (res: Action)
        ensures
            final(self)@ == moved(old(self)@, Stage::Finished),
            action_view(res) == ActionView::Panic(unexpected_event_message()),
    {
        proof {
            reveal_strlit("Unexpected event");
        }
        self.finish(Action::Panic(String::from_str("Unexpected event")))
    }

    fn on_start(&mut self) -> (res: Action)
        requires
            old(self)@.stage == Stage::Start,
        ensures
            step_spec(old(self)@, EventView::Start, final(self)@, action_view(res)),
    {
        if self.disabled {
            self.stage = Stage::AwaitDirect;
            Action::RunDirect { command: clone_strings(&self.command) }
        } else {
            self.stage = Stage::AwaitLocation;
            Action::LocateCache
        }
    }

    fn on_location(&mut self, xdg: Option<String>, home: Option<String>) -> (res: Action)
        requires
            old(self)@.stage == Stage::AwaitLocation,
        ensures
            step_spec(
                old(self)@,
                EventView::Location(xdg.deep_view(), home.deep_view()),
                final(self)@,
                action_view(res),
            ),
    {
        let dir = match cache_dir_from(xdg, home) {
            Ok(d) => d,
            Err(e) => return self.finish(Action::Fail(e)),
        };
        if self.purge {
            self.cache_dir = dir.clone();
            self.stage = Stage::AwaitPurge;
            return Action::Purge { cache_dir: dir };
        }
        let ttl = match &self.ttl_text {
            None => None,
            Some(text) => {
                let parsed = if !is_span_text_in_reach(text.as_str()) {
                    None
                } else {
                    parse_span(text.as_str())
                };
                match parsed {
                    Some(s) => Some(s),
                    None => {
                        let t = text.clone();
                        return self.finish(Action::Fail(MemoError::InvalidTtl(t)));
                    },
                }
            },
        };
        self.cache_dir = dir.clone();
        self.ttl = ttl;
        self.stage = Stage::AwaitPrepared;
        Action::PrepareCache { cache_dir: dir }
    }

    fn on_env(&mut self, values: Vec<Option<String>>) -> (res: Action)
        requires
            old(self)@.stage == Stage::AwaitEnv,
        ensures
            step_spec(old(self)@, EventView::EnvValues(values.deep_view()), final(self)@, action_view(res)),
    {
        let ghost names = self.env_names.deep_view();
        let ghost vals = values.deep_view();
        let mut env = EnvVars::new();
        let n = self.env_names.len();
        let mut i: usize = 0;
        while i < n
            invariant
                n == self.env_names@.len(),
                names == self.env_names.deep_view(),
                vals == values.deep_view(),
                i <= n,
                env@ == captured_env(names.take(i as int), vals),
            decreases n - i,
        {
            let value = if i < values.len() {
                clone_opt(&values[i])
            } else {
                None
            };
            proof {
                assert(names.take(i + 1).drop_last() =~= names.take(i as int));
                assert(names.take(i + 1).last() == names[i as int]);
                assert(value.deep_view() == value_at(vals, i as int));
            }
            env.insert(self.env_names[i].clone(), value);
            i = i + 1;
        }
        assert(names.take(n as int) =~= names);
        let digest = compute_digest(self.command.as_slice(), &env);
        self.env = env;
        match digest {
            Err(e) => self.finish(Action::Fail(e)),
            Ok(d) => {
                let (meta_path, stdout_path, stderr_path) = get_cache_paths(
                    self.cache_dir.as_str(),
                    d.as_str(),
                );
                self.digest = d;
                self.stage = Stage::AwaitEntry;
                Action::InspectEntry { meta_path, stdout_path, stderr_path }
            },
        }
    }

    fn on_entry(&mut self, entry: EntryState) -> (res: Action)
        requires
            old(self)@.stage == Stage::AwaitEntry,
        ensures
            step_spec(old(self)@, event_view(Event::Entry(entry)), final(self)@, action_view(res)),
    {
        match entry {
            EntryState::Found { memo, now } => {
                let dir = join_path(self.cache_dir.as_str(), self.digest.as_str());
                if memo.is_expired_at(now) {
                    self.stage = Stage::AwaitRemoval;
                    Action::RemoveEntry { dir }
                } else {
                    let (_meta, stdout_path, stderr_path) = get_cache_paths_in_dir(dir.as_str());
                    self.exit_code = memo.exit_code;
                    self.stage = Stage::AwaitReplay;
                    Action::Replay { stdout_path, stderr_path }
                }
            },
            _ => {
                self.stage = Stage::AwaitClock;
                Action::ReadClock
            },
        }
    }

    fn on_clock(&mut self, now: Timestamp, pid: u32, nanos: i64) -> (res: Action)
        requires
            old(self)@.stage == Stage::AwaitClock,
        ensures
            step_spec(old(self)@, EventView::Clock(now, pid, nanos), final(self)@, action_view(res)),
    {
        let timestamp = match format_rfc3339(now) {
            Some(t) => t,
            None => {
                proof {
                    reveal_strlit("Current time is out of range");
                }
                return self.finish(Action::Panic(String::from_str("Current time is out of range")));
            },
        };
        let expires_at = match &self.ttl {
            None => None,
            Some(span) => {
                if !span.fits_time_delta() {
                    proof {
                        reveal_strlit("Duration is too large for chrono");
                    }
                    return self.finish(
                        Action::Panic(String::from_str("Duration is too large for chrono")),
                    );
                }
                let later = now.checked_add(span);
                let text = match later {
                    Some(t) => format_rfc3339(t),
                    None => None,
                };
                match text {
                    Some(t) => Some(t),
                    None => {
                        proof {
                            reveal_strlit("`DateTime + TimeDelta` overflowed");
                        }
                        return self.finish(
                            Action::Panic(String::from_str("`DateTime + TimeDelta` overflowed")),
                        );
                    },
                }
            },
        };
        let temp = TempCacheDir::new(self.cache_dir.as_str(), self.digest.as_str(), pid, nanos);
        let (_meta, stdout_path, stderr_path) = temp.get_paths();
        let temp_dir = temp.path().clone();
        self.temp = Some(temp);
        self.timestamp = timestamp;
        self.expires_at = expires_at;
        self.stage = Stage::AwaitExecution;
        Action::Execute { temp_dir, stdout_path, stderr_path, command: clone_strings(&self.command) }
    }

    fn on_executed(&mut self, result: ExecutionResult) -> (res: Action)
        requires
            old(self)@.stage == Stage::AwaitExecution,
        ensures
            step_spec(old(self)@, EventView::Executed(result.exit_code), final(self)@, action_view(res)),
    {
        let meta_path = match &self.temp {
            Some(t) => {
                let (m, _o, _e) = t.get_paths();
                m
            },
            None => return self.unexpected(),
        };
        let memo = Memo {
            cmd: clone_strings(&self.command),
            env: self.env.duplicate(),
            exit_code: result.exit_code,
            timestamp: self.timestamp.clone(),
            expires_at: clone_opt(&self.expires_at),
            digest: self.digest.clone(),
        };
        self.exit_code = result.exit_code;
        self.stage = Stage::AwaitWrite;
        Action::WriteMetadata { path: meta_path, memo }
    }

    fn on_written(&mut self) -> (res: Action)
        requires
            old(self)@.stage == Stage::AwaitWrite,
        ensures
            step_spec(old(self)@, EventView::Done, final(self)@, action_view(res)),
    {
        let from = match &self.temp {
            Some(t) => t.path().clone(),
            None => return self.unexpected(),
        };
        let to = join_path(self.cache_dir.as_str(), self.digest.as_str());
        self.stage = Stage::AwaitCommit;
        Action::Commit { from, to }
    }

    fn on_renamed(&mut self, outcome: RenameOutcome) -> (res: Action)
        requires
            old(self)@.stage == Stage::AwaitCommit,
        ensures
            step_spec(old(self)@, EventView::Renamed(outcome), final(self)@, action_view(res)),
    {
        let settled = match &mut self.temp {
            Some(t) => t.commit_outcome(outcome),
            None => match outcome {
                RenameOutcome::Failed => None,
                _ => Some(false),
            },
        };
        match settled {
            Some(_) => {
                let code = self.exit_code;
                self.finish(Action::Finish(code))
            },
            None => self.finish(Action::ReportFailure),
        }
    }

    /// Takes one step of the run: given what the last action led to, decides
    /// the next action.
    pub fn step(&mut self, event: Event) -> (action: Action)
        ensures
            step_spec(old(self)@, event_view(event), final(self)@, action_view(action)),
    {
        match (self.stage, event) {
            (Stage::Start, Event::Start) => self.on_start(),
            (Stage::AwaitDirect, Event::Exited(code)) => self.finish(Action::Finish(code)),
            (Stage::AwaitLocation, Event::Location { xdg, home }) => self.on_location(xdg, home),
            (Stage::AwaitPurge, Event::Done) => self.finish(Action::Finish(0)),
            (Stage::AwaitPrepared, Event::Done) => {
                self.stage = Stage::AwaitEnv;
                Action::ReadEnv { names: clone_strings(&self.env_names) }
            },
            (Stage::AwaitEnv, Event::EnvValues(values)) => self.on_env(values),
            (Stage::AwaitEntry, Event::Entry(entry)) => self.on_entry(entry),
            (Stage::AwaitReplay, Event::Done) => {
                let code = self.exit_code;
                self.finish(Action::Finish(code))
            },
            (Stage::AwaitRemoval, Event::Done) => {
                self.stage = Stage::AwaitClock;
                Action::ReadClock
            },
            (Stage::AwaitClock, Event::Clock { now, pid, nanos }) => self.on_clock(now, pid, nanos),
            (Stage::AwaitExecution, Event::Executed(result)) => self.on_executed(result),
            (Stage::AwaitWrite, Event::Done) => self.on_written(),
            (Stage::AwaitCommit, Event::Renamed(outcome)) => self.on_renamed(outcome),
            _ => self.unexpected(),
        }
    }
}

} // verus!

verus! {

/// With caching disabled, the command runs directly and its exit code is
/// the run's: the cache is never located, read or written.
pub proof fn lemma_disabled_runs_directly(
    pre: SessionView,
    mid: SessionView,
    act: ActionView,
    code: i32,
    post: SessionView,
    last: ActionView,
)
    requires
        pre.stage == Stage::Start,
        pre.disabled,
        step_spec(pre, EventView::Start, mid, act),
        step_spec(mid, EventView::Exited(code), post, last),
    ensures
        act == ActionView::RunDirect(pre.command),
        last == ActionView::Finish(code),
        post.stage == Stage::Finished,
{
}

/// A purge removes the cache directory and ends the run with exit code 0,
/// whatever the TTL given.
pub proof fn lemma_purge_ends_with_zero(
    pre: SessionView,
    xdg: Option<Seq<char>>,
    home: Option<Seq<char>>,
    mid: SessionView,
    act: ActionView,
    post: SessionView,
    last: ActionView,
)
    requires
        pre.stage == Stage::AwaitLocation,
        pre.purge,
        cache_dir_of(xdg, home) is Some,
        step_spec(pre, EventView::Location(xdg, home), mid, act),
        step_spec(mid, EventView::Done, post, last),
    ensures
        act == ActionView::Purge(cache_dir_of(xdg, home).unwrap()),
        last == ActionView::Finish(0),
{
}

/// A TTL that does not parse, or that `humantime` could not safely be given, fails
/// the run before the cache is touched.
pub proof fn lemma_invalid_ttl_fails_fast(
    pre: SessionView,
    xdg: Option<Seq<char>>,
    home: Option<Seq<char>>,
    post: SessionView,
    act: ActionView,
)
    requires
        pre.stage == Stage::AwaitLocation,
        !pre.purge,
        cache_dir_of(xdg, home) is Some,
        pre.ttl_text matches Some(t) && (humantime_span(t) is None || !span_text_in_reach(t)),
        step_spec(pre, EventView::Location(xdg, home), post, act),
    ensures
        act == ActionView::Fail(ErrorView::InvalidTtl(pre.ttl_text.unwrap())),
        post.stage == Stage::Finished,
{
}

/// The entry looked up is the one named by the cache key of the command
/// and of the captured environment.
pub proof fn lemma_lookup_uses_cache_key(
    pre: SessionView,
    values: Seq<Option<Seq<char>>>,
    post: SessionView,
    act: ActionView,
)
    requires
        pre.stage == Stage::AwaitEnv,
        step_spec(pre, EventView::EnvValues(values), post, act),
    ensures
        post.digest == cache_key(pre.command, captured_env(pre.env_names, values)),
        act == ActionView::InspectEntry(
            entry_files(path_join(pre.cache_dir, post.digest)).0,
            entry_files(path_join(pre.cache_dir, post.digest)).1,
            entry_files(path_join(pre.cache_dir, post.digest)).2,
        ),
{
}

/// Every cached run is keyed and looked up: a run that is neither disabled
/// nor a purge, whose cache directory is found and whose TTL (if any) is
/// read, looks up the entry named by the cache key of its command and of
/// the values of its selected variables, right after reading them.
pub proof fn lemma_run_reaches_lookup(
    pre: SessionView,
    xdg: Option<Seq<char>>,
    home: Option<Seq<char>>,
    values: Seq<Option<Seq<char>>>,
    s1: SessionView,
    a1: ActionView,
    s2: SessionView,
    a2: ActionView,
    s3: SessionView,
    a3: ActionView,
    s4: SessionView,
    a4: ActionView,
)
    requires
        pre.stage == Stage::Start,
        !pre.disabled,
        !pre.purge,
        cache_dir_of(xdg, home) is Some,
        pre.ttl_text matches Some(t) ==> span_text_in_reach(t) && humantime_span(t) is Some,
        step_spec(pre, EventView::Start, s1, a1),
        step_spec(s1, EventView::Location(xdg, home), s2, a2),
        step_spec(s2, EventView::Done, s3, a3),
        step_spec(s3, EventView::EnvValues(values), s4, a4),
    ensures
        a1 == ActionView::LocateCache,
        a2 == ActionView::PrepareCache(cache_dir_of(xdg, home).unwrap()),
        a3 == ActionView::ReadEnv(pre.env_names),
        s4.stage == Stage::AwaitEntry,
        s4.digest == cache_key(pre.command, captured_env(pre.env_names, values)),
        a4 == ActionView::InspectEntry(
            entry_files(path_join(cache_dir_of(xdg, home).unwrap(), s4.digest)).0,
            entry_files(path_join(cache_dir_of(xdg, home).unwrap(), s4.digest)).1,
            entry_files(path_join(cache_dir_of(xdg, home).unwrap(), s4.digest)).2,
        ),
{
}

/// A hit replays the recorded stdout and stderr of the entry and ends with
/// the recorded exit code, without running the command.
pub proof fn lemma_hit_replays_entry(
    pre: SessionView,
    exit_code: i32,
    expires_at: Option<Seq<char>>,
    now: Timestamp,
    mid: SessionView,
    act: ActionView,
    post: SessionView,
    last: ActionView,
)
    requires
        pre.stage == Stage::AwaitEntry,
        !expired_at(expiry_of(expires_at), now),
        step_spec(pre, EventView::Entry(EntryView::Found { exit_code, expires_at, now }), mid, act),
        step_spec(mid, EventView::Done, post, last),
    ensures
        act == ActionView::Replay(
            entry_files(path_join(pre.cache_dir, pre.digest)).1,
            entry_files(path_join(pre.cache_dir, pre.digest)).2,
        ),
        last == ActionView::Finish(exit_code),
{
}

/// Entries are permanent by default: an entry recorded without a TTL is
/// replayed at any time.
pub proof fn lemma_entry_without_ttl_is_hit(
    pre: SessionView,
    exit_code: i32,
    now: Timestamp,
    post: SessionView,
    act: ActionView,
)
    requires
        pre.stage == Stage::AwaitEntry,
        step_spec(pre, EventView::Entry(EntryView::Found { exit_code, expires_at: None, now }), post, act),
    ensures
        act is Replay,
        post.exit_code == exit_code,
{
}

/// An expired entry is treated as a miss: it is removed, and the command
/// is run again and recorded anew.
pub proof fn lemma_expired_entry_is_rerun(
    pre: SessionView,
    exit_code: i32,
    expires_at: Option<Seq<char>>,
    now: Timestamp,
    s1: SessionView,
    a1: ActionView,
    s2: SessionView,
    a2: ActionView,
    clock: Timestamp,
    pid: u32,
    nanos: i64,
    s3: SessionView,
    a3: ActionView,
)
    requires
        pre.stage == Stage::AwaitEntry,
        expired_at(expiry_of(expires_at), now),
        step_spec(pre, EventView::Entry(EntryView::Found { exit_code, expires_at, now }), s1, a1),
        step_spec(s1, EventView::Done, s2, a2),
        step_spec(s2, EventView::Clock(clock, pid, nanos), s3, a3),
        rfc3339_text(clock.secs, clock.nanos) is Some,
        !ttl_exceeds_time_delta(pre.ttl),
        expiry_text_of(clock, pre.ttl) is Some,
    ensures
        a1 == ActionView::RemoveEntry(path_join(pre.cache_dir, pre.digest)),
        a2 == ActionView::ReadClock,
        a3 matches ActionView::Execute(_, _, _, command) && command == pre.command,
{
}

/// A missing or unreadable entry is a miss: the command is run.
pub proof fn lemma_missing_entry_is_miss(pre: SessionView, entry: EntryView, post: SessionView, act: ActionView)
    requires
        pre.stage == Stage::AwaitEntry,
        entry is Missing || entry is Unreadable,
        step_spec(pre, EventView::Entry(entry), post, act),
    ensures
        act == ActionView::ReadClock,
        post.stage == Stage::AwaitClock,
{
}

/// A recording runs the command in a fresh temporary directory of the
/// digest, with an expiry `ttl` after the time of the run when a TTL was
/// given.
pub proof fn lemma_recording_setup(
    pre: SessionView,
    now: Timestamp,
    pid: u32,
    nanos: i64,
    post: SessionView,
    act: ActionView,
)
    requires
        pre.stage == Stage::AwaitClock,
        rfc3339_text(now.secs, now.nanos) is Some,
        !ttl_exceeds_time_delta(pre.ttl),
        expiry_text_of(now, pre.ttl) is Some,
        step_spec(pre, EventView::Clock(now, pid, nanos), post, act),
    ensures
        post.temp_dir == Some(path_join(pre.cache_dir, temp_dir_name_of(pre.digest, pid, nanos))),
        !post.committed,
        post.timestamp == rfc3339_text(now.secs, now.nanos).unwrap(),
        post.expires_at == expiry_text_of(now, pre.ttl).unwrap(),
        pre.ttl is None ==> post.expires_at is None,
        act == ActionView::Execute(
            post.temp_dir.unwrap(),
            entry_files(post.temp_dir.unwrap()).1,
            entry_files(post.temp_dir.unwrap()).2,
            pre.command,
        ),
{
}

/// What is recorded after a miss is the command, its captured environment,
/// its digest and its exit code; the entry is committed under the digest,
/// and the run ends with the command's exit code whether this process or
/// another one committed the entry.
pub proof fn lemma_miss_records_and_commits(
    pre: SessionView,
    code: i32,
    s1: SessionView,
    a1: ActionView,
    s2: SessionView,
    a2: ActionView,
    outcome: RenameOutcome,
    s3: SessionView,
    a3: ActionView,
)
    requires
        pre.stage == Stage::AwaitExecution,
        pre.temp_dir is Some,
        step_spec(pre, EventView::Executed(code), s1, a1),
        step_spec(s1, EventView::Done, s2, a2),
        step_spec(s2, EventView::Renamed(outcome), s3, a3),
        outcome != RenameOutcome::Failed,
    ensures
        a1 matches ActionView::WriteMetadata(path, memo) && path == entry_files(pre.temp_dir.unwrap()).0
            && memo.cmd == pre.command && memo.env == pre.env && memo.digest == pre.digest
            && memo.exit_code == code && memo.timestamp == pre.timestamp && memo.expires_at
            == pre.expires_at,
        a2 == ActionView::Commit(pre.temp_dir.unwrap(), path_join(pre.cache_dir, pre.digest)),
        a3 == ActionView::Finish(code),
{
}

/// When another process committed the entry first, this process's temporary
/// directory stays uncommitted, so it is cleaned up.
pub proof fn lemma_lost_race_discards_temp(
    pre: SessionView,
    outcome: RenameOutcome,
    post: SessionView,
    act: ActionView,
)
    requires
        pre.stage == Stage::AwaitCommit,
        !pre.committed,
        outcome == RenameOutcome::AlreadyExists || outcome == RenameOutcome::DirectoryNotEmpty,
        step_spec(pre, EventView::Renamed(outcome), post, act),
    ensures
        !post.committed,
        act == ActionView::Finish(pre.exit_code),
{
}

} // verus!

verus! {

/// Only the variables named with `-e` take part in the cache key: the
/// captured environment has exactly those names.
pub proof fn lemma_captured_env_names(names: Seq<Seq<char>>, values: Seq<Option<Seq<char>>>, k: Seq<char>)
    ensures
        captured_env(names, values).contains_key(k) <==> names.contains(k),
    decreases names.len(),
{
    if names.len() > 0 {
        let init = names.drop_last();
        lemma_captured_env_names(init, values, k);
        if names.contains(k) && k != names.last() {
            let i = choose|i: int| 0 <= i < names.len() && names[i] == k;
            assert(init[i] == k);
        }
        if init.contains(k) {
            let i = choose|i: int| 0 <= i < init.len() && init[i] == k;
            assert(names[i] == k);
        }
        if k == names.last() {
            assert(names[names.len() - 1] == k);
        }
    }
}

/// Each selected variable takes part in the key with its own value: where
/// the names are distinct, the captured value of the `i`-th name is the
/// `i`-th value reported (unset when none was reported), whatever the
/// values of the other names.
pub proof fn lemma_captured_value_is_own(names: Seq<Seq<char>>, values: Seq<Option<Seq<char>>>, i: int)
    requires
        0 <= i < names.len(),
        forall|a: int, b: int| 0 <= a < b < names.len() ==> names[a] != names[b],
    ensures
        captured_env(names, values).contains_key(names[i]),
        captured_env(names, values)[names[i]] == if i < values.len() {
            values[i]
        } else {
            None
        },
    decreases names.len(),
{
    let last = names.len() - 1;
    if i < last {
        let init = names.drop_last();
        assert(init[i] == names[i]);
        lemma_captured_value_is_own(init, values, i);
        assert(names[i] != names[last]);
    }
}

/// The expiry recorded with a TTL is the instant exactly the TTL after the
/// clock reading of the run: for any seconds and nanoseconds (below one
/// second) that denote the reading plus the TTL, the expiry is that
/// instant's RFC 3339 text; and every expiry recorded is the text of such
/// an instant. Without a TTL nothing expires.
pub proof fn lemma_expiry_is_ttl_after_run(now: Timestamp, span: Span, secs: i64, nanos: u32)
    requires
        nanos < 1_000_000_000,
        secs * 1_000_000_000 + nanos == now.secs * 1_000_000_000 + now.nanos + span.secs
            * 1_000_000_000 + span.nanos,
    ensures
        expiry_text_of(now, None) == Some(None::<Seq<char>>),
        expiry_text_of(now, Some(span)) == match rfc3339_text(secs, nanos) {
            Some(t) => Some(Some(t)),
            None => None,
        },
{
    vstd::arithmetic::div_mod::lemma_fundamental_div_mod_converse(
        total_nanos(now) + span_nanos(span),
        1_000_000_000,
        secs as int,
        nanos as int,
    );
}

/// Every expiry recorded with a TTL is the RFC 3339 text of an instant
/// exactly the TTL after the clock reading of the run.
pub proof fn lemma_recorded_expiry_is_exact(now: Timestamp, span: Span)
    ensures
        expiry_text_of(now, Some(span)) matches Some(Some(t)) ==> exists|secs: i64, nanos: u32|
            nanos < 1_000_000_000 && secs * 1_000_000_000 + nanos == now.secs * 1_000_000_000
                + now.nanos + span.secs * 1_000_000_000 + span.nanos && #[trigger] rfc3339_text(
                secs,
                nanos,
            ) == Some(t),
{
    let total = total_nanos(now) + span_nanos(span);
    if let Some(Some(t)) = expiry_text_of(now, Some(span)) {
        let secs = (total / 1_000_000_000) as i64;
        let nanos = (total % 1_000_000_000) as u32;
        assert(rfc3339_text(secs, nanos) == Some(t));
        assert(secs * 1_000_000_000 + nanos == total);
    }
}

} // verus!
