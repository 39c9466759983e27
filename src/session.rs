//! The playback session controller.
//!
//! `App` holds what the player believes about playback. Once per iteration
//! of the control loop the caller observes the audio output and hands the
//! observation to [`App::tick`], which reconciles the session with it,
//! detects the end of a track and decides what plays next. Every operation
//! on the output, the file system or the terminal comes back as an
//! [`Action`] for the caller to perform.
//!
//! A track is started in steps. Starting it gives `Action::Convert` when
//! the output cannot play it as it is, and `Action::Open` otherwise. The
//! caller reports a conversion's outcome to [`App::conversion_done`], which
//! gives `Action::Open` of the conversion result or gives the track up. The
//! caller opens what `Action::Open` names and reports its length to
//! [`App::finish_load`].

use std::collections::VecDeque;
use vstd::prelude::*;

use crate::format::{needs_conversion, plan_load, plan_spec, LoadPlan, LoadPlanView, CONVERTED_TRACK};
use crate::queue::{
    accepted_paths, advanced, lemma_texts_drop_first, lemma_texts_push, next_of, texts, PathEntry,
};
use crate::transport::{
    clamp_volume, decrease_volume, forward, forward_spec, increase_volume, rewind, rewind_spec,
    saturating_diff, MAX_VOLUME, SEEK_STEP_MS, VOLUME_STEP,
};

verus! {

/// A track counts as finished once the output has drained and less than
/// this much of its length, in milliseconds, is left unplayed. The slack
/// covers output that drains slightly before the tracked length elapses.
pub const END_WINDOW_MS: u64 = 3000;

/// The volume a session starts at, in hundredths: the recording's own loudness.
pub const INITIAL_VOLUME: u32 = 100;

/// Shown while a track is being converted.
pub const CONVERTING_INFO: &'static str = "Converting format and normalizing volume...";

/// What the player is doing.
#[derive(Debug, Clone, Copy, PartialEq, Eq, Structural)]
pub enum Status {
    Playing,
    Paused,
    Idle,
}

/// What the audio output reports when it is asked.
#[derive(Debug, Clone, Copy, PartialEq, Eq, Structural)]
pub struct SinkState {
    pub paused: bool,
    /// Whether the output has nothing left to play.
    pub empty: bool,
    /// How far into its current source the output has played.
    pub position_ms: u64,
}

/// A key that the user pressed.
#[derive(Debug, Clone, Copy, PartialEq, Eq, Structural)]
pub enum Key {
    Esc,
    Char(char),
    Up,
    Down,
    Left,
    Right,
    Other,
}

/// An operation that the caller performs for the session.
#[derive(Debug, PartialEq, Eq)]
pub enum Action {
    Nothing,
    /// Convert the given track into `CONVERTED_TRACK`, normalizing its
    /// loudness, and report the outcome with `App::conversion_done`.
    Convert(String),
    /// Decode the given file into the output in place of what it plays,
    /// read the file's length, and report it with `App::finish_load`.
    Open(String),
    /// Decode the given file into the output again, from its start: the
    /// looped track starts over.
    Reload(String),
    /// Decode the given file into the output again and seek to `target_ms`.
    Rewind { playable: String, target_ms: u64 },
    /// Seek the output to the given position.
    Seek(u64),
    Pause,
    Resume,
    /// Set the output's volume, in hundredths.
    SetVolume(u32),
    /// Ask the user for one file and start it with `App::load_now`.
    PickFile,
    /// Ask the user for files and queue them with `queue::enqueue_track`.
    PickFiles,
    /// Ask the user for a folder and queue its audio files with
    /// `queue::enqueue_dir`.
    PickFolder,
    Exit,
}

/// An [`Action`] with its texts as sequences of characters.
pub enum ActionView {
    Nothing,
    Convert(Seq<char>),
    Open(Seq<char>),
    Reload(Seq<char>),
    Rewind { playable: Seq<char>, target_ms: u64 },
    Seek(u64),
    Pause,
    Resume,
    SetVolume(u32),
    PickFile,
    PickFiles,
    PickFolder,
    Exit,
}

impl View for Action {
    type V = ActionView;

    open spec fn view(&self) -> ActionView {
        match self {
            Action::Nothing => ActionView::Nothing,
            Action::Convert(t) => ActionView::Convert(t@),
            Action::Open(t) => ActionView::Open(t@),
            Action::Reload(t) => ActionView::Reload(t@),
            Action::Rewind { playable, target_ms } => ActionView::Rewind {
                playable: playable@,
                target_ms: *target_ms,
            },
            Action::Seek(p) => ActionView::Seek(*p),
            Action::Pause => ActionView::Pause,
            Action::Resume => ActionView::Resume,
            Action::SetVolume(v) => ActionView::SetVolume(*v),
            Action::PickFile => ActionView::PickFile,
            Action::PickFiles => ActionView::PickFiles,
            Action::PickFolder => ActionView::PickFolder,
            Action::Exit => ActionView::Exit,
        }
    }
}

/// The session's state.
pub struct App {
    pub status: Status,
    /// Status messages, oldest first; the last one is shown. An empty
    /// message clears the display.
    pub info: Vec<String>,
    /// The track believed to be loaded into the output.
    pub track_path: Option<String>,
    /// Tracks waiting to be played, next first. Each was a regular file when
    /// it was queued.
    pub track_queue: VecDeque<String>,
    /// How far the output has played the current track, in milliseconds.
    pub track_pos: Option<u64>,
    /// The length of the current track, in milliseconds, where it is known.
    pub track_duration: Option<u64>,
    /// How the current track is brought to the output.
    pub plan: Option<LoadPlan>,
    /// Whether the current track's conversion is still awaited.
    pub converting: bool,
    /// The output's volume, in hundredths.
    pub volume: u32,
    /// Whether the current track starts over when it ends.
    pub looping: bool,
    /// Whether the user asked to quit.
    pub exit: bool,
}

/// An [`App`] with its texts as sequences of characters.
pub struct AppView {
    pub status: Status,
    pub info: Seq<Seq<char>>,
    pub track_path: Option<Seq<char>>,
    pub track_queue: Seq<Seq<char>>,
    pub track_pos: Option<u64>,
    pub track_duration: Option<u64>,
    pub plan: Option<LoadPlanView>,
    pub converting: bool,
    pub volume: u32,
    pub looping: bool,
    pub exit: bool,
}

impl View for App {
    type V = AppView;

    open spec fn view(&self) -> AppView {
        AppView {
            status: self.status,
            info: texts(self.info@),
            track_path: match self.track_path {
                Some(p) => Some(p@),
                None => None,
            },
            track_queue: texts(self.track_queue@),
            track_pos: self.track_pos,
            track_duration: self.track_duration,
            plan: match self.plan {
                Some(p) => Some(p@),
                None => None,
            },
            converting: self.converting,
            volume: self.volume,
            looping: self.looping,
            exit: self.exit,
        }
    }
}

impl AppView {
    /// Position, length and plan are only known of a loaded track, the plan
    /// is the current track's, a conversion is only awaited where the plan
    /// asks for one, and the volume stays within its range.
    pub open spec fn wf(self) -> bool {
        &&& self.track_path is None ==> {
            &&& self.track_pos is None
            &&& self.track_duration is None
            &&& self.plan is None
            &&& !self.converting
        }
        &&& self.plan matches Some(p) ==> self.track_path == Some(p.track)
        &&& self.converting ==> (self.plan matches Some(p) && p.convert)
        &&& self.volume <= MAX_VOLUME
    }
}

/// The status that an observation of the output shows: paused before
/// playing, and idle whenever the output is empty.
pub open spec fn observed_status(prev: Status, has_track: bool, sink: SinkState) -> Status {
    if sink.empty {
        Status::Idle
    } else if sink.paused {
        Status::Paused
    } else if has_track {
        Status::Playing
    } else {
        prev
    }
}

/// Whether the current track has ended: its length is known, the output has
/// drained, and less than `END_WINDOW_MS` of it is left by the output's
/// position.
pub open spec fn track_finished(v: AppView, sink: SinkState) -> bool {
    &&& v.track_path is Some
    &&& v.track_duration matches Some(d) && saturating_diff(d as int, sink.position_ms as int)
        < END_WINDOW_MS
    &&& sink.empty
}

/// The file that the output decodes for the current track.
pub open spec fn playable_of(v: AppView) -> Seq<char> {
    match v.plan {
        Some(p) => p.playable,
        None => match v.track_path {
            Some(t) => t,
            None => Seq::empty(),
        },
    }
}

/// The session once reconciled with `sink`, before the queue is looked at.
pub open spec fn reconciled(v: AppView, sink: SinkState) -> AppView {
    if track_finished(v, sink) && !v.looping {
        AppView { status: Status::Idle, track_pos: None, track_duration: None, ..v }
    } else {
        AppView {
            status: observed_status(v.status, v.track_path is Some, sink),
            track_pos: if v.track_path is Some {
                Some(sink.position_ms)
            } else {
                None
            },
            ..v
        }
    }
}

/// The session once `track`, a regular file when `is_file`, is started: it
/// becomes the current track with its length unknown; a track that must be
/// converted shows `CONVERTING_INFO` and waits for its conversion, any other
/// is opened as it is.
pub open spec fn start_spec(v: AppView, track: Seq<char>, is_file: bool) -> (AppView, ActionView) {
    let plan = plan_spec(track, is_file);
    (
        AppView {
            track_path: Some(track),
            track_duration: None,
            plan: Some(plan),
            converting: plan.convert,
            info: if plan.convert {
                v.info.push(CONVERTING_INFO@)
            } else {
                v.info
            },
            ..v
        },
        if plan.convert {
            ActionView::Convert(track)
        } else {
            ActionView::Open(track)
        },
    )
}

/// An advance: the front of the queue, which was a regular file when it was
/// queued, is started. Nothing changes when the queue is empty.
pub open spec fn play_next_spec(v: AppView) -> (AppView, ActionView) {
    match next_of(v.track_queue) {
        Some(t) => start_spec(AppView { track_queue: advanced(v.track_queue), ..v }, t, true),
        None => (v, ActionView::Nothing),
    }
}

/// The session once the current track is given up with `message`.
pub open spec fn failed_spec(v: AppView, message: Seq<char>) -> AppView {
    AppView {
        status: Status::Idle,
        track_path: None,
        track_pos: None,
        track_duration: None,
        plan: None,
        converting: false,
        info: v.info.push(message),
        ..v
    }
}

/// The session once an awaited conversion ended with `result`: on success
/// the conversion result is opened; on failure the track is given up with
/// the failure's message. Without an awaited conversion nothing changes.
pub open spec fn conversion_done_spec(v: AppView, result: Result<(), Seq<char>>) -> (
    AppView,
    ActionView,
) {
    if !v.converting {
        (v, ActionView::Nothing)
    } else {
        match result {
            Ok(_) => (AppView { converting: false, ..v }, ActionView::Open(playable_of(v))),
            Err(m) => (failed_spec(v, m), ActionView::Nothing),
        }
    }
}

/// The session once the opened track's length is known, where it could be
/// read: the status message is cleared.
pub open spec fn finish_spec(v: AppView, duration: Option<u64>) -> AppView {
    AppView {
        track_duration: if v.track_path is Some {
            duration
        } else {
            None
        },
        info: v.info.push(Seq::empty()),
        ..v
    }
}

/// One iteration of the control loop: reconcile with the output; a finished
/// track is reloaded when looping and otherwise forgotten; an idle session
/// with tracks waiting plays the next one.
pub open spec fn tick_spec(v: AppView, sink: SinkState) -> (AppView, ActionView) {
    let r = reconciled(v, sink);
    if track_finished(v, sink) && v.looping {
        (r, ActionView::Reload(playable_of(v)))
    } else if r.status == Status::Idle && r.track_queue.len() > 0 {
        play_next_spec(r)
    } else {
        (r, ActionView::Nothing)
    }
}

/// The position used for seeking: the one last observed, or the start.
pub open spec fn seek_origin(v: AppView) -> int {
    match v.track_pos {
        Some(p) => p as int,
        None => 0,
    }
}

/// What a key press does.
pub open spec fn key_spec(v: AppView, key: Key) -> (AppView, ActionView) {
    match key {
        Key::Esc => (AppView { exit: true, ..v }, ActionView::Exit),
        Key::Char(' ') => (v, if v.status == Status::Playing {
            ActionView::Pause
        } else {
            ActionView::Resume
        }),
        Key::Char('n') => (v, ActionView::PickFile),
        Key::Char('q') => (v, ActionView::PickFiles),
        Key::Char('d') => (v, ActionView::PickFolder),
        Key::Char('s') => play_next_spec(v),
        Key::Char('l') => (AppView { looping: !v.looping, ..v }, ActionView::Nothing),
        Key::Up => {
            let vol = clamp_volume(v.volume + VOLUME_STEP) as u32;
            (AppView { volume: vol, ..v }, ActionView::SetVolume(vol))
        },
        Key::Down => {
            let vol = clamp_volume(v.volume - VOLUME_STEP) as u32;
            (AppView { volume: vol, ..v }, ActionView::SetVolume(vol))
        },
        Key::Right => (v, match (v.track_path, v.track_duration) {
            (Some(_), Some(d)) => match forward_spec(seek_origin(v), d as int, SEEK_STEP_MS as int) {
                Some(t) => ActionView::Seek(t as u64),
                None => ActionView::Nothing,
            },
            _ => ActionView::Nothing,
        }),
        Key::Left => (v, match v.track_path {
            Some(_) => ActionView::Rewind {
                playable: playable_of(v),
                target_ms: rewind_spec(seek_origin(v), SEEK_STEP_MS as int) as u64,
            },
            None => ActionView::Nothing,
        }),
        _ => (v, ActionView::Nothing),
    }
}

/// Loading goes through conversion where the output cannot play a track as
/// it is: starting such a track asks for its conversion, and once that
/// succeeds the output opens the conversion result and never the track
/// itself; the message shown meanwhile is cleared once the length is known.
/// A failed conversion gives the track up, shows why, and opens nothing. A
/// track the output plays as it is opens at once from its own path, and
/// nothing is converted. An advance starts the front of the queue this way.
pub proof fn load_protocol(
    v: AppView,
    track: Seq<char>,
    is_file: bool,
    duration: Option<u64>,
    message: Seq<char>,
)
    requires
        v.wf(),
    ensures
        ({
            let (v1, a1) = start_spec(v, track, is_file);
            let (ok, a_ok) = conversion_done_spec(v1, Ok(()));
            let (bad, a_bad) = conversion_done_spec(v1, Err(message));
            &&& v1.wf()
            &&& v1.track_path == Some(track)
            &&& needs_conversion(track, is_file) ==> {
                &&& a1 == ActionView::Convert(track)
                &&& v1.info == v.info.push(CONVERTING_INFO@)
                &&& a_ok == ActionView::Open(CONVERTED_TRACK@)
                &&& ok.wf()
                &&& finish_spec(ok, duration).info == v.info.push(CONVERTING_INFO@).push(
                    Seq::empty(),
                )
                &&& finish_spec(ok, duration).track_duration == duration
                &&& a_bad == ActionView::Nothing
                &&& bad == failed_spec(v1, message)
                &&& bad.wf()
                &&& bad.track_path is None
                &&& bad.status == Status::Idle
                &&& bad.info == v.info.push(CONVERTING_INFO@).push(message)
                &&& bad.track_queue == v.track_queue
            }
            &&& !needs_conversion(track, is_file) ==> {
                &&& a1 == ActionView::Open(track)
                &&& v1.info == v.info
                &&& !v1.converting
                &&& conversion_done_spec(v1, Ok(())) == (v1, ActionView::Nothing)
                &&& finish_spec(v1, duration).info == v.info.push(Seq::empty())
            }
        }),
        v.track_queue.len() > 0 ==> play_next_spec(v) == start_spec(
            AppView { track_queue: v.track_queue.drop_first(), ..v },
            v.track_queue[0],
            true,
        ),
{
}

/// The tracks that `n` advances play, in order, and the session left.
pub open spec fn advance_times(v: AppView, n: nat) -> (Seq<Seq<char>>, AppView)
    decreases n,
{
    if n == 0 {
        (Seq::empty(), v)
    } else {
        let (played, w) = advance_times(v, (n - 1) as nat);
        if w.track_queue.len() > 0 {
            (played.push(w.track_queue[0]), play_next_spec(w).0)
        } else {
            (played, w)
        }
    }
}

/// The queue is first in, first out: after paths are enqueued, `n` advances
/// play the first `n` tracks of the queue in the order they were enqueued,
/// each advance making the played track the current one and shortening the
/// queue by exactly one; advances on an empty queue play nothing and leave
/// it empty.
pub proof fn queue_is_fifo(v: AppView, path_vec: Seq<PathEntry>, n: nat)
    ensures
        ({
            let q = v.track_queue + accepted_paths(path_vec, false);
            let (played, w) = advance_times(AppView { track_queue: q, ..v }, n);
            &&& n <= q.len() ==> played == q.take(n as int) && w.track_queue == q.skip(n as int)
            &&& n <= q.len() ==> w.track_queue.len() == q.len() - n
            &&& 0 < n <= q.len() ==> w.track_path == Some(q[n - 1])
            &&& n > q.len() ==> played == q && w.track_queue.len() == 0
        }),
{
    let q = v.track_queue + accepted_paths(path_vec, false);
    lemma_advance_times(AppView { track_queue: q, ..v }, n);
}

proof fn lemma_advance_times(v: AppView, n: nat)
    ensures
        ({
            let q = v.track_queue;
            let (played, w) = advance_times(v, n);
            &&& n <= q.len() ==> played == q.take(n as int) && w.track_queue == q.skip(n as int)
            &&& 0 < n <= q.len() ==> w.track_path == Some(q[n - 1])
            &&& n > q.len() ==> played == q && w.track_queue.len() == 0
        }),
    decreases n,
{
    if n > 0 {
        let q = v.track_queue;
        lemma_advance_times(v, (n - 1) as nat);
        if n <= q.len() {
            assert(q.take(n - 1).push(q[n - 1]) == q.take(n as int));
            assert(q.skip(n - 1).drop_first() == q.skip(n as int));
            assert(q.skip(n - 1)[0] == q[n - 1]);
        } else {
            assert(q.take(q.len() as int) == q);
            assert(q.skip(q.len() as int).len() == 0);
        }
    }
}

impl App {
    /// A session with nothing loaded, nothing queued, not looping, at the
    /// recording's own loudness.
    pub fn new() -> (r: App)
        ensures
            r@.status == Status::Idle,
            r@.info == seq![Seq::<char>::empty()],
            r@.track_path is None,
            r@.track_queue.len() == 0,
            r@.track_pos is None,
            r@.track_duration is None,
            r@.plan is None,
            !r@.converting,
            r@.volume == INITIAL_VOLUME,
            !r@.looping,
            !r@.exit,
            r@.wf(),
    {
        let mut info: Vec<String> = Vec::new();
        info.push(String::new());
        let r = App {
            status: Status::Idle,
            info,
            track_path: None,
            track_queue: VecDeque::new(),
            track_pos: None,
            track_duration: None,
            plan: None,
            converting: false,
            volume: INITIAL_VOLUME,
            looping: false,
            exit: false,
        };
        assert(r@.info =~= seq![Seq::<char>::empty()]);
        r
    }

    /// The file that the output decodes for the current track.
    fn playable(&self) -> (r: String)
        ensures
            r@ == playable_of(self@),
    {
        match &self.plan {
            Some(p) => p.playable.clone(),
            None => match &self.track_path {
                Some(t) => t.clone(),
                None => String::new(),
            },
        }
    }

    /// One iteration of the control loop, given what the output reports.
    ///
    /// The status is read off the output (an empty output is always idle)
    /// and the position refreshed from it. A track whose length is known
    /// and that has drained to within `END_WINDOW_MS` of its end is finished:
    /// it is reloaded when looping, and otherwise its position and length
    /// are forgotten. A session left idle with tracks waiting then starts
    /// the next one.
    pub fn tick(&mut self, sink: SinkState) -> (r: Action)
        ensures
            (final(self)@, r@) == tick_spec(old(self)@, sink),
            old(self)@.wf() ==> final(self)@.wf(),
            sink.empty ==> final(self).status == Status::Idle,
            track_finished(old(self)@, sink) && old(self).looping ==> {
                &&& final(self)@.track_path == old(self)@.track_path
                &&& r@ == ActionView::Reload(playable_of(old(self)@))
            },
            track_finished(old(self)@, sink) && !old(self).looping ==> {
                &&& final(self).track_pos is None
                &&& final(self).track_duration is None
                &&& final(self).status == Status::Idle
            },
            !track_finished(old(self)@, sink) && old(self).track_path is Some ==> final(self).track_pos
                == Some(sink.position_ms),
            final(self).status == Status::Idle && final(self)@.track_queue.len() > 0 ==> r@ is Convert
                || r@ is Open || r@ is Reload,
    {
        let has_track = self.track_path.is_some();
        if sink.paused {
            self.status = Status::Paused;
        } else if has_track && !sink.empty {
            self.status = Status::Playing;
        }
        if sink.empty {
            self.status = Status::Idle;
        }
        self.track_pos = if has_track {
            Some(sink.position_ms)
        } else {
            None
        };
        let mut finished = false;
        if has_track && sink.empty {
            if let Some(dur) = self.track_duration {
                let remaining = if dur >= sink.position_ms {
                    dur - sink.position_ms
                } else {
                    0
                };
                finished = remaining < END_WINDOW_MS;
            }
        }
        if finished {
            if self.looping {
                return Action::Reload(self.playable());
            } else {
                self.track_pos = None;
                self.track_duration = None;
                self.status = Status::Idle;
            }
        }
        if self.status == Status::Idle && self.track_queue.len() > 0 {
            return self.play_next_track();
        }
        Action::Nothing
    }

    /// Starts `track`, a regular file when `is_file`; see `start_spec`.
    fn start(&mut self, track: String, is_file: bool) -> (r: Action)
        ensures
            (final(self)@, r@) == start_spec(old(self)@, track@, is_file),
            old(self)@.wf() ==> final(self)@.wf(),
    {
        let plan = plan_load(track.as_str(), is_file);
        let action = if plan.convert {
            self.display_info(CONVERTING_INFO);
            Action::Convert(track.clone())
        } else {
            Action::Open(track.clone())
        };
        self.converting = plan.convert;
        self.plan = Some(plan);
        self.track_path = Some(track);
        self.track_duration = None;
        action
    }

    /// Takes the next track off the queue and starts it: it is converted
    /// first where the output cannot play it as it is (`Action::Convert`),
    /// and opened at once otherwise (`Action::Open`). Its length is unknown
    /// until it is opened. Nothing changes when the queue is empty.
    pub fn play_next_track(&mut self) -> (r: Action)
        ensures
            (final(self)@, r@) == play_next_spec(old(self)@),
            old(self)@.wf() ==> final(self)@.wf(),
    {
        proof {
            if self.track_queue@.len() > 0 {
                lemma_texts_drop_first(self.track_queue@);
            }
        }
        match self.track_queue.pop_front() {
            Some(path) => self.start(path, true),
            None => Action::Nothing,
        }
    }

    /// Starts `track` at once, a regular file when `is_file`: it is converted
    /// first where the output cannot play it as it is, and opened at once
    /// otherwise.
    pub fn load_now(&mut self, track: String, is_file: bool) -> (r: Action)
        ensures
            (final(self)@, r@) == start_spec(old(self)@, track@, is_file),
            old(self)@.wf() ==> final(self)@.wf(),
    {
        self.start(track, is_file)
    }

    /// Takes the outcome of the awaited conversion: on success the
    /// conversion result is opened; on failure the track is given up and
    /// the failure's message shown. Without an awaited conversion nothing
    /// changes.
    pub fn conversion_done(&mut self, result: Result<(), String>) -> (r: Action)
        ensures
            (final(self)@, r@) == conversion_done_spec(
                old(self)@,
                match result {
                    Ok(_) => Ok(()),
                    Err(m) => Err(m@),
                },
            ),
            old(self)@.wf() ==> final(self)@.wf(),
    {
        if !self.converting {
            return Action::Nothing;
        }
        match result {
            Ok(_) => {
                self.converting = false;
                Action::Open(self.playable())
            },
            Err(message) => {
                self.load_failed(message);
                Action::Nothing
            },
        }
    }

    /// Records the length of the current track, where it could be read.
    /// Without a current track there is no length to record.
    pub fn set_track_duration(&mut self, duration: Option<u64>)
        ensures
            final(self)@ == (AppView {
                track_duration: if old(self).track_path is Some {
                    duration
                } else {
                    None
                },
                ..old(self)@
            }),
            old(self)@.wf() ==> final(self)@.wf(),
    {
        if self.track_path.is_some() {
            self.track_duration = duration;
        } else {
            self.track_duration = None;
        }
    }

    /// Completes a load once the opened file's length is read, where it
    /// could be: records it and clears the status message. A track of
    /// unknown length plays until it is skipped.
    pub fn finish_load(&mut self, duration: Option<u64>)
        ensures
            final(self)@ == finish_spec(old(self)@, duration),
            old(self)@.wf() ==> final(self)@.wf(),
    {
        self.set_track_duration(duration);
        self.stop_info_display();
    }

    /// Gives up the current track after its conversion or load failed:
    /// shows `message`, and leaves the session idle so that the next tick
    /// moves on to the queue.
    pub fn load_failed(&mut self, message: String)
        ensures
            final(self)@ == failed_spec(old(self)@, message@),
            old(self)@.wf() ==> final(self)@.wf(),
    {
        self.status = Status::Idle;
        self.track_path = None;
        self.track_pos = None;
        self.track_duration = None;
        self.plan = None;
        self.converting = false;
        proof {
            lemma_texts_push(self.info@, message);
        }
        self.info.push(message);
    }

    /// Shows `info` as the status message.
    pub fn display_info(&mut self, info: &str)
        ensures
            final(self)@ == (AppView { info: old(self)@.info.push(info@), ..old(self)@ }),
    {
        let s = info.to_owned();
        proof {
            lemma_texts_push(self.info@, s);
        }
        self.info.push(s);
    }

    /// Clears the status message.
    pub fn stop_info_display(&mut self)
        ensures
            final(self)@ == (AppView { info: old(self)@.info.push(Seq::empty()), ..old(self)@ }),
    {
        let s = String::new();
        proof {
            lemma_texts_push(self.info@, s);
        }
        self.info.push(s);
    }

    /// Answers a key press: `Esc` quits; space pauses what plays and
    /// resumes otherwise; `n` picks a file to start now; `q` queues files;
    /// `d` queues a folder; `s` skips to the next queued track; up and down
    /// change the volume by `VOLUME_STEP`; right and left seek by
    /// `SEEK_STEP_MS`; `l` turns looping on or off.
    pub fn handle_key_event(&mut self, key: Key) -> (r: Action)
        ensures
            (final(self)@, r@) == key_spec(old(self)@, key),
            old(self)@.wf() ==> final(self)@.wf(),
    {
        match key {
            Key::Esc => {
                self.exit = true;
                Action::Exit
            },
            Key::Char(' ') => {
                if self.status == Status::Playing {
                    Action::Pause
                } else {
                    Action::Resume
                }
            },
            Key::Char('n') => Action::PickFile,
            Key::Char('q') => Action::PickFiles,
            Key::Char('d') => Action::PickFolder,
            Key::Char('s') => self.play_next_track(),
            Key::Char('l') => {
                self.looping = !self.looping;
                Action::Nothing
            },
            Key::Up => {
                self.volume = increase_volume(self.volume, VOLUME_STEP);
                Action::SetVolume(self.volume)
            },
            Key::Down => {
                self.volume = decrease_volume(self.volume, VOLUME_STEP);
                Action::SetVolume(self.volume)
            },
            Key::Right => {
                if self.track_path.is_some() {
                    if let Some(dur) = self.track_duration {
                        let pos = match self.track_pos {
                            Some(p) => p,
                            None => 0,
                        };
                        return match forward(pos, dur, SEEK_STEP_MS) {
                            Some(t) => Action::Seek(t),
                            None => Action::Nothing,
                        };
                    }
                }
                Action::Nothing
            },
            Key::Left => {
                if self.track_path.is_some() {
                    let pos = match self.track_pos {
                        Some(p) => p,
                        None => 0,
                    };
                    Action::Rewind { playable: self.playable(), target_ms: rewind(pos, SEEK_STEP_MS) }
                } else {
                    Action::Nothing
                }
            },
            _ => Action::Nothing,
        }
    }
}

} // verus!
