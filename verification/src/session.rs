use vstd::prelude::*;
use crate::models::{AudioState, MusicFile, Phase, SinkState, MAX_SPAN_NANOS};

verus! {

/// The mathematical picture of a playback session: what every contract of
/// the player speaks of.
pub struct Session {
    /// The output in use, absent while nothing is loaded.
    pub sink: Option<SinkState>,
    /// The path of the loaded track.
    pub current: Option<Seq<char>>,
    /// The paths of the catalog, in order.
    pub catalog: Seq<Seq<char>>,
    /// Linear gain, as the bit pattern of an `f32`.
    pub volume: u32,
    /// The instant at which playing last began.
    pub playback_start: Option<u64>,
    /// Nanoseconds played before `playback_start`.
    pub paused_elapsed: nat,
    /// The length of the loaded track in nanoseconds.
    pub total_duration: Option<nat>,
}

/// The paths of a list of tracks, in order.
pub open spec fn paths_of(tracks: Seq<MusicFile>) -> Seq<Seq<char>> {
    Seq::new(tracks.len(), |i: int| tracks[i].path@)
}

/// The time from `start` to `now`; nothing if the clock reads earlier than
/// `start`.
pub open spec fn span(start: u64, now: u64) -> nat {
    if now >= start {
        (now - start) as nat
    } else {
        0
    }
}

impl View for AudioState {
    type V = Session;

    open spec fn view(&self) -> Session {
        Session {
            sink: self.sink,
            current: match self.current_track {
                Some(p) => Some(p@),
                None => None,
            },
            catalog: paths_of(self.tracks@),
            volume: self.volume,
            playback_start: self.playback_start,
            paused_elapsed: self.paused_elapsed as nat,
            total_duration: match self.total_duration {
                Some(t) => Some(t as nat),
                None => None,
            },
        }
    }
}

impl Session {
    /// A session before anything was loaded, at the default volume.
    pub open spec fn initial(volume: u32) -> Session {
        Session {
            sink: None,
            current: None,
            catalog: Seq::empty(),
            volume,
            playback_start: None,
            paused_elapsed: 0,
            total_duration: None,
        }
    }

    /// What holds of every session that the operations produce: an output is
    /// held exactly while a track is loaded; time runs only on an output
    /// that was told neither to pause nor to stop; and no span exceeds what
    /// a duration can hold.
    pub open spec fn wf(self) -> bool {
        &&& self.sink is Some <==> self.current is Some
        &&& self.playback_start is Some ==> self.sink == Some(
            SinkState { paused: false, stopped: false },
        )
        &&& self.paused_elapsed <= MAX_SPAN_NANOS
        &&& self.total_duration matches Some(t) ==> t <= MAX_SPAN_NANOS
    }

    /// The logical state: exactly one of the four.
    pub open spec fn phase(self) -> Phase {
        match self.sink {
            None => Phase::Idle,
            Some(sink) => if self.playback_start is Some {
                Phase::Playing
            } else if sink.stopped {
                Phase::Stopped
            } else {
                Phase::Paused
            },
        }
    }

    /// The position within the track at `now`: what was played before the
    /// last start, plus the time since that start while playing.
    pub open spec fn elapsed_at(self, now: u64) -> nat {
        match self.playback_start {
            Some(start) => self.paused_elapsed + span(start, now),
            None => self.paused_elapsed,
        }
    }

    /// The output is held and was not told to pause.
    pub open spec fn engaged(self) -> bool {
        self.sink matches Some(sink) && !sink.paused
    }

    /// The session with another catalog.
    pub open spec fn with_catalog(self, catalog: Seq<Seq<char>>) -> Session {
        Session { catalog, ..self }
    }

    /// The session at another volume.
    pub open spec fn with_volume(self, volume: u32) -> Session {
        Session { volume, ..self }
    }

    /// After a pause at `now`: with an output, the time played since the
    /// last start is folded into the accumulated time and the clock stops.
    pub open spec fn pause(self, now: u64) -> Session {
        match self.sink {
            None => self,
            Some(sink) => Session {
                sink: Some(SinkState { paused: true, stopped: sink.stopped }),
                playback_start: None,
                paused_elapsed: self.elapsed_at(now),
                ..self
            },
        }
    }

    /// After a resume at `now` on an output that still has audio queued: the
    /// clock starts at `now`, the accumulated time stays.
    pub open spec fn resume(self, now: u64) -> Session {
        match self.sink {
            None => self,
            Some(_) => Session {
                sink: Some(SinkState { paused: false, stopped: false }),
                playback_start: Some(now),
                ..self
            },
        }
    }

    /// After a stop: the output stays, told to stop; the clock stops and the
    /// accumulated time is zero. The loaded path stays.
    pub open spec fn stop(self) -> Session {
        Session {
            sink: match self.sink {
                Some(sink) => Some(SinkState { paused: sink.paused, stopped: true }),
                None => None,
            },
            playback_start: None,
            paused_elapsed: 0,
            ..self
        }
    }

    /// After `path` was opened at `now` into a fresh output: accounting
    /// starts from `baseline`, and the clock runs only if the output was
    /// started.
    pub open spec fn load(
        self,
        path: Seq<char>,
        start: bool,
        baseline: nat,
        total: Option<nat>,
        now: u64,
    ) -> Session {
        Session {
            sink: Some(SinkState { paused: !start, stopped: false }),
            current: Some(path),
            playback_start: if start {
                Some(now)
            } else {
                None
            },
            paused_elapsed: baseline,
            total_duration: total,
            ..self
        }
    }

    /// After a failed load: idle, with no output, no loaded path and the
    /// accounting cleared. Catalog and volume stay.
    pub open spec fn fail(self) -> Session {
        Session {
            sink: None,
            current: None,
            playback_start: None,
            paused_elapsed: 0,
            total_duration: None,
            ..self
        }
    }

    /// The output ran out of audio while the clock was running: the track
    /// has ended.
    pub open spec fn ended(self, queue_len: usize) -> bool {
        self.sink is Some && queue_len == 0 && self.playback_start is Some
    }

    /// After the end of the track was seen: the clock stops, so that the
    /// same end is not seen twice.
    pub open spec fn halt(self) -> Session {
        Session { playback_start: None, ..self }
    }

    /// Where the loaded path first occurs in the catalog.
    pub open spec fn current_index(self) -> Option<int> {
        match self.current {
            Some(path) => self.catalog.index_of_first(path),
            None => None,
        }
    }

    /// The path that follows the loaded one in the catalog, if any: there is
    /// no wrap-around.
    pub open spec fn next_path(self) -> Option<Seq<char>> {
        match self.current_index() {
            Some(i) => if i + 1 < self.catalog.len() {
                Some(self.catalog[i + 1])
            } else {
                None
            },
            None => None,
        }
    }

    /// The path that precedes the loaded one in the catalog, if any.
    pub open spec fn previous_path(self) -> Option<Seq<char>> {
        match self.current_index() {
            Some(i) => if i > 0 {
                Some(self.catalog[i - 1])
            } else {
                None
            },
            None => None,
        }
    }
}

} // verus!

verus! {

/// A query at the very instant at which a load completed finds the position
/// that the load asked for, whether or not the output was started.
pub proof fn load_sets_position(
    s: Session,
    path: Seq<char>,
    start: bool,
    baseline: nat,
    total: Option<nat>,
    now: u64,
)
    ensures
        s.load(path, start, baseline, total, now).elapsed_at(now) == baseline,
{
}

/// A pause is idempotent: a second pause, at whatever instant, changes
/// nothing.
pub proof fn pause_is_idempotent(s: Session, first: u64, second: u64)
    ensures
        s.pause(first).pause(second) == s.pause(first),
{
}

/// After a stop every query finds the position zero, whatever the instant,
/// and the loaded path is the one it was.
pub proof fn stop_resets_position(s: Session, now: u64)
    ensures
        s.stop().elapsed_at(now) == 0,
        s.stop().current == s.current,
{
}

/// The lookup of the loaded path goes by the first match: the entry found
/// has the path and none before it has, and nothing is found exactly where
/// no track is loaded or no entry has the path.
pub proof fn current_index_is_first_match(s: Session)
    ensures
        match s.current_index() {
            Some(i) => {
                &&& 0 <= i < s.catalog.len()
                &&& s.current == Some(s.catalog[i])
                &&& forall|j: int| 0 <= j < i ==> s.catalog[j] != s.catalog[i]
            },
            None => s.current matches Some(path) ==> !s.catalog.contains(path),
        },
{
    if let Some(path) = s.current {
        s.catalog.index_of_first_ensures(path);
    }
}

/// Where the loaded track is the last entry of the catalog, and the lookup
/// by path finds it there, no track follows it.
pub proof fn no_next_at_last_entry(s: Session)
    requires
        s.catalog.len() > 0,
        s.current == Some(s.catalog.last()),
        forall|j: int| 0 <= j < s.catalog.len() - 1 ==> s.catalog[j] != s.catalog.last(),
    ensures
        s.current_index() == Some(s.catalog.len() - 1),
        s.next_path() is None,
{
    let path = s.catalog.last();
    s.catalog.index_of_first_ensures(path);
    assert(s.catalog[s.catalog.len() - 1] == path);
}

/// Where the loaded track is the first entry of the catalog, no track
/// precedes it.
pub proof fn no_previous_at_first_entry(s: Session)
    requires
        s.catalog.len() > 0,
        s.current == Some(s.catalog.first()),
    ensures
        s.current_index() == Some(0int),
        s.previous_path() is None,
{
    let path = s.catalog.first();
    s.catalog.index_of_first_ensures(path);
    assert(s.catalog[0] == path);
}

/// A load, a failed load, a pause that fits, a resume, a stop and the end
/// of a track each lead from a well-formed session to a well-formed one.
pub proof fn operations_keep_wf(
    s: Session,
    path: Seq<char>,
    start: bool,
    baseline: nat,
    total: Option<nat>,
    now: u64,
)
    requires
        s.wf(),
        baseline <= MAX_SPAN_NANOS,
        total matches Some(t) ==> t <= MAX_SPAN_NANOS,
    ensures
        s.load(path, start, baseline, total, now).wf(),
        s.fail().wf(),
        s.elapsed_at(now) <= MAX_SPAN_NANOS ==> s.pause(now).wf(),
        s.resume(now).wf(),
        s.stop().wf(),
        s.halt().wf(),
{
}

/// The state that each operation leads to. A started load plays and one
/// that was not started is paused; a failed load is idle; with an output
/// held, a resume plays and a stop is stopped; a pause and the end of a
/// track leave the clock standing.
pub proof fn phase_after_operation(
    s: Session,
    path: Seq<char>,
    start: bool,
    baseline: nat,
    total: Option<nat>,
    now: u64,
)
    ensures
        s.load(path, start, baseline, total, now).phase() == if start {
            Phase::Playing
        } else {
            Phase::Paused
        },
        s.fail().phase() == Phase::Idle,
        s.sink is Some ==> s.resume(now).phase() == Phase::Playing,
        s.sink is Some ==> s.stop().phase() == Phase::Stopped,
        s.pause(now).phase() != Phase::Playing,
        s.halt().phase() != Phase::Playing,
        s.sink is None ==> s.pause(now) == s && s.resume(now) == s && s.stop().phase()
            == Phase::Idle,
{
}

/// Only a stop leads into the stopped state: after any other operation a
/// well-formed session is stopped only if it was stopped before.
pub proof fn only_stop_leads_to_stopped(
    s: Session,
    path: Seq<char>,
    start: bool,
    baseline: nat,
    total: Option<nat>,
    now: u64,
)
    requires
        s.wf(),
    ensures
        s.load(path, start, baseline, total, now).phase() != Phase::Stopped,
        s.fail().phase() != Phase::Stopped,
        s.resume(now).phase() != Phase::Stopped,
        s.pause(now).phase() == Phase::Stopped ==> s.phase() == Phase::Stopped,
        s.halt().phase() == Phase::Stopped ==> s.phase() == Phase::Stopped,
{
}

/// Volume and catalog outlive every load, pause, resume, stop and end of
/// track: only the operations that set them change them.
pub proof fn settings_outlive_operations(
    s: Session,
    path: Seq<char>,
    start: bool,
    baseline: nat,
    total: Option<nat>,
    now: u64,
)
    ensures
        s.load(path, start, baseline, total, now).volume == s.volume,
        s.load(path, start, baseline, total, now).catalog == s.catalog,
        s.fail().volume == s.volume && s.fail().catalog == s.catalog,
        s.pause(now).volume == s.volume && s.pause(now).catalog == s.catalog,
        s.resume(now).volume == s.volume && s.resume(now).catalog == s.catalog,
        s.stop().volume == s.volume && s.stop().catalog == s.catalog,
        s.halt().volume == s.volume && s.halt().catalog == s.catalog,
{
}

/// When the end of a track was seen and the load of the entry after it has
/// completed at `now`, the session plays that entry from the top: a query at
/// `now` finds the position zero.
pub proof fn advance_plays_next_from_the_top(
    s: Session,
    queue_len: usize,
    total: Option<nat>,
    now: u64,
)
    requires
        s.ended(queue_len),
        s.next_path() is Some,
    ensures
        ({
            let after = s.halt().load(s.next_path()->0, true, 0, total, now);
            &&& after.current == s.next_path()
            &&& after.phase() == Phase::Playing
            &&& after.elapsed_at(now) == 0
            &&& after.total_duration == total
        }),
{
}

/// Once the end of a track was seen the clock stands, so no later report of
/// an empty queue counts as an end again.
pub proof fn end_is_seen_once(s: Session, queue_len: usize)
    ensures
        !s.halt().ended(queue_len),
{
}

} // verus!
