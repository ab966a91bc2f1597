use vstd::prelude::*;
use crate::models::{
    copy_text, copy_tracks, AudioState, LoadRequest, MusicFile, Phase, PlaybackError,
    SinkCommand, SinkState, DEFAULT_VOLUME_BITS, MAX_SPAN_NANOS,
};
use crate::session::{paths_of, span, Session};

verus! {

/// A duration in nanoseconds as the mathematical number it stands for.
pub open spec fn as_span(t: Option<u128>) -> Option<nat> {
    match t {
        Some(t) => Some(t as nat),
        None => None,
    }
}

/// The request to play `path` from the top at `volume`.
fn play_request(path: String, volume: u32) -> (r: LoadRequest)
    ensures
        r.plays(path@, volume),
        r.wf(),
{
    LoadRequest { path, volume, seek_to: None, start: true }
}

/// The nanoseconds from `start` to `now`, nothing if `now` is earlier.
fn span_between(start: u64, now: u64) -> (r: u64)
    ensures
        r == span(start, now),
{
    if now >= start {
        now - start
    } else {
        0
    }
}

/// The index at which `path` first occurs among the paths of `tracks`:
/// the entry there has the path and none before it has; where no entry has
/// the path there is no index.
pub fn find_track(tracks: &Vec<MusicFile>, path: &String) -> (r: Option<usize>)
    ensures
        match r {
            Some(i) => {
                &&& i < tracks.len()
                &&& tracks@[i as int].path@ == path@
                &&& forall|j: int| 0 <= j < i ==> tracks@[j].path@ != path@
            },
            None => forall|j: int| 0 <= j < tracks.len() ==> tracks@[j].path@ != path@,
        },
        paths_of(tracks@).index_of_first(path@) == match r {
            Some(i) => Some(i as int),
            None => None::<int>,
        },
{
    let ghost paths = paths_of(tracks@);
    let mut i: usize = 0;
    while i < tracks.len()
        invariant
            i <= tracks.len(),
            paths == paths_of(tracks@),
            forall|j: int| 0 <= j < i ==> tracks@[j].path@ != path@,
        decreases tracks.len() - i,
    {
        if tracks[i].path == *path {
            proof {
                assert(paths[i as int] == path@);
                assert forall|j: int| 0 <= j < i implies paths[j] != path@ by {
                    assert(paths[j] == tracks@[j].path@);
                }
                paths.index_of_first_ensures(path@);
            }
            return Some(i);
        }
        i = i + 1;
    }
    proof {
        assert forall|j: int| 0 <= j < paths.len() implies paths[j] != path@ by {
            assert(paths[j] == tracks@[j].path@);
        }
        paths.index_of_first_ensures(path@);
    }
    None
}

impl AudioState {
    /// A session with nothing loaded, an empty catalog and the default
    /// volume.
    pub fn new() -> (state: AudioState)
        ensures
            state@ == Session::initial(DEFAULT_VOLUME_BITS),
            state@.wf(),
            state@.phase() == Phase::Idle,
    {
        let state = AudioState {
            sink: None,
            current_track: None,
            tracks: Vec::new(),
            volume: DEFAULT_VOLUME_BITS,
            playback_start: None,
            paused_elapsed: 0,
            total_duration: None,
        };
        assert(state@.catalog =~= Seq::empty());
        state
    }

    /// Whether the session is one that the operations produce: the test to
    /// make on a session that was put together by hand.
    pub fn is_well_formed(&self) -> (r: bool)
        ensures
            r == self@.wf(),
    {
        let held = self.sink.is_some();
        let loaded = self.current_track.is_some();
        let clock_ok = match self.playback_start {
            Some(_) => match self.sink {
                Some(sink) => !sink.paused && !sink.stopped,
                None => false,
            },
            None => true,
        };
        let total_ok = match self.total_duration {
            Some(t) => t <= MAX_SPAN_NANOS,
            None => true,
        };
        held == loaded && clock_ok && self.paused_elapsed <= MAX_SPAN_NANOS && total_ok
    }

    /// Whether a pause at `now` keeps the accumulated time within what a
    /// duration can hold: the test to make before `pause_music`.
    pub fn can_pause(&self, now: u64) -> (r: bool)
        ensures
            r == (self@.wf() && self@.elapsed_at(now) <= MAX_SPAN_NANOS),
    {
        if !self.is_well_formed() {
            return false;
        }
        match self.playback_start {
            Some(start) => self.paused_elapsed + span_between(start, now) as u128
                <= MAX_SPAN_NANOS,
            None => true,
        }
    }

    /// The logical state of the session.
    pub fn phase(&self) -> (r: Phase)
        ensures
            r == self@.phase(),
    {
        match self.sink {
            None => Phase::Idle,
            Some(sink) => {
                if self.playback_start.is_some() {
                    Phase::Playing
                } else if sink.stopped {
                    Phase::Stopped
                } else {
                    Phase::Paused
                }
            },
        }
    }
}

/// Replaces the catalog as a whole. The session itself is left as it is, so
/// the loaded path may no longer occur in the catalog.
pub fn set_tracks(state: &mut AudioState, tracks: Vec<MusicFile>)
    ensures
        final(state).tracks == tracks,
        final(state)@ == old(state)@.with_catalog(paths_of(tracks@)),
        old(state)@.wf() ==> final(state)@.wf(),
{
    state.tracks = tracks;
}

/// Asks for `path` to be opened and played from the top at the session's
/// volume. The session changes only when the outcome is handed to
/// `complete_load`.
pub fn play_music(state: &AudioState, path: String) -> (r: LoadRequest)
    ensures
        r.plays(path@, state.volume),
        r.wf(),
{
    play_request(path, state.volume)
}

/// Takes the outcome of a load into the session at `now`.
///
/// On success the session holds the fresh output and the requested path,
/// accounting starts from the requested offset, and the clock runs exactly
/// if the output was started. On failure no half-loaded session is left:
/// it is idle, without output, loaded path, running clock, accumulated time
/// or track length, and the error is handed on. Catalog and volume stay
/// either way.
pub fn complete_load(
    state: &mut AudioState,
    request: LoadRequest,
    outcome: Result<Option<u128>, PlaybackError>,
    now: u64,
) -> (r: Result<(), PlaybackError>)
    requires
        old(state)@.wf(),
        request.wf(),
        outcome matches Ok(Some(t)) ==> t <= MAX_SPAN_NANOS,
    ensures
        match outcome {
            Ok(total) => r is Ok && final(state)@ == old(state)@.load(
                request.path@,
                request.start,
                request.baseline(),
                as_span(total),
                now,
            ),
            Err(e) => r == Err::<(), PlaybackError>(e) && final(state)@ == old(state)@.fail(),
        },
        final(state).tracks == old(state).tracks,
        final(state)@.wf(),
{
    match outcome {
        Ok(total) => {
            state.sink = Some(SinkState { paused: !request.start, stopped: false });
            state.playback_start = if request.start {
                Some(now)
            } else {
                None
            };
            state.paused_elapsed = match request.seek_to {
                Some(p) => p,
                None => 0,
            };
            state.total_duration = total;
            state.current_track = Some(request.path);
            Ok(())
        },
        Err(e) => {
            state.sink = None;
            state.current_track = None;
            state.playback_start = None;
            state.paused_elapsed = 0;
            state.total_duration = None;
            Err(e)
        },
    }
}

/// Asks for the loaded track to be opened again at `position` nanoseconds.
///
/// Nothing is asked while no track is loaded. Otherwise the new output at
/// the session's volume is started exactly if the one in use was not
/// paused, so that a seek keeps playing what played and keeps silent what
/// was silent.
pub fn seek(state: &AudioState, position: u128) -> (r: Option<LoadRequest>)
    requires
        position <= MAX_SPAN_NANOS,
    ensures
        match state@.current {
            Some(path) => r matches Some(req) && req.path@ == path && req.volume == state.volume
                && req.seek_to == Some(position) && req.start == state@.engaged() && req.wf(),
            None => r is None,
        },
{
    match &state.current_track {
        Some(path) => {
            let was_playing = match state.sink {
                Some(sink) => !sink.paused,
                None => false,
            };
            Some(
                LoadRequest {
                    path: path.clone(),
                    volume: state.volume,
                    seek_to: Some(position),
                    start: was_playing,
                },
            )
        },
        None => None,
    }
}

/// Pauses at `now`.
///
/// Without an output nothing happens. With one, the time played since the
/// last start is folded into the accumulated time and the clock stops; the
/// output is told to pause unless it already was.
pub fn pause_music(state: &mut AudioState, now: u64) -> (r: SinkCommand)
    requires
        old(state)@.wf(),
        old(state)@.elapsed_at(now) <= MAX_SPAN_NANOS,
    ensures
        final(state)@ == old(state)@.pause(now),
        r == if old(state)@.engaged() {
            SinkCommand::Pause
        } else {
            SinkCommand::Nothing
        },
        final(state).tracks == old(state).tracks,
        final(state)@.wf(),
{
    match state.sink {
        Some(sink) => {
            if let Some(start) = state.playback_start {
                state.paused_elapsed = state.paused_elapsed + span_between(start, now) as u128;
                state.playback_start = None;
            }
            state.sink = Some(SinkState { paused: true, stopped: sink.stopped });
            if sink.paused {
                SinkCommand::Nothing
            } else {
                SinkCommand::Pause
            }
        },
        None => SinkCommand::Nothing,
    }
}

/// Resumes at `now`, given how many sources the output still has queued.
///
/// Without an output nothing happens. An output that ran out of audio is
/// not woken: the loaded track is asked for again from the top, and the
/// session changes only when that load completes. Otherwise the output is
/// told to play and the clock starts at `now`; the accumulated time stays.
///
/// Only the queue decides between the two, also after a stop: a stopped
/// output that has not yet emptied its queue is woken like any other.
pub fn resume_music(state: &mut AudioState, now: u64, queue_len: usize) -> (r: SinkCommand)
    requires
        old(state)@.wf(),
    ensures
        final(state)@ == if old(state)@.sink is Some && queue_len > 0 {
            old(state)@.resume(now)
        } else {
            old(state)@
        },
        old(state)@.sink is None ==> r == SinkCommand::Nothing,
        old(state)@.sink is Some && queue_len > 0 ==> r == SinkCommand::Play,
        old(state)@.sink is Some && queue_len == 0 ==> (r matches SinkCommand::Load(req)
            && req.plays(old(state)@.current->0, old(state).volume)),
        final(state).tracks == old(state).tracks,
        final(state)@.wf(),
{
    if state.sink.is_some() {
        if queue_len == 0 {
            match &state.current_track {
                Some(path) => SinkCommand::Load(play_request(path.clone(), state.volume)),
                None => SinkCommand::Nothing,
            }
        } else {
            state.sink = Some(SinkState { paused: false, stopped: false });
            state.playback_start = Some(now);
            SinkCommand::Play
        }
    } else {
        SinkCommand::Nothing
    }
}

/// Stops: the clock stops and the accumulated time is zero. The output, if
/// there is one, is kept and told to stop, not released; the loaded path
/// stays, so that a later resume or seek can open the track again.
pub fn stop_music(state: &mut AudioState) -> (r: SinkCommand)
    requires
        old(state)@.wf(),
    ensures
        final(state)@ == old(state)@.stop(),
        r == if old(state)@.sink is Some {
            SinkCommand::Stop
        } else {
            SinkCommand::Nothing
        },
        final(state).tracks == old(state).tracks,
        final(state)@.wf(),
{
    state.playback_start = None;
    state.paused_elapsed = 0;
    match state.sink {
        Some(sink) => {
            state.sink = Some(SinkState { paused: sink.paused, stopped: true });
            SinkCommand::Stop
        },
        None => SinkCommand::Nothing,
    }
}

/// The path of the loaded track.
pub fn get_current_track(state: &AudioState) -> (r: Option<String>)
    ensures
        r == state.current_track,
{
    copy_text(&state.current_track)
}

/// The catalog entry of the loaded track: the first one with its path.
pub fn get_current_track_info(state: &AudioState) -> (r: Option<MusicFile>)
    ensures
        match state@.current_index() {
            Some(i) => r == Some(state.tracks@[i]),
            None => r is None,
        },
{
    match &state.current_track {
        Some(path) => {
            proof {
                paths_of(state.tracks@).index_of_first_ensures(path@);
            }
            match find_track(&state.tracks, path) {
                Some(i) => Some(state.tracks[i].duplicate()),
                None => None,
            }
        },
        None => None,
    }
}

/// Whether audio is coming out: an output is held, it was not told to
/// pause, and it still has a source queued.
pub fn is_playing(state: &AudioState, queue_len: usize) -> (r: bool)
    ensures
        r == (state@.engaged() && queue_len > 0),
{
    match state.sink {
        Some(sink) => !sink.paused && queue_len > 0,
        None => false,
    }
}

/// The catalog, in order.
pub fn list_music(state: &AudioState) -> (r: Vec<MusicFile>)
    ensures
        r@ == state.tracks@,
{
    copy_tracks(&state.tracks)
}

/// Sets the volume, unclamped. It is stored for the outputs to come and
/// handed to the one in use.
pub fn set_volume(state: &mut AudioState, volume: u32) -> (r: SinkCommand)
    ensures
        final(state)@ == old(state)@.with_volume(volume),
        r == if old(state)@.sink is Some {
            SinkCommand::SetVolume(volume)
        } else {
            SinkCommand::Nothing
        },
        final(state).tracks == old(state).tracks,
        old(state)@.wf() ==> final(state)@.wf(),
{
    state.volume = volume;
    if state.sink.is_some() {
        SinkCommand::SetVolume(volume)
    } else {
        SinkCommand::Nothing
    }
}

/// The stored volume.
pub fn get_volume(state: &AudioState) -> (r: u32)
    ensures
        r == state@.volume,
{
    state.volume
}

/// The position at `now`, the track's length, and the command that follows
/// from what the output reported.
///
/// The position is that of the session as it was found. If the output ran
/// out of audio while the clock was running, the track has ended: the clock
/// stops, and the track after the loaded one, if the catalog has one, is
/// asked for.
pub fn get_playback_position(state: &mut AudioState, now: u64, queue_len: usize) -> (r: (
    u128,
    Option<u128>,
    SinkCommand,
))
    requires
        old(state)@.wf(),
    ensures
        r.0 == old(state)@.elapsed_at(now),
        r.1 == old(state).total_duration,
        final(state)@ == if old(state)@.ended(queue_len) {
            old(state)@.halt()
        } else {
            old(state)@
        },
        match old(state)@.next_path() {
            Some(path) => if old(state)@.ended(queue_len) {
                r.2 matches SinkCommand::Load(req) && req.plays(path, old(state).volume)
            } else {
                r.2 == SinkCommand::Nothing
            },
            None => r.2 == SinkCommand::Nothing,
        },
        final(state).tracks == old(state).tracks,
        final(state)@.wf(),
{
    let elapsed: u128 = match state.playback_start {
        Some(start) => state.paused_elapsed + span_between(start, now) as u128,
        None => state.paused_elapsed,
    };
    let total = state.total_duration;
    let mut command = SinkCommand::Nothing;
    if state.sink.is_some() && queue_len == 0 && state.playback_start.is_some() {
        if let Some(request) = play_next(state) {
            command = SinkCommand::Load(request);
        }
        state.playback_start = None;
    }
    (elapsed, total, command)
}

/// Asks for the track after the loaded one. Nothing is asked where the
/// loaded path is not in the catalog or is its last entry.
pub fn play_next(state: &AudioState) -> (r: Option<LoadRequest>)
    ensures
        match state@.next_path() {
            Some(path) => r matches Some(req) && req.plays(path, state.volume) && req.wf(),
            None => r is None,
        },
{
    match &state.current_track {
        Some(path) => match find_track(&state.tracks, path) {
            Some(i) => {
                if i < state.tracks.len() - 1 {
                    Some(play_request(state.tracks[i + 1].path.clone(), state.volume))
                } else {
                    None
                }
            },
            None => None,
        },
        None => None,
    }
}

/// Asks for the track before the loaded one. Nothing is asked where the
/// loaded path is not in the catalog or is its first entry.
pub fn play_previous(state: &AudioState) -> (r: Option<LoadRequest>)
    ensures
        match state@.previous_path() {
            Some(path) => r matches Some(req) && req.plays(path, state.volume) && req.wf(),
            None => r is None,
        },
{
    match &state.current_track {
        Some(path) => match find_track(&state.tracks, path) {
            Some(i) => {
                if i > 0 {
                    Some(play_request(state.tracks[i - 1].path.clone(), state.volume))
                } else {
                    None
                }
            },
            None => None,
        },
        None => None,
    }
}

} // verus!
