use vstd::prelude::*;

verus! {

/// The longest span of time, in nanoseconds, that the session accounts for:
/// what a `std::time::Duration` can hold.
pub const MAX_SPAN_NANOS: u128 = 18_446_744_073_709_551_615_999_999_999;

/// The linear gain 0.5 as the bit pattern of an `f32`: the volume of a new
/// session.
pub const DEFAULT_VOLUME_BITS: u32 = 0x3F00_0000;

/// One track of the library. The path identifies it; the tags are absent
/// where the file gave none.
#[derive(Clone, Debug, PartialEq, Eq)]
pub struct MusicFile {
    pub path: String,
    pub name: String,
    pub artist: Option<String>,
    pub album: Option<String>,
    pub title: Option<String>,
    pub thumbnail: Option<String>,
}

/// A folder that was indexed, as the persistent store records it.
#[derive(Clone, Debug, PartialEq, Eq)]
pub struct IndexedFolder {
    pub id: i64,
    pub path: String,
    pub last_indexed: String,
}

/// What the session knows of its audio output: the commands it last gave.
#[derive(Clone, Copy, Debug, PartialEq, Eq, Structural)]
pub struct SinkState {
    /// The output was told to pause and not yet to play again.
    pub paused: bool,
    /// The output was told to stop: its queue is being emptied.
    pub stopped: bool,
}

/// Why a track could not be loaded.
#[derive(Clone, Copy, Debug, PartialEq, Eq, Structural)]
pub enum PlaybackError {
    /// The file is missing or unreadable.
    IoError,
    /// The container or codec is unsupported or corrupt.
    DecodeError,
    /// The output device is unavailable or lost.
    DeviceError,
}

/// The logical state of a session.
#[derive(Clone, Copy, Debug, PartialEq, Eq, Structural)]
pub enum Phase {
    /// No output is held.
    Idle,
    /// An output is held and time is running.
    Playing,
    /// An output is held and time stands still.
    Paused,
    /// An output is held, was told to stop, and time stands still.
    Stopped,
}

/// A track to open: discard the output in use, decode `path` into a new
/// output at `volume`, skip to `seek_to` as far as the decoder can, and let
/// it play only if `start` is set.
#[derive(Clone, Debug, PartialEq, Eq)]
pub struct LoadRequest {
    pub path: String,
    /// Linear gain, as the bit pattern of an `f32`.
    pub volume: u32,
    /// Offset into the track, in nanoseconds; absent to play from the top.
    pub seek_to: Option<u128>,
    pub start: bool,
}

/// What the audio output has to do after an operation on the session.
#[derive(Clone, Debug, PartialEq, Eq)]
pub enum SinkCommand {
    Nothing,
    Pause,
    Play,
    Stop,
    /// Linear gain, as the bit pattern of an `f32`.
    SetVolume(u32),
    Load(LoadRequest),
}

/// The playback session together with the catalog it plays from.
#[derive(Clone, Debug, PartialEq, Eq)]
pub struct AudioState {
    /// The output in use, absent while nothing is loaded.
    pub sink: Option<SinkState>,
    /// The path of the loaded track.
    pub current_track: Option<String>,
    /// The catalog; its order defines "next" and "previous".
    pub tracks: Vec<MusicFile>,
    /// Linear gain, as the bit pattern of an `f32`.
    pub volume: u32,
    /// The instant, in nanoseconds of a monotonic clock, at which playing
    /// last began; absent while paused, stopped or idle.
    pub playback_start: Option<u64>,
    /// Nanoseconds played before `playback_start`.
    pub paused_elapsed: u128,
    /// The length of the loaded track in nanoseconds, where the decoder
    /// knows it.
    pub total_duration: Option<u128>,
}

impl LoadRequest {
    /// The position that time accounting starts from once the track is open.
    pub open spec fn baseline(self) -> nat {
        match self.seek_to {
            Some(p) => p as nat,
            None => 0,
        }
    }

    /// The offset, if any, is one that a duration can hold.
    pub open spec fn wf(self) -> bool {
        self.baseline() <= MAX_SPAN_NANOS
    }

    /// Whether the offset, if any, is one that a duration can hold.
    pub fn is_well_formed(&self) -> (r: bool)
        ensures
            r == self.wf(),
    {
        match self.seek_to {
            Some(p) => p <= MAX_SPAN_NANOS,
            None => true,
        }
    }

    /// This request plays `path` from the top at `volume`.
    pub open spec fn plays(self, path: Seq<char>, volume: u32) -> bool {
        &&& self.path@ == path
        &&& self.volume == volume
        &&& self.seek_to is None
        &&& self.start
    }
}

impl MusicFile {
    /// A copy of this track.
    pub fn duplicate(&self) -> (r: MusicFile)
        ensures
            r == *self,
    {
        MusicFile {
            path: self.path.clone(),
            name: self.name.clone(),
            artist: copy_text(&self.artist),
            album: copy_text(&self.album),
            title: copy_text(&self.title),
            thumbnail: copy_text(&self.thumbnail),
        }
    }
}

/// A copy of an optional string.
pub fn copy_text(text: &Option<String>) -> (r: Option<String>)
    ensures
        r == *text,
{
    match text {
        Some(s) => Some(s.clone()),
        None => None,
    }
}

/// A copy of a list of tracks, in the same order.
pub fn copy_tracks(tracks: &Vec<MusicFile>) -> (r: Vec<MusicFile>)
    ensures
        r@ == tracks@,
{
    let mut out: Vec<MusicFile> = Vec::new();
    let mut i: usize = 0;
    while i < tracks.len()
        invariant
            i <= tracks.len(),
            out@ == tracks@.take(i as int),
        decreases tracks.len() - i,
    {
        out.push(tracks[i].duplicate());
        assert(tracks@.take(i as int).push(tracks@[i as int]) =~= tracks@.take(i + 1));
        i = i + 1;
    }
    assert(tracks@.take(tracks@.len() as int) =~= tracks@);
    out
}

} // verus!
