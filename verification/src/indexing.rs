use vstd::prelude::*;
use vstd::seq_lib::seq_to_set_is_finite;
use vstd::set::axiom_set_insert_len;
use crate::models::{copy_text, MusicFile};

verus! {

/// The lowercase form of a text, as std's `str::to_lowercase` computes it
/// from the Unicode tables.
pub uninterp spec fn lowercase(text: Seq<char>) -> Seq<char>;

/// std's `str::to_lowercase`: the result is the lowercase form of the
/// argument, which depends on the argument alone. Nothing else is claimed
/// of it.
#[verifier::external_body]
fn to_lowercase(text: &str) -> (r: String)
    ensures
        r@ == lowercase(text@),
{
    text.to_lowercase()
}

/// The extensions of the audio files that the player takes in.
pub open spec fn supported(extension: Seq<char>) -> bool {
    ||| extension == "mp3"@
    ||| extension == "wav"@
    ||| extension == "flac"@
    ||| extension == "ogg"@
}

/// Whether two texts are the same.
fn same_text(a: &str, b: &str) -> (r: bool)
    ensures
        r == (a@ == b@),
{
    a.to_owned() == b.to_owned()
}

/// Whether `extension`, as it is written, is one of the supported ones.
pub fn is_supported_extension(extension: &str) -> (r: bool)
    ensures
        r == supported(extension@),
{
    same_text(extension, "mp3") || same_text(extension, "wav") || same_text(extension, "flac")
        || same_text(extension, "ogg")
}

/// Whether a directory entry is an audio file: a regular file whose
/// extension, in lowercase, is a supported one. An entry without an
/// extension, or with one that is not text, is none.
pub fn is_audio_file(is_file: bool, extension: Option<&str>) -> (r: bool)
    ensures
        r == match extension {
            Some(e) => is_file && supported(lowercase(e@)),
            None => false,
        },
{
    match extension {
        Some(e) => {
            if is_file {
                let lower = to_lowercase(e);
                is_supported_extension(lower.as_str())
            } else {
                false
            }
        },
        None => false,
    }
}

/// The tags read from a file: artist, album and title, each absent where
/// the file has none.
pub struct TrackTags {
    pub artist: Option<String>,
    pub album: Option<String>,
    pub title: Option<String>,
}

/// The tags that describe a file: those of its primary tag, or else those
/// of the first tag it has.
pub fn pick_tags(primary: Option<TrackTags>, first: Option<TrackTags>) -> (r: Option<TrackTags>)
    ensures
        r == if primary is Some {
            primary
        } else {
            first
        },
{
    match primary {
        Some(tags) => Some(tags),
        None => first,
    }
}

/// The descriptor of a scanned file. Where the tags could not be read the
/// three fields are absent; a scanned file has no thumbnail.
pub fn describe_track(path: String, name: String, tags: Option<TrackTags>) -> (r: MusicFile)
    ensures
        r.path == path,
        r.name == name,
        r.thumbnail is None,
        match tags {
            Some(t) => r.artist == t.artist && r.album == t.album && r.title == t.title,
            None => r.artist is None && r.album is None && r.title is None,
        },
{
    match tags {
        Some(t) => MusicFile {
            path,
            name,
            artist: t.artist,
            album: t.album,
            title: t.title,
            thumbnail: None,
        },
        None => MusicFile { path, name, artist: None, album: None, title: None, thumbnail: None },
    }
}

/// One entry of a folder walk: its full path, its file name, whether it is
/// a regular file, and its extension where it has one that is text.
#[derive(Debug, PartialEq, Eq)]
pub struct FileEntry {
    pub path: String,
    pub name: String,
    pub is_file: bool,
    pub extension: Option<String>,
}

impl FileEntry {
    /// The entry is an audio file.
    pub open spec fn is_audio(self) -> bool {
        self.is_file && match self.extension {
            Some(e) => supported(lowercase(e@)),
            None => false,
        }
    }

    /// A copy of this entry.
    pub fn duplicate(&self) -> (r: FileEntry)
        ensures
            r == *self,
    {
        FileEntry {
            path: self.path.clone(),
            name: self.name.clone(),
            is_file: self.is_file,
            extension: copy_text(&self.extension),
        }
    }
}

/// The audio files among the entries of a folder walk, in the order of the
/// walk.
pub fn audio_files(entries: &Vec<FileEntry>) -> (r: Vec<FileEntry>)
    ensures
        r@ == entries@.filter(|e: FileEntry| e.is_audio()),
{
    let ghost wanted = |e: FileEntry| e.is_audio();
    let mut out: Vec<FileEntry> = Vec::new();
    let mut i: usize = 0;
    assert(entries@.take(0).filter(wanted) =~= Seq::<FileEntry>::empty());
    while i < entries.len()
        invariant
            i <= entries.len(),
            wanted == |e: FileEntry| e.is_audio(),
            out@ == entries@.take(i as int).filter(wanted),
        decreases entries.len() - i,
    {
        let entry = &entries[i];
        let extension: Option<&str> = match &entry.extension {
            Some(e) => Some(e.as_str()),
            None => None,
        };
        proof {
            assert(entries@.take(i + 1) =~= entries@.take(i as int).push(*entry));
            entries@.take(i as int).lemma_filter_push(*entry, wanted);
        }
        if is_audio_file(entry.is_file, extension) {
            out.push(entry.duplicate());
        }
        i = i + 1;
    }
    assert(entries@.take(entries@.len() as int) =~= entries@);
    out
}

/// The texts of a list of strings, in order.
pub open spec fn texts(list: Seq<String>) -> Seq<Seq<char>> {
    Seq::new(list.len(), |i: int| list[i]@)
}

/// A folder has changed on disk: the number of distinct audio files found
/// is not the number stored, or some stored path is not among the files
/// found.
pub open spec fn differs(current: Seq<Seq<char>>, stored_count: int, stored: Seq<Seq<char>>) -> bool {
    ||| current.to_set().len() != stored_count
    ||| exists|i: int| 0 <= i < stored.len() && !current.contains(#[trigger] stored[i])
}

/// A folder whose stored paths are pairwise different and are, as a set,
/// the audio files found on disk has not changed, in whatever order the
/// store hands the paths out.
pub proof fn unchanged_when_store_matches(current: Seq<Seq<char>>, stored: Seq<Seq<char>>)
    requires
        stored.no_duplicates(),
        stored.to_set() == current.to_set(),
    ensures
        !differs(current, stored.len() as int, stored),
{
    stored.unique_seq_to_set();
    assert forall|i: int| 0 <= i < stored.len() implies current.contains(#[trigger] stored[i]) by {
        assert(stored.to_set().contains(stored[i]));
    }
}

/// Whether `path` occurs among the first `upto` entries of `list`.
fn occurs_before(list: &Vec<String>, upto: usize, path: &String) -> (r: bool)
    requires
        upto <= list.len(),
    ensures
        r == texts(list@).take(upto as int).contains(path@),
{
    let ghost head = texts(list@).take(upto as int);
    let mut i: usize = 0;
    while i < upto
        invariant
            i <= upto <= list.len(),
            head == texts(list@).take(upto as int),
            forall|j: int| 0 <= j < i ==> head[j] != path@,
        decreases upto - i,
    {
        if list[i] == *path {
            assert(head[i as int] == path@);
            return true;
        }
        i = i + 1;
    }
    false
}

/// The number of distinct texts in `list`.
pub fn count_distinct(list: &Vec<String>) -> (r: usize)
    ensures
        r == texts(list@).to_set().len(),
{
    let ghost all = texts(list@);
    let mut count: usize = 0;
    let mut i: usize = 0;
    assert(all.take(0).to_set() =~= Set::<Seq<char>>::empty());
    while i < list.len()
        invariant
            i <= list.len(),
            all == texts(list@),
            count <= i,
            count == all.take(i as int).to_set().len(),
        decreases list.len() - i,
    {
        let seen = occurs_before(list, i, &list[i]);
        proof {
            let head = all.take(i as int);
            let item = all[i as int];
            assert(all.take(i + 1) =~= head.push(item));
            head.lemma_push_to_set_commute(item);
            seq_to_set_is_finite(head);
            axiom_set_insert_len(head.to_set(), item);
            assert(head.to_set().contains(item) == head.contains(item));
        }
        if !seen {
            count = count + 1;
        }
        i = i + 1;
    }
    assert(all.take(list@.len() as int) =~= all);
    count
}

/// Whether a folder has changed on disk, from the audio files found in it
/// now and from what the store holds of it: the number of its tracks and
/// their paths.
pub fn folder_changed(
    current_files: &Vec<String>,
    stored_count: i64,
    stored_paths: &Vec<String>,
) -> (r: bool)
    ensures
        r == differs(texts(current_files@), stored_count as int, texts(stored_paths@)),
{
    let ghost current = texts(current_files@);
    let ghost stored = texts(stored_paths@);
    let found = count_distinct(current_files);
    if stored_count < 0 || found as u64 != stored_count as u64 {
        return true;
    }
    let mut i: usize = 0;
    while i < stored_paths.len()
        invariant
            i <= stored_paths.len(),
            current == texts(current_files@),
            stored == texts(stored_paths@),
            forall|j: int| 0 <= j < i ==> current.contains(#[trigger] stored[j]),
        decreases stored_paths.len() - i,
    {
        let known = occurs_before(current_files, current_files.len(), &stored_paths[i]);
        assert(current.take(current_files@.len() as int) =~= current);
        if !known {
            assert(!current.contains(stored[i as int]));
            return true;
        }
        i = i + 1;
    }
    false
}

} // verus!
