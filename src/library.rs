//! The music library: its tracks, how a track is recorded, the configured
//! media folder, and the size of that folder.

use vstd::prelude::*;
use crate::model::{LibraryError, Track, TrackView};
use crate::text::{format_duration, format_size, probed_duration_text, size_text};

verus! {

pub open spec fn track_views(s: Seq<Track>) -> Seq<TrackView> {
    s.map_values(|t: Track| t@)
}

/// The duration recorded for a track whose probe gave `probe`: the probed
/// frame count and sample rate, or nothing when the file could not be probed.
pub open spec fn recorded_duration(probe: Option<(Option<u64>, Option<u32>)>) -> Seq<char> {
    match probe {
        Some((frames, rate)) => probed_duration_text(frames, rate),
        None => seq!['0', '0', ':', '0', '0'],
    }
}

/// The duration text of a track. A failed probe is no error: the track gets
/// a zero duration.
pub fn track_duration(probe: Option<(Option<u64>, Option<u32>)>) -> (r: String)
    ensures
        r@ == recorded_duration(probe),
{
    match probe {
        Some((frames, rate)) => format_duration(frames, rate),
        None => {
            proof {
                reveal_strlit("00:00");
            }
            String::from_str("00:00")
        },
    }
}

impl Track {
    /// A copy of this track.
    pub fn duplicate(&self) -> (r: Track)
        ensures
            r@ == self@,
    {
        Track {
            title: self.title.clone(),
            artist: self.artist.clone(),
            duration: self.duration.clone(),
            path: self.path.clone(),
        }
    }
}

/// The tracks of the library, in order of ingestion.
pub struct Library {
    tracks: Vec<Track>,
}

impl View for Library {
    type V = Seq<TrackView>;

    closed spec fn view(&self) -> Seq<TrackView> {
        track_views(self.tracks@)
    }
}

impl Library {
    /// An empty library.
    pub fn new() -> (r: Self)
        ensures
            r@ == Seq::<TrackView>::empty(),
    {
        let r = Library { tracks: Vec::new() };
        assert(r@ =~= Seq::<TrackView>::empty());
        r
    }

    /// The library that holds `tracks`, in their order.
    pub fn from_vec(tracks: Vec<Track>) -> (r: Self)
        ensures
            r@ == track_views(tracks@),
    {
        Library { tracks }
    }

    /// The tracks, in order of ingestion.
    pub fn into_vec(self) -> (r: Vec<Track>)
        ensures
            track_views(r@) == self@,
    {
        self.tracks
    }

    /// The tracks, in order of ingestion.
    pub fn list(&self) -> (r: &Vec<Track>)
        ensures
            track_views(r@) == self@,
    {
        &self.tracks
    }

    /// Records a track whose file now lies at `path` inside the media folder,
    /// at the end of the library, and returns it. `probe` is what probing the
    /// file gave, or nothing when it failed.
    pub fn ingest(
        &mut self,
        title: String,
        artist: String,
        path: String,
        probe: Option<(Option<u64>, Option<u32>)>,
    ) -> (r: Track)
        ensures
            r@ == (TrackView {
                title: title@,
                artist: artist@,
                duration: recorded_duration(probe),
                path: path@,
            }),
            final(self)@ == old(self)@.push(r@),
    {
        let duration = track_duration(probe);
        let track = Track { title, artist, duration, path };
        let r = track.duplicate();
        self.tracks.push(track);
        assert(self@ =~= old(self)@.push(r@));
        r
    }
}

/// The media folder that the settings hold, or `NotConfigured` when none was chosen.
pub fn configured_folder(setting: Option<String>) -> (r: Result<String, LibraryError>)
    ensures
        match setting {
            Some(f) => r == Ok::<String, LibraryError>(f),
            None => r == Err::<String, LibraryError>(LibraryError::NotConfigured),
        },
{
    match setting {
        Some(f) => Ok(f),
        None => Err(LibraryError::NotConfigured),
    }
}

/// An entry met while walking the media folder.
#[derive(Clone, Copy, Debug, PartialEq, Eq, Structural)]
pub struct FolderEntry {
    /// Whether the entry is a regular file.
    pub is_file: bool,
    /// Its size in bytes.
    pub len: u64,
}

/// The sum of the sizes of the regular files among `entries`.
pub open spec fn files_size(entries: Seq<FolderEntry>) -> nat
    decreases entries.len(),
{
    if entries.len() == 0 {
        0
    } else {
        files_size(entries.drop_last()) + if entries.last().is_file { entries.last().len as nat } else { 0 }
    }
}

/// The sum of the sizes of the regular files among `entries`, held at
/// `u64::MAX` should it go beyond.
pub fn total_file_size(entries: &Vec<FolderEntry>) -> (r: u64)
    ensures
        r as nat == if files_size(entries@) <= u64::MAX { files_size(entries@) } else { u64::MAX as nat },
{
    let mut total: u64 = 0;
    let mut i: usize = 0;
    while i < entries.len()
        invariant
            i <= entries@.len(),
            total as nat == if files_size(entries@.take(i as int)) <= u64::MAX {
                files_size(entries@.take(i as int))
            } else {
                u64::MAX as nat
            },
        decreases entries@.len() - i,
    {
        let e = entries[i];
        assert(entries@.take(i as int + 1).drop_last() =~= entries@.take(i as int));
        if e.is_file {
            total = total.saturating_add(e.len);
        }
        i = i + 1;
    }
    assert(entries@.take(i as int) =~= entries@);
    total
}

/// The size of the media folder as text, from the entries met while walking it.
pub fn folder_size_text(entries: &Vec<FolderEntry>) -> (r: String)
    ensures
        r@ == size_text(if files_size(entries@) <= u64::MAX { files_size(entries@) } else { u64::MAX as nat }),
{
    format_size(total_file_size(entries))
}

} // verus!
