//! The records kept by the library and the playlists, with their views.

use vstd::prelude::*;

verus! {

/// What can go wrong in an operation on the library or the playlists.
#[derive(Debug, Clone, Copy, PartialEq, Eq, Structural)]
pub enum LibraryError {
    /// No media folder has been configured.
    NotConfigured,
    /// No playlist has the requested id.
    NotFound,
    /// The cover source could not be decoded as an image.
    DecodeFailed,
    /// The normalized cover could not be encoded or written.
    EncodeFailed,
    /// An audio file could not be copied into the media folder.
    CopyFailed,
    /// A document store could not be read or written.
    StoreFailed,
}

/// A track of the library. Its identity is its path.
pub struct Track {
    pub title: String,
    pub artist: String,
    /// Zero-padded `mm:ss`.
    pub duration: String,
    /// Absolute path of the file inside the media folder.
    pub path: String,
}

pub struct TrackView {
    pub title: Seq<char>,
    pub artist: Seq<char>,
    pub duration: Seq<char>,
    pub path: Seq<char>,
}

impl View for Track {
    type V = TrackView;

    open spec fn view(&self) -> TrackView {
        TrackView {
            title: self.title@,
            artist: self.artist@,
            duration: self.duration@,
            path: self.path@,
        }
    }
}

/// One place of a playlist: a rank and the path of the track there.
pub struct PlaylistEntry {
    pub position: u64,
    pub track_path: String,
}

impl View for PlaylistEntry {
    /// The position and the track path.
    type V = (int, Seq<char>);

    open spec fn view(&self) -> (int, Seq<char>) {
        (self.position as int, self.track_path@)
    }
}

/// A user playlist.
pub struct Playlist {
    /// Creation time in milliseconds since the epoch, in decimal.
    pub id: String,
    pub name: String,
    /// File name of the cover image inside the media folder, if there is one.
    pub cover_asset: Option<String>,
    pub entries: Vec<PlaylistEntry>,
}

pub struct PlaylistView {
    pub id: Seq<char>,
    pub name: Seq<char>,
    pub cover_asset: Option<Seq<char>>,
    pub entries: Seq<(int, Seq<char>)>,
}

pub open spec fn opt_str_view(o: Option<String>) -> Option<Seq<char>> {
    match o {
        Some(s) => Some(s@),
        None => None,
    }
}

pub open spec fn entry_views(s: Seq<PlaylistEntry>) -> Seq<(int, Seq<char>)> {
    s.map_values(|e: PlaylistEntry| e@)
}

pub open spec fn str_views(s: Seq<String>) -> Seq<Seq<char>> {
    s.map_values(|x: String| x@)
}

impl View for Playlist {
    type V = PlaylistView;

    open spec fn view(&self) -> PlaylistView {
        PlaylistView {
            id: self.id@,
            name: self.name@,
            cover_asset: opt_str_view(self.cover_asset),
            entries: entry_views(self.entries@),
        }
    }
}

/// The entries that list `paths` in order, ranked from `start` on.
pub open spec fn numbered(paths: Seq<Seq<char>>, start: int) -> Seq<(int, Seq<char>)> {
    Seq::new(paths.len(), |i: int| (start + i, paths[i]))
}

/// Entries whose positions are `0..n-1` in order.
pub open spec fn dense(entries: Seq<(int, Seq<char>)>) -> bool {
    forall|i: int| 0 <= i < entries.len() ==> #[trigger] entries[i].0 == i
}

/// Builds the entries that list `paths` in order, ranked from `start` on.
pub fn numbered_entries(paths: &Vec<String>, start: u64) -> (r: Vec<PlaylistEntry>)
    requires
        start + paths@.len() <= u64::MAX,
    ensures
        entry_views(r@) == numbered(str_views(paths@), start as int),
{
    let mut r: Vec<PlaylistEntry> = Vec::new();
    let mut i: usize = 0;
    while i < paths.len()
        invariant
            i <= paths@.len(),
            start + paths@.len() <= u64::MAX,
            entry_views(r@) =~= numbered(str_views(paths@), start as int).take(i as int),
        decreases paths@.len() - i,
    {
        let path = paths[i].clone();
        let ghost before = r@;
        let entry = PlaylistEntry { position: start + i as u64, track_path: path };
        assert(entry@ == numbered(str_views(paths@), start as int)[i as int]);
        r.push(entry);
        assert(entry_views(r@) =~= entry_views(before).push(entry@));
        i = i + 1;
        assert(entry_views(r@) =~= numbered(str_views(paths@), start as int).take(i as int));
    }
    r
}

} // verus!
