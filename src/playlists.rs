//! The playlist collection and its mutation protocol.

use vstd::prelude::*;
use crate::model::{
    LibraryError, Playlist, PlaylistView, PlaylistEntry, numbered, numbered_entries, str_views,
    entry_views, opt_str_view,
};

verus! {

pub open spec fn playlist_views(s: Seq<Playlist>) -> Seq<PlaylistView> {
    s.map_values(|p: Playlist| p@)
}

/// `i` is the first place of `s` that holds a playlist with id `id`.
pub open spec fn is_first_with_id(s: Seq<PlaylistView>, id: Seq<char>, i: int) -> bool {
    &&& 0 <= i < s.len()
    &&& s[i].id == id
    &&& forall|j: int| 0 <= j < i ==> #[trigger] s[j].id != id
}

/// The first place of `s` that holds a playlist with id `id`, if any.
pub open spec fn index_of(s: Seq<PlaylistView>, id: Seq<char>) -> Option<int> {
    if exists|i: int| is_first_with_id(s, id, i) {
        Some(choose|i: int| is_first_with_id(s, id, i))
    } else {
        None
    }
}

pub proof fn lemma_first_is_index(s: Seq<PlaylistView>, id: Seq<char>, i: int)
    requires
        is_first_with_id(s, id, i),
    ensures
        index_of(s, id) == Some(i),
{
    let k = choose|k: int| is_first_with_id(s, id, k);
    assert(is_first_with_id(s, id, k));
    if k < i {
        assert(s[k].id != id);
    } else if i < k {
        assert(s[i].id != id);
    }
}

pub proof fn lemma_present_has_index(s: Seq<PlaylistView>, id: Seq<char>, j: int)
    requires
        0 <= j < s.len(),
        s[j].id == id,
    ensures
        index_of(s, id) is Some,
    decreases j,
{
    if exists|v: int| 0 <= v < j && #[trigger] s[v].id == id {
        let v = choose|v: int| 0 <= v < j && #[trigger] s[v].id == id;
        lemma_present_has_index(s, id, v);
    } else {
        assert(is_first_with_id(s, id, j));
    }
}

pub proof fn lemma_absent_has_no_index(s: Seq<PlaylistView>, id: Seq<char>)
    requires
        forall|j: int| 0 <= j < s.len() ==> #[trigger] s[j].id != id,
    ensures
        index_of(s, id) is None,
{
}

/// The playlist `p` with its entries replaced by `entries`.
pub open spec fn with_entries(p: PlaylistView, entries: Seq<(int, Seq<char>)>) -> PlaylistView {
    PlaylistView { entries, ..p }
}

/// The collection after the entries of the playlist `id` were set to `paths`, ranked from 0.
pub open spec fn replaced(s: Seq<PlaylistView>, id: Seq<char>, paths: Seq<Seq<char>>) -> Seq<PlaylistView> {
    match index_of(s, id) {
        Some(i) => s.update(i, with_entries(s[i], numbered(paths, 0))),
        None => s,
    }
}

/// The entries `e` with `paths` added at the end, ranked from the old count on.
pub open spec fn appended(e: Seq<(int, Seq<char>)>, paths: Seq<Seq<char>>) -> Seq<(int, Seq<char>)> {
    e + numbered(paths, e.len() as int)
}

/// The collection after `paths` were appended to the playlist `id`.
pub open spec fn appended_to(s: Seq<PlaylistView>, id: Seq<char>, paths: Seq<Seq<char>>) -> Seq<PlaylistView> {
    match index_of(s, id) {
        Some(i) => s.update(i, with_entries(s[i], appended(s[i].entries, paths))),
        None => s,
    }
}

/// The collection without any playlist of id `id`.
pub open spec fn without(s: Seq<PlaylistView>, id: Seq<char>) -> Seq<PlaylistView> {
    s.filter(|p: PlaylistView| p.id != id)
}

/// A new playlist with the given id, name and cover, listing `paths` ranked from 0.
pub open spec fn new_playlist(
    id: Seq<char>,
    name: Seq<char>,
    cover_asset: Option<Seq<char>>,
    paths: Seq<Seq<char>>,
) -> PlaylistView {
    PlaylistView { id, name, cover_asset, entries: numbered(paths, 0) }
}

/// The playlists of the store, in order of creation.
pub struct PlaylistCollection {
    items: Vec<Playlist>,
}

impl View for PlaylistCollection {
    type V = Seq<PlaylistView>;

    closed spec fn view(&self) -> Seq<PlaylistView> {
        playlist_views(self.items@)
    }
}

impl PlaylistCollection {
    /// An empty collection.
    pub fn new() -> (r: Self)
        ensures
            r@ == Seq::<PlaylistView>::empty(),
    {
        let r = PlaylistCollection { items: Vec::new() };
        assert(r@ =~= Seq::<PlaylistView>::empty());
        r
    }

    /// The collection that holds `items`, in their order.
    pub fn from_vec(items: Vec<Playlist>) -> (r: Self)
        ensures
            r@ == playlist_views(items@),
    {
        PlaylistCollection { items }
    }

    /// The playlists, in order of creation.
    pub fn into_vec(self) -> (r: Vec<Playlist>)
        ensures
            playlist_views(r@) == self@,
    {
        self.items
    }

    /// The playlists, in order of creation.
    pub fn list(&self) -> (r: &Vec<Playlist>)
        ensures
            playlist_views(r@) == self@,
    {
        &self.items
    }

    /// The first place that holds a playlist with id `id`.
    fn position(&self, id: &String) -> (r: Option<usize>)
        ensures
            match r {
                Some(i) => index_of(self@, id@) == Some(i as int),
                None => index_of(self@, id@) is None,
            },
    {
        let mut i: usize = 0;
        while i < self.items.len()
            invariant
                i <= self.items@.len(),
                forall|j: int| 0 <= j < i ==> #[trigger] self@[j].id != id@,
            decreases self.items@.len() - i,
        {
            if self.items[i].id == *id {
                proof {
                    lemma_first_is_index(self@, id@, i as int);
                }
                return Some(i);
            }
            i = i + 1;
        }
        proof {
            lemma_absent_has_no_index(self@, id@);
        }
        None
    }

    /// Adds a playlist with the given id, name and cover at the end; its entries
    /// list `track_paths` in order, ranked from 0.
    pub fn create(&mut self, id: String, name: String, cover_asset: Option<String>, track_paths: Vec<String>)
        requires
            track_paths@.len() <= u64::MAX,
        ensures
            final(self)@ == old(self)@.push(
                new_playlist(id@, name@, opt_str_view(cover_asset), str_views(track_paths@)),
            ),
    {
        let entries = numbered_entries(&track_paths, 0);
        let p = Playlist { id, name, cover_asset, entries };
        self.items.push(p);
        assert(self@ =~= old(self)@.push(
            new_playlist(p.id@, p.name@, opt_str_view(p.cover_asset), str_views(track_paths@)),
        ));
    }

    /// The first playlist with id `id`.
    pub fn get(&self, id: &String) -> (r: Result<&Playlist, LibraryError>)
        ensures
            match index_of(self@, id@) {
                Some(i) => r is Ok && r->Ok_0@ == self@[i],
                None => r == Err::<&Playlist, LibraryError>(LibraryError::NotFound),
            },
    {
        match self.position(id) {
            Some(i) => Ok(&self.items[i]),
            None => Err(LibraryError::NotFound),
        }
    }

    /// Sets the entries of the first playlist with id `id` to `track_paths`,
    /// in that order, ranked from 0.
    pub fn replace_entries(&mut self, id: &String, track_paths: Vec<String>) -> (r: Result<(), LibraryError>)
        requires
            track_paths@.len() <= u64::MAX,
        ensures
            final(self)@ == replaced(old(self)@, id@, str_views(track_paths@)),
            r is Ok <==> index_of(old(self)@, id@) is Some,
            r is Err ==> r == Err::<(), LibraryError>(LibraryError::NotFound),
    {
        match self.position(id) {
            Some(i) => {
                let entries = numbered_entries(&track_paths, 0);
                let mut p = self.items.remove(i);
                p.entries = entries;
                self.items.insert(i, p);
                assert(self@ =~= replaced(old(self)@, id@, str_views(track_paths@)));
                Ok(())
            },
            None => Err(LibraryError::NotFound),
        }
    }

    /// Appends `track_paths` to the first playlist with id `id`, ranked from its
    /// old entry count on; the entries it had are kept as they were.
    pub fn append_entries(&mut self, id: &String, track_paths: Vec<String>) -> (r: Result<(), LibraryError>)
        requires
            index_of(old(self)@, id@) is Some ==>
                old(self)@[index_of(old(self)@, id@)->0].entries.len() + track_paths@.len() <= u64::MAX,
        ensures
            final(self)@ == appended_to(old(self)@, id@, str_views(track_paths@)),
            r is Ok <==> index_of(old(self)@, id@) is Some,
            r is Err ==> r == Err::<(), LibraryError>(LibraryError::NotFound),
    {
        match self.position(id) {
            Some(i) => {
                let mut p = self.items.remove(i);
                assert(p@ == old(self)@[i as int]);
                assert(p@.entries.len() == p.entries@.len());
                let new_entries = numbered_entries(&track_paths, p.entries.len() as u64);
                let ghost before = p.entries@;
                let mut rest = new_entries;
                p.entries.append(&mut rest);
                assert(entry_views(p.entries@) =~= appended(entry_views(before), str_views(track_paths@)));
                self.items.insert(i, p);
                assert(self@ =~= appended_to(old(self)@, id@, str_views(track_paths@)));
                Ok(())
            },
            None => Err(LibraryError::NotFound),
        }
    }

    /// Removes every playlist with id `id`, and hands back the cover asset of
    /// the first, which the caller is to delete from the media folder.
    pub fn delete(&mut self, id: &String) -> (r: Result<Option<String>, LibraryError>)
        ensures
            match index_of(old(self)@, id@) {
                Some(i) => r is Ok && opt_str_view(r->Ok_0) == old(self)@[i].cover_asset
                    && final(self)@ == without(old(self)@, id@),
                None => r == Err::<Option<String>, LibraryError>(LibraryError::NotFound)
                    && final(self)@ == old(self)@,
            },
    {
        let found = self.position(id);
        if found.is_none() {
            return Err(LibraryError::NotFound);
        }
        let first = found.unwrap();
        let n = self.items.len();
        let ghost old_items = self.items@;
        let mut rest: Vec<Playlist> = Vec::new();
        std::mem::swap(&mut self.items, &mut rest);
        let mut kept: Vec<Playlist> = Vec::new();
        let mut cover: Option<String> = None;
        let mut k: usize = 0;
        while rest.len() > 0
            invariant
                k <= n,
                old_items.len() == n,
                rest@ == old_items.skip(k as int),
                playlist_views(kept@) == without(playlist_views(old_items).take(k as int), id@),
                k > first ==> opt_str_view(cover) == playlist_views(old_items)[first as int].cover_asset,
                first < old_items.len(),
                playlist_views(old_items)[first as int].id == id@,
            decreases rest@.len(),
        {
            assert(rest@.len() == old_items.len() - k);
            let p = rest.remove(0);
            let ghost pv = p@;
            assert(p == old_items[k as int]);
            proof {
                let all = playlist_views(old_items);
                assert(all.take(k as int + 1).drop_last() =~= all.take(k as int));
                assert(all.take(k as int + 1).last() == pv);
                reveal(Seq::filter);
                assert(without(all.take(k as int + 1), id@) == if pv.id != id@ {
                    without(all.take(k as int), id@).push(pv)
                } else {
                    without(all.take(k as int), id@)
                });
            }
            assert(k < old_items.len());
            if p.id == *id {
                if k == first {
                    cover = p.cover_asset;
                }
            } else {
                let ghost before = kept@;
                kept.push(p);
                assert(playlist_views(kept@) =~= playlist_views(before).push(pv));
            }
            k = k + 1;
            assert(rest@ =~= old_items.skip(k as int));
        }
        assert(playlist_views(old_items).take(k as int) =~= playlist_views(old_items));
        self.items = kept;
        Ok(cover)
    }
}

} // verus!
