//! Properties that relate several playlist operations.

use vstd::prelude::*;
use crate::model::{PlaylistView, numbered, dense};
use crate::playlists::{
    index_of, is_first_with_id, lemma_first_is_index, lemma_present_has_index, lemma_absent_has_no_index, replaced,
    appended, appended_to, without, new_playlist,
};

verus! {

/// The entries of a fresh playlist after appending each batch of `batches` in turn.
pub open spec fn append_all(batches: Seq<Seq<Seq<char>>>) -> Seq<(int, Seq<char>)>
    decreases batches.len(),
{
    if batches.len() == 0 {
        Seq::empty()
    } else {
        appended(append_all(batches.drop_last()), batches.last())
    }
}

/// The number of paths in all of `batches`.
pub open spec fn total_len(batches: Seq<Seq<Seq<char>>>) -> nat
    decreases batches.len(),
{
    if batches.len() == 0 {
        0
    } else {
        total_len(batches.drop_last()) + batches.last().len()
    }
}

/// Appending keeps the old entries, and ranks the new ones in a contiguous
/// increasing run that starts at the old entry count.
pub proof fn law_append_run(e: Seq<(int, Seq<char>)>, paths: Seq<Seq<char>>)
    ensures
        appended(e, paths).len() == e.len() + paths.len(),
        appended(e, paths).take(e.len() as int) == e,
        forall|i: int| 0 <= i < paths.len() ==>
            #[trigger] appended(e, paths)[e.len() + i] == (e.len() + i, paths[i]),
{
    assert(appended(e, paths).take(e.len() as int) =~= e);
}

/// Appending to entries ranked `0..n-1` keeps them ranked that way.
pub proof fn law_append_keeps_dense(e: Seq<(int, Seq<char>)>, paths: Seq<Seq<char>>)
    requires
        dense(e),
    ensures
        dense(appended(e, paths)),
{
    let a = appended(e, paths);
    assert forall|i: int| 0 <= i < a.len() implies #[trigger] a[i].0 == i by {
        if i >= e.len() {
            assert(a[i] == (e.len() + (i - e.len()), paths[i - e.len()]));
        }
    }
}

/// After any sequence of appends to a fresh playlist, it holds as many entries
/// as were appended in all, ranked `0..n-1` in the order they were appended.
pub proof fn law_appends_from_fresh(batches: Seq<Seq<Seq<char>>>)
    ensures
        append_all(batches).len() == total_len(batches),
        dense(append_all(batches)),
    decreases batches.len(),
{
    if batches.len() > 0 {
        law_appends_from_fresh(batches.drop_last());
        law_append_keeps_dense(append_all(batches.drop_last()), batches.last());
    }
}

/// Replacing one playlist by another with the same id keeps where the id is found.
pub proof fn lemma_update_keeps_index(s: Seq<PlaylistView>, id: Seq<char>, i: int, p: PlaylistView)
    requires
        index_of(s, id) == Some(i),
        p.id == id,
    ensures
        index_of(s.update(i, p), id) == Some(i),
{
    let t = s.update(i, p);
    let k = choose|k: int| is_first_with_id(s, id, k);
    assert(is_first_with_id(s, id, k));
    assert forall|j: int| 0 <= j < i implies #[trigger] t[j].id != id by {
        assert(s[j].id != id);
    }
    lemma_first_is_index(t, id, i);
}

/// Appending to a playlist keeps it where it was found, and its entries become
/// the old ones followed by the new paths, ranked from the old count on.
pub proof fn law_append_then_get(s: Seq<PlaylistView>, id: Seq<char>, paths: Seq<Seq<char>>)
    requires
        index_of(s, id) is Some,
    ensures
        index_of(appended_to(s, id, paths), id) == index_of(s, id),
        appended_to(s, id, paths)[index_of(s, id)->0].entries
            == appended(s[index_of(s, id)->0].entries, paths),
{
    let i = index_of(s, id)->0;
    let k = choose|k: int| is_first_with_id(s, id, k);
    assert(is_first_with_id(s, id, k));
    lemma_update_keeps_index(s, id, i, PlaylistView { entries: appended(s[i].entries, paths), ..s[i] });
}

/// Right after its entries were replaced by `paths`, a playlist lists exactly
/// `paths`, in that order, at positions `0..n-1`.
pub proof fn law_replace_then_get(s: Seq<PlaylistView>, id: Seq<char>, paths: Seq<Seq<char>>)
    requires
        index_of(s, id) is Some,
    ensures
        index_of(replaced(s, id, paths), id) == index_of(s, id),
        replaced(s, id, paths)[index_of(s, id)->0].entries.len() == paths.len(),
        forall|k: int| 0 <= k < paths.len() ==>
            #[trigger] replaced(s, id, paths)[index_of(s, id)->0].entries[k] == (k, paths[k]),
{
    let i = index_of(s, id)->0;
    let k = choose|k: int| is_first_with_id(s, id, k);
    assert(is_first_with_id(s, id, k));
    lemma_update_keeps_index(s, id, i, PlaylistView { entries: numbered(paths, 0), ..s[i] });
}

/// After a delete, no playlist with that id is left, and every other playlist
/// is still there.
pub proof fn law_delete_removes(s: Seq<PlaylistView>, id: Seq<char>)
    ensures
        index_of(without(s, id), id) is None,
        forall|i: int| 0 <= i < s.len() && s[i].id != id ==> #[trigger] without(s, id).contains(s[i]),
{
    broadcast use vstd::seq_lib::group_filter_ensures;
    let t = without(s, id);
    assert forall|j: int| 0 <= j < t.len() implies #[trigger] t[j].id != id by {
        s.lemma_filter_pred(|p: PlaylistView| p.id != id, j);
    }
    lemma_absent_has_no_index(t, id);
    assert forall|i: int| 0 <= i < s.len() && s[i].id != id implies #[trigger] without(s, id).contains(s[i]) by {
        s.lemma_filter_contains(|p: PlaylistView| p.id != id, i);
    }
}

/// A playlist created under a fresh id is found under that id, at the end,
/// with the given name and cover, listing the given paths at positions `0..n-1`.
pub proof fn law_create_then_get(
    s: Seq<PlaylistView>,
    id: Seq<char>,
    name: Seq<char>,
    cover_asset: Option<Seq<char>>,
    paths: Seq<Seq<char>>,
)
    requires
        index_of(s, id) is None,
    ensures
        index_of(s.push(new_playlist(id, name, cover_asset, paths)), id) == Some(s.len() as int),
        s.push(new_playlist(id, name, cover_asset, paths))[s.len() as int]
            == new_playlist(id, name, cover_asset, paths),
        dense(new_playlist(id, name, cover_asset, paths).entries),
        forall|k: int| 0 <= k < paths.len() ==>
            #[trigger] new_playlist(id, name, cover_asset, paths).entries[k].1 == paths[k],
{
    let t = s.push(new_playlist(id, name, cover_asset, paths));
    assert forall|j: int| 0 <= j < s.len() implies #[trigger] t[j].id != id by {
        if s[j].id == id {
            lemma_present_has_index(s, id, j);
        }
    }
    lemma_first_is_index(t, id, s.len() as int);
}

} // verus!
