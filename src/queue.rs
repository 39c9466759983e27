//! The queue of tracks waiting to be played: filled at the back from the
//! user's selection, consumed from the front.

use std::collections::VecDeque;
use vstd::prelude::*;

use crate::format::{has_audio_extension, is_audio_format, path_extension};

verus! {

/// A path that the user selected, with what the file system says of it.
#[derive(Debug, PartialEq, Eq)]
pub struct PathEntry {
    pub path: String,
    /// Whether `path` names a regular file.
    pub is_file: bool,
}

/// The texts of a sequence of strings.
pub open spec fn texts(s: Seq<String>) -> Seq<Seq<char>> {
    s.map_values(|x: String| x@)
}

/// Whether `e` is taken into the queue: a regular file, and when
/// `audio_only`, one with an audio extension.
pub open spec fn accepts(e: PathEntry, audio_only: bool) -> bool {
    e.is_file && (audio_only ==> has_audio_extension(e.path@))
}

/// The paths of `entries` that are taken into the queue, in their order.
pub open spec fn accepted_paths(entries: Seq<PathEntry>, audio_only: bool) -> Seq<Seq<char>>
    decreases entries.len(),
{
    if entries.len() == 0 {
        Seq::empty()
    } else {
        let before = accepted_paths(entries.drop_last(), audio_only);
        if accepts(entries.last(), audio_only) {
            before.push(entries.last().path@)
        } else {
            before
        }
    }
}

/// The track that an advance plays from queue `q`.
pub open spec fn next_of(q: Seq<Seq<char>>) -> Option<Seq<char>> {
    if q.len() == 0 {
        None
    } else {
        Some(q[0])
    }
}

/// Queue `q` after an advance.
pub open spec fn advanced(q: Seq<Seq<char>>) -> Seq<Seq<char>> {
    if q.len() == 0 {
        q
    } else {
        q.drop_first()
    }
}

pub(crate) proof fn lemma_texts_push(s: Seq<String>, x: String)
    ensures
        texts(s.push(x)) == texts(s).push(x@),
{
    assert(texts(s.push(x)) =~= texts(s).push(x@));
}

pub(crate) proof fn lemma_texts_drop_first(s: Seq<String>)
    requires
        s.len() > 0,
    ensures
        texts(s.subrange(1, s.len() as int)) == texts(s).drop_first(),
{
    assert(texts(s.subrange(1, s.len() as int)) =~= texts(s).drop_first());
}

/// Appends to `queue` the paths of `entries` that are taken, in order.
fn push_where(entries: &Vec<PathEntry>, queue: &mut VecDeque<String>, audio_only: bool)
    ensures
        texts(final(queue)@) == texts(old(queue)@) + accepted_paths(entries@, audio_only),
{
    let n = entries.len();
    let mut i: usize = 0;
    while i < n
        invariant
            n == entries@.len(),
            i <= n,
            texts(queue@) == texts(old(queue)@) + accepted_paths(entries@.take(i as int), audio_only),
        decreases n - i,
    {
        let entry = &entries[i];
        let mut take = entry.is_file;
        if take && audio_only {
            take = match path_extension(entry.path.as_str()) {
                Some(ext) => is_audio_format(ext.as_str()),
                None => false,
            };
        }
        assert(entries@.take(i + 1).drop_last() == entries@.take(i as int));
        assert(entries@.take(i + 1).last() == entries@[i as int]);
        if take {
            let path = entry.path.clone();
            proof {
                lemma_texts_push(queue@, path);
            }
            queue.push_back(path);
        }
        i = i + 1;
    }
    assert(entries@.take(n as int) == entries@);
}

/// Appends to `track_queue`, in order, the selected paths that name regular
/// files.
pub fn enqueue_track(path_vec: Vec<PathEntry>, track_queue: &mut VecDeque<String>)
    ensures
        texts(final(track_queue)@) == texts(old(track_queue)@) + accepted_paths(path_vec@, false),
{
    push_where(&path_vec, track_queue, false);
}

/// Appends to `track_queue`, in the order given, the entries of a folder
/// that are regular files with an audio extension.
pub fn enqueue_dir(entries: Vec<PathEntry>, track_queue: &mut VecDeque<String>)
    ensures
        texts(final(track_queue)@) == texts(old(track_queue)@) + accepted_paths(entries@, true),
{
    push_where(&entries, track_queue, true);
}

} // verus!
