//! The recently-played path: history entries are shaped and returned
//! sorted by play time, newest first, whatever order the upstream
//! returned them in. The playback context and the timestamp of each entry
//! pass through unchanged; the context's representation is left to the
//! caller as a type parameter, since this service never reads it.

use vstd::prelude::*;
use vstd::seq_lib::group_to_multiset_ensures;

use crate::model::SimpleTrack;
use crate::model::SimpleTrackModel;
use crate::model::TrackModel;
use crate::model::TrackRecord;
use crate::shape::shape_track;
use crate::shape::track_to_simple;

verus! {

broadcast use group_to_multiset_ensures;

/// One play-history entry as the upstream provider reports it: the track
/// record, the playback context if any, and the time of play in
/// milliseconds since the epoch.
pub struct PlayHistoryRecord<C> {
    pub track: TrackRecord,
    pub context: Option<C>,
    pub played_at_millis: i64,
}

/// One entry of the recently-played response: the shaped track, the
/// context passed through unchanged, and the timestamp passed through
/// unchanged.
pub struct RecentPlayEntry<C> {
    pub track: SimpleTrack,
    pub context: Option<C>,
    pub played_at_millis: i64,
}

/// Mathematical model of a [`PlayHistoryRecord`].
pub struct HistoryModel<C> {
    pub track: TrackModel,
    pub context: Option<C>,
    pub played_at_millis: i64,
}

/// Mathematical model of a [`RecentPlayEntry`].
pub struct EntryModel<C> {
    pub track: SimpleTrackModel,
    pub context: Option<C>,
    pub played_at_millis: i64,
}

impl<C> View for PlayHistoryRecord<C> {
    type V = HistoryModel<C>;

    open spec fn view(&self) -> HistoryModel<C> {
        HistoryModel {
            track: self.track@,
            context: self.context,
            played_at_millis: self.played_at_millis,
        }
    }
}

impl<C> View for RecentPlayEntry<C> {
    type V = EntryModel<C>;

    open spec fn view(&self) -> EntryModel<C> {
        EntryModel {
            track: self.track@,
            context: self.context,
            played_at_millis: self.played_at_millis,
        }
    }
}

/// How one history entry is shaped: the track as every track is shaped,
/// context and timestamp unchanged.
pub open spec fn shape_history<C>(h: HistoryModel<C>) -> EntryModel<C> {
    EntryModel {
        track: shape_track(h.track),
        context: h.context,
        played_at_millis: h.played_at_millis,
    }
}

/// The models of a list of response entries.
pub open spec fn entry_views<C>(s: Seq<RecentPlayEntry<C>>) -> Seq<EntryModel<C>> {
    s.map_values(|e: RecentPlayEntry<C>| e@)
}

/// The models of a list of history entries after shaping.
pub open spec fn shaped_history_views<C>(s: Seq<PlayHistoryRecord<C>>) -> Seq<EntryModel<C>> {
    s.map_values(|h: PlayHistoryRecord<C>| shape_history(h@))
}

/// Newest first: every entry's timestamp is at least as large as every
/// later entry's, so in particular each adjacent pair is in descending
/// order of play time.
pub open spec fn recent_sorted<C>(s: Seq<RecentPlayEntry<C>>) -> bool {
    forall|i: int, j: int|
        0 <= i <= j < s.len() ==> s[i].played_at_millis >= s[j].played_at_millis
}

/// Newest first, over the unshaped history.
pub open spec fn history_sorted<C>(s: Seq<PlayHistoryRecord<C>>) -> bool {
    forall|i: int, j: int|
        0 <= i <= j < s.len() ==> s[i].played_at_millis >= s[j].played_at_millis
}

/// Mapping a function over two sequences that hold the same elements (as
/// a multiset) yields sequences that again hold the same elements.
pub proof fn lemma_map_values_to_multiset<A, B>(s1: Seq<A>, s2: Seq<A>, f: spec_fn(A) -> B)
    requires
        s1.to_multiset() == s2.to_multiset(),
    ensures
        s1.map_values(f).to_multiset() == s2.map_values(f).to_multiset(),
    decreases s1.len(),
{
    if s1.len() == 0 {
        assert(s1.to_multiset().len() == s1.len());
        assert(s2.to_multiset().len() == s2.len());
        assert(s1.map_values(f) =~= s2.map_values(f));
    } else {
        let x = s1.last();
        let s1p = s1.drop_last();
        assert(s1 =~= s1p.push(x));
        assert(s1p.push(x).to_multiset() == s1p.to_multiset().insert(x));
        assert(s1.to_multiset().count(x) > 0) by {
            assert(s1[s1.len() as int - 1] == x);
            assert(s1.contains(x));
        }
        assert(s2.contains(x));
        let i = choose|i: int| 0 <= i < s2.len() && s2[i] == x;
        let s2p = s2.remove(i);
        assert(s2.remove(i).to_multiset() == s2.to_multiset().remove(s2[i]));
        assert(s1p.to_multiset() =~= s2p.to_multiset());
        lemma_map_values_to_multiset(s1p, s2p, f);
        let m1 = s1.map_values(f);
        let m1p = s1p.map_values(f);
        let m2 = s2.map_values(f);
        assert(m1 =~= m1p.push(f(x)));
        assert(m1p.push(f(x)).to_multiset() == m1p.to_multiset().insert(f(x)));
        assert(m2.remove(i) =~= s2p.map_values(f)) by {
            s2.remove_ensures(i);
            m2.remove_ensures(i);
        }
        assert(m2.remove(i).to_multiset() == m2.to_multiset().remove(m2[i]));
        assert(m2[i] == f(x));
        assert(m2.to_multiset().count(f(x)) > 0) by {
            assert(m2[i] == f(x));
            assert(m2.contains(f(x)));
        }
        assert(m1.to_multiset() =~= m2.to_multiset());
    }
}

/// The index of an entry with the greatest timestamp.
fn index_of_newest<C>(v: &Vec<PlayHistoryRecord<C>>) -> (best: usize)
    requires
        v@.len() > 0,
    ensures
        best < v@.len(),
        forall|a: int|
            0 <= a < v@.len() ==> v@[best as int].played_at_millis >= v@[a].played_at_millis,
{
    let mut best: usize = 0;
    let mut k: usize = 1;
    while k < v.len()
        invariant
            0 < v@.len(),
            best < v@.len(),
            k <= v@.len(),
            forall|a: int| 0 <= a < k ==> v@[best as int].played_at_millis >= v@[a].played_at_millis,
        decreases v@.len() - k,
    {
        if v[k].played_at_millis > v[best].played_at_millis {
            best = k;
        }
        k = k + 1;
    }
    best
}

/// Sorts history entries newest first by repeatedly extracting an entry
/// with the greatest remaining timestamp; the result holds exactly the
/// input's entries.
pub fn sort_newest_first<C>(items: Vec<PlayHistoryRecord<C>>) -> (r: Vec<PlayHistoryRecord<C>>)
    ensures
        r@.len() == items@.len(),
        history_sorted(r@),
        r@.to_multiset() == items@.to_multiset(),
{
    let mut rest = items;
    let mut out: Vec<PlayHistoryRecord<C>> = Vec::new();
    while rest.len() > 0
        invariant
            out@.len() + rest@.len() == items@.len(),
            out@.to_multiset().add(rest@.to_multiset()) == items@.to_multiset(),
            history_sorted(out@),
            forall|a: int, b: int|
                0 <= a < out@.len() && 0 <= b < rest@.len() ==> out@[a].played_at_millis
                    >= rest@[b].played_at_millis,
        decreases rest@.len(),
    {
        let best = index_of_newest(&rest);
        let ghost before = rest@;
        let ghost out_before = out@;
        let x = rest.remove(best);
        out.push(x);
        proof {
            assert(before.to_multiset().count(x) > 0) by {
                assert(before[best as int] == x);
                assert(before.contains(x));
            }
            assert(rest@ == before.remove(best as int));
            assert(before.remove(best as int).to_multiset() == before.to_multiset().remove(
                before[best as int],
            ));
            assert(out@ == out_before.push(x));
            assert(out_before.push(x).to_multiset() == out_before.to_multiset().insert(x));
            assert(out@.to_multiset().add(rest@.to_multiset()) =~= items@.to_multiset());
            assert forall|b: int| 0 <= b < rest@.len() implies x.played_at_millis
                >= rest@[b].played_at_millis by {
                before.remove_ensures(best as int);
                if b < best {
                    assert(rest@[b] == before[b]);
                } else {
                    assert(rest@[b] == before[b + 1]);
                }
            }
        }
    }
    out
}

/// Shapes a list of history entries in order.
fn shape_entries<C>(items: Vec<PlayHistoryRecord<C>>) -> (r: Vec<RecentPlayEntry<C>>)
    ensures
        r@.len() == items@.len(),
        entry_views(r@) == shaped_history_views(items@),
        forall|i: int| 0 <= i < r@.len() ==> #[trigger] r@[i]@ == shape_history(items@[i]@),
{
    let ghost orig = items@;
    let mut rest = items;
    let mut out: Vec<RecentPlayEntry<C>> = Vec::new();
    while rest.len() > 0
        invariant
            out@.len() + rest@.len() == orig.len(),
            rest@ == orig.skip(out@.len() as int),
            forall|i: int| 0 <= i < out@.len() ==> #[trigger] out@[i]@ == shape_history(orig[i]@),
        decreases rest@.len(),
    {
        let ghost done = out@.len() as int;
        let h = rest.remove(0);
        assert(h == orig[done]);
        assert(rest@ =~= orig.skip(done + 1));
        let PlayHistoryRecord { track, context, played_at_millis } = h;
        let entry = RecentPlayEntry { track: track_to_simple(track), context, played_at_millis };
        assert(entry@ == shape_history(orig[done]@));
        out.push(entry);
    }
    proof {
        assert(entry_views(out@) =~= shaped_history_views(orig));
    }
    out
}

/// The recently-played response: every history entry shaped, the whole
/// list ordered newest first regardless of the upstream's order. The
/// result holds exactly the shaped entries of the input, reordered.
pub fn recent_response<C>(items: Vec<PlayHistoryRecord<C>>) -> (r: Vec<RecentPlayEntry<C>>)
    ensures
        r@.len() == items@.len(),
        recent_sorted(r@),
        entry_views(r@).to_multiset() == shaped_history_views(items@).to_multiset(),
{
    let ghost orig = items@;
    let sorted = sort_newest_first(items);
    let r = shape_entries(sorted);
    proof {
        assert forall|i: int, j: int| 0 <= i <= j < r@.len() implies r@[i].played_at_millis
            >= r@[j].played_at_millis by {
            assert(r@[i]@ == shape_history(sorted@[i]@));
            assert(r@[j]@ == shape_history(sorted@[j]@));
        }
        lemma_map_values_to_multiset(
            sorted@,
            orig,
            |h: PlayHistoryRecord<C>| shape_history(h@),
        );
    }
    r
}

} // verus!
