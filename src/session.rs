use vstd::prelude::*;
use crate::filter::{Filter, visible_indices, lemma_visible_indices};
use crate::input::{
    Fields, Func, Key, Screens, binding, clamp, clamp_selection, field_at, pop_char,
    popup_next, popup_previous, popup_select_next, popup_select_previous, push_char,
    spec_binding, spec_field_at,
};
use crate::limiter::Limiter;
use crate::musicdata::{Lyrics, MusicData};
use crate::progress::Progress;

verus! {

/// Ceiling of concurrent lyrics queries when the settings name none.
pub fn default_concurrent() -> (r: usize)
    ensures
        r == 50,
{
    50
}

/// Which of the two operation pools a setting is about.
#[derive(Clone, Copy, PartialEq, Eq, Structural, Debug)]
pub enum PoolKind {
    Network,
    Disk,
}

/// A lyrics result waiting to be written next to its track.
pub struct WriteJob {
    pub path: String,
    pub lyrics: Lyrics,
}

/// The state owned by the event loop: the library, the lyrics known for each
/// track, progress, the two admission pools and their waiting work, and the
/// state of the user interface.
pub struct State {
    pub music: Vec<MusicData>,
    /// For each track of `music`, the result known for it, if it was probed.
    pub lyrics: Vec<Option<Lyrics>>,
    pub progress: Progress,
    pub network: Limiter,
    pub disk: Limiter,
    /// Snapshots of the tracks whose fetches wait for a network permit.
    pub fetch_queue: Vec<MusicData>,
    /// Writes that wait for a disk permit.
    pub write_queue: Vec<WriteJob>,
    pub screen: Screens,
    /// Position of the selected row within the visible rows.
    pub selected: usize,
    pub filter: Filter,
    /// The filter field being edited, when text entry is active.
    pub field: Option<Fields>,
    pub current_string: String,
    /// Selected line of the filters popup.
    pub filters_selected: Option<usize>,
    pub will_quit: bool,
}

impl State {
    pub open spec fn wf(&self) -> bool {
        &&& self.lyrics@.len() == self.music@.len()
        &&& self.progress.wf()
        &&& self.progress.total == self.progress.done + self.fetch_queue@.len()
            + self.network.in_flight
    }

    /// Library positions of the visible rows, in order.
    pub open spec fn rows(&self) -> Seq<int> {
        visible_indices(self.filter, self.music@)
    }

    /// Whether a completion for the track at `path` carrying `l` is taken
    /// into the lyrics store: a track of the current library has that path,
    /// and the result is at least as good as the one stored for it.
    pub open spec fn takes(&self, path: Seq<char>, l: Lyrics) -> bool {
        &&& has_path(self.music@, path)
        &&& (self.lyrics@[path_position(self.music@, path)] matches Some(cur) ==> l.rank()
            >= cur.rank())
    }

    /// An empty session with both pools limited to `limit`.
    pub fn new(limit: usize) -> (r: State)
        ensures
            r.wf(),
            r.music@.len() == 0,
            r.progress.total == 0 && r.progress.done == 0,
            r.network == Limiter::new_spec(limit),
            r.disk == Limiter::new_spec(limit),
            r.fetch_queue@.len() == 0,
            r.write_queue@.len() == 0,
            r.screen == Screens::Main,
            r.selected == 0,
            r.filter.title is None && r.filter.artist is None && r.filter.album is None,
            r.field is None,
            r.current_string@.len() == 0,
            r.filters_selected is None,
            !r.will_quit,
    {
        State {
            music: Vec::new(),
            lyrics: Vec::new(),
            progress: Progress::new(),
            network: Limiter::new(limit),
            disk: Limiter::new(limit),
            fetch_queue: Vec::new(),
            write_queue: Vec::new(),
            screen: Screens::Main,
            selected: 0,
            filter: Filter::new(),
            field: None,
            current_string: String::new(),
            filters_selected: None,
            will_quit: false,
        }
    }

    /// Replaces the library with a new scan and the results probed for it.
    /// Requested fetches carry their own track snapshots and go on.
    pub fn set_library(&mut self, music: Vec<MusicData>, lyrics: Vec<Option<Lyrics>>)
        requires
            old(self).wf(),
            music@.len() == lyrics@.len(),
        ensures
            final(self).wf(),
            *final(self) == (State { music, lyrics, ..*old(self) }),
    {
        self.music = music;
        self.lyrics = lyrics;
    }

    /// Replaces the ceiling of one pool; permits already held stay held.
    pub fn set_concurrency(&mut self, kind: PoolKind, limit: usize)
        requires
            old(self).wf(),
        ensures
            final(self).wf(),
            kind == PoolKind::Network ==> *final(self) == (State {
                network: Limiter { limit, ..old(self).network },
                ..*old(self)
            }),
            kind == PoolKind::Disk ==> *final(self) == (State {
                disk: Limiter { limit, ..old(self).disk },
                ..*old(self)
            }),
    {
        match kind {
            PoolKind::Network => self.network.set_limit(limit),
            PoolKind::Disk => self.disk.set_limit(limit),
        }
    }

    /// Starts a new batch when every issued fetch has completed.
    pub fn idle_reset(&mut self) -> (r: bool)
        requires
            old(self).wf(),
        ensures
            final(self).wf(),
            r == (old(self).progress.done == old(self).progress.total),
            r ==> final(self).progress.total == 0 && final(self).progress.done == 0,
            *final(self) == (State { progress: final(self).progress, ..*old(self) }),
            !r ==> *final(self) == *old(self),
    {
        self.progress.idle_reset()
    }

    /// Admits the oldest waiting fetch when a network permit is free.
    pub fn next_fetch(&mut self) -> (r: Option<MusicData>)
        requires
            old(self).wf(),
        ensures
            final(self).wf(),
            r is Some <==> (old(self).fetch_queue@.len() > 0 && old(self).network.in_flight
                < old(self).network.limit),
            old(self).network.in_flight <= old(self).network.limit ==> final(self).network.in_flight
                <= final(self).network.limit,
            r is None ==> *final(self) == *old(self),
            r matches Some(track) ==> {
                &&& track == old(self).fetch_queue@[0]
                &&& final(self).fetch_queue@ == old(self).fetch_queue@.drop_first()
                &&& *final(self) == (State {
                    fetch_queue: final(self).fetch_queue,
                    network: old(self).network.after_acquire(),
                    ..*old(self)
                })
            },
    {
        if self.fetch_queue.len() == 0 {
            return None;
        }
        if !self.network.try_acquire() {
            return None;
        }
        Some(self.fetch_queue.remove(0))
    }

    /// Applies a completed fetch of the track at `path`: the network permit
    /// is given back and the fetch counted as done. The result is stored for
    /// the library track with that path when `takes` allows it, and then
    /// queued for writing if it has text. A completion while no fetch holds a
    /// permit is ignored. Returns whether the result was stored.
    pub fn complete_fetch(&mut self, path: &String, lyrics: Lyrics) -> (r: bool)
        requires
            old(self).wf(),
        ensures
            final(self).wf(),
            old(self).network.in_flight == 0 ==> !r && *final(self) == *old(self),
            old(self).network.in_flight > 0 ==> {
                &&& r == old(self).takes(path@, lyrics)
                &&& final(self).network == old(self).network.after_release()
                &&& final(self).progress.done == old(self).progress.done + 1
                &&& final(self).progress.total == old(self).progress.total
                &&& r ==> final(self).lyrics@ == old(self).lyrics@.update(
                    path_position(old(self).music@, path@),
                    Some(lyrics),
                )
                &&& !r ==> final(self).lyrics@ == old(self).lyrics@
                &&& (r && lyrics.spec_sidecar() is Some) ==> final(self).write_queue@.len()
                    == old(self).write_queue@.len() + 1
                    && final(self).write_queue@.drop_last() == old(self).write_queue@
                    && final(self).write_queue@.last().path@ == path@
                    && final(self).write_queue@.last().lyrics == lyrics
                &&& !(r && lyrics.spec_sidecar() is Some) ==> final(self).write_queue@
                    == old(self).write_queue@
                &&& *final(self) == (State {
                    lyrics: final(self).lyrics,
                    write_queue: final(self).write_queue,
                    network: final(self).network,
                    progress: final(self).progress,
                    ..*old(self)
                })
            },
    {
        if self.network.in_flight == 0 {
            return false;
        }
        self.network.release();
        self.progress.complete();
        let found = self.find_path(path);
        let Some(index) = found else {
            return false;
        };
        let better = match &self.lyrics[index] {
            None => true,
            Some(cur) => lyrics.replaces(cur),
        };
        if !better {
            return false;
        }
        let stored = lyrics.duplicate();
        self.lyrics.set(index, Some(stored));
        if lyrics.sidecar().is_some() {
            self.write_queue.push(WriteJob { path: path.clone(), lyrics });
        }
        true
    }

    /// Admits the oldest waiting write when a disk permit is free.
    pub fn next_write(&mut self) -> (r: Option<WriteJob>)
        requires
            old(self).wf(),
        ensures
            final(self).wf(),
            r is Some <==> (old(self).write_queue@.len() > 0 && old(self).disk.in_flight
                < old(self).disk.limit),
            old(self).disk.in_flight <= old(self).disk.limit ==> final(self).disk.in_flight
                <= final(self).disk.limit,
            r is None ==> *final(self) == *old(self),
            r matches Some(job) ==> {
                &&& job == old(self).write_queue@[0]
                &&& final(self).write_queue@ == old(self).write_queue@.drop_first()
                &&& *final(self) == (State {
                    write_queue: final(self).write_queue,
                    disk: old(self).disk.after_acquire(),
                    ..*old(self)
                })
            },
    {
        if self.write_queue.len() == 0 {
            return None;
        }
        if !self.disk.try_acquire() {
            return None;
        }
        Some(self.write_queue.remove(0))
    }

    /// A write finished, well or not: its disk permit is given back.
    pub fn finish_write(&mut self)
        requires
            old(self).wf(),
        ensures
            final(self).wf(),
            *final(self) == (State { disk: old(self).disk.after_release(), ..*old(self) }),
    {
        if self.disk.in_flight > 0 {
            self.disk.release();
        }
    }
}

/// Whether `i` is the first position in `s` of a track with path `p`.
pub open spec fn is_first_path(s: Seq<MusicData>, p: Seq<char>, i: int) -> bool {
    &&& 0 <= i < s.len()
    &&& s[i].path@ == p
    &&& forall|j: int| 0 <= j < i ==> s[j].path@ != p
}

/// Whether some track of `s` has path `p`.
pub open spec fn has_path(s: Seq<MusicData>, p: Seq<char>) -> bool {
    exists|i: int| 0 <= i < s.len() && #[trigger] s[i].path@ == p
}

/// The position of the first track of `s` with path `p`.
pub open spec fn path_position(s: Seq<MusicData>, p: Seq<char>) -> int {
    choose|i: int| is_first_path(s, p, i)
}

proof fn lemma_first_path(s: Seq<MusicData>, p: Seq<char>, i: int)
    requires
        is_first_path(s, p, i),
    ensures
        has_path(s, p),
        path_position(s, p) == i,
{
    assert(s[i].path@ == p);
    let k = path_position(s, p);
    assert(is_first_path(s, p, k));
    if k < i {
        assert(s[k].path@ != p);
    }
    if k > i {
        assert(s[i].path@ != p);
    }
}

/// The library positions, among `idx`, of tracks whose known result may still
/// improve: probed, and neither synced nor instrumental.
pub open spec fn candidates(lyrics: Seq<Option<Lyrics>>, idx: Seq<int>) -> Seq<int>
    decreases idx.len(),
{
    if idx.len() == 0 {
        Seq::empty()
    } else {
        let rest = candidates(lyrics, idx.drop_last());
        let i = idx.last();
        if 0 <= i < lyrics.len() && lyrics[i] is Some && !lyrics[i]->0.is_final() {
            rest.push(i)
        } else {
            rest
        }
    }
}

/// A probed track is picked by a fetch of the visible set exactly when it is
/// visible and its result is neither synced nor instrumental.
pub proof fn lemma_candidates(lyrics: Seq<Option<Lyrics>>, idx: Seq<int>)
    ensures
        forall|i: int|
            #[trigger] candidates(lyrics, idx).contains(i) <==> (idx.contains(i) && 0 <= i
                < lyrics.len() && lyrics[i] is Some && !lyrics[i]->0.is_final()),
    decreases idx.len(),
{
    if idx.len() > 0 {
        let rest = idx.drop_last();
        let last = idx.last();
        let rc = candidates(lyrics, rest);
        let c = candidates(lyrics, idx);
        let ok = 0 <= last < lyrics.len() && lyrics[last] is Some && !lyrics[last]->0.is_final();
        lemma_candidates(lyrics, rest);
        assert forall|i: int|
            #[trigger] c.contains(i) <==> (idx.contains(i) && 0 <= i < lyrics.len()
                && lyrics[i] is Some && !lyrics[i]->0.is_final()) by {
            if c.contains(i) {
                let k = choose|k: int| 0 <= k < c.len() && c[k] == i;
                if k < rc.len() {
                    assert(rc[k] == i);
                    assert(rc.contains(i));
                    let j = choose|j: int| 0 <= j < rest.len() && rest[j] == i;
                    assert(idx[j] == i);
                } else {
                    assert(ok && i == last);
                    assert(idx[idx.len() - 1] == i);
                }
            }
            if idx.contains(i) && 0 <= i < lyrics.len() && lyrics[i] is Some
                && !lyrics[i]->0.is_final() {
                let j = choose|j: int| 0 <= j < idx.len() && idx[j] == i;
                if j < rest.len() {
                    assert(rest[j] == i);
                    assert(rc.contains(i));
                    let k = choose|k: int| 0 <= k < rc.len() && rc[k] == i;
                    assert(c[k] == i);
                } else {
                    assert(ok);
                    assert(c[c.len() - 1] == i);
                }
            }
        }
    }
}

/// Candidates keep the increasing order of the positions they are taken from.
proof fn lemma_candidates_increasing(lyrics: Seq<Option<Lyrics>>, idx: Seq<int>)
    requires
        forall|a: int, b: int| 0 <= a < b < idx.len() ==> idx[a] < idx[b],
    ensures
        forall|a: int, b: int|
            0 <= a < b < candidates(lyrics, idx).len() ==> candidates(lyrics, idx)[a]
                < candidates(lyrics, idx)[b],
    decreases idx.len(),
{
    if idx.len() > 0 {
        let rest = idx.drop_last();
        let rc = candidates(lyrics, rest);
        lemma_candidates_increasing(lyrics, rest);
        lemma_candidates(lyrics, rest);
        assert forall|a: int| 0 <= a < rc.len() implies rc[a] < idx.last() by {
            assert(rc.contains(rc[a]));
            let j = choose|j: int| 0 <= j < rest.len() && rest[j] == rc[a];
            assert(idx[j] == rc[a]);
        }
    }
}

/// A fetch of the whole visible set never picks a track whose result is
/// synced or instrumental, always picks a visible probed track whose result
/// is absent or plain, and picks each track at most once.
pub proof fn lemma_scan_all_picks(st: State)
    requires
        st.wf(),
    ensures
        forall|i: int|
            #[trigger] st.eligible().contains(i) <==> (st.rows().contains(i)
                && st.lyrics@[i] is Some && !st.lyrics@[i]->0.is_final()),
        forall|a: int, b: int|
            0 <= a < b < st.eligible().len() ==> st.eligible()[a] != st.eligible()[b],
{
    lemma_candidates(st.lyrics@, st.rows());
    lemma_visible_indices(st.filter, st.music@);
    lemma_candidates_increasing(st.lyrics@, st.rows());
    assert forall|i: int| #[trigger] st.rows().contains(i) implies 0 <= i < st.lyrics@.len() by {
        let k = choose|k: int| 0 <= k < st.rows().len() && st.rows()[k] == i;
    }
}

/// What the detail pane shows for a stored entry.
pub open spec fn detail_of(entry: Option<Lyrics>) -> Seq<char> {
    match entry {
        Some(Lyrics::Instrumental) => "Instrumental"@,
        Some(Lyrics::Synced(t)) => t@,
        Some(Lyrics::Plain(t)) => t@,
        _ => "Not found"@,
    }
}

/// The filter after one of its fields was set.
pub open spec fn filter_with(f: Filter, field: Fields, value: Option<String>) -> Filter {
    match field {
        Fields::Title => Filter { title: value, ..f },
        Fields::Artist => Filter { artist: value, ..f },
        Fields::Album => Filter { album: value, ..f },
    }
}

/// The current value of one filter field.
pub open spec fn filter_field(f: Filter, field: Fields) -> Option<String> {
    match field {
        Fields::Title => f.title,
        Fields::Artist => f.artist,
        Fields::Album => f.album,
    }
}

/// The selection after moving one visible row down.
pub open spec fn next_selection(sel: usize, n: int) -> usize {
    clamp(sel + 1, n) as usize
}

/// The selection after moving one visible row up.
pub open spec fn previous_selection(sel: usize, n: int) -> usize {
    if sel == 0 {
        0
    } else {
        clamp(sel - 1, n) as usize
    }
}

impl State {
    /// Position of the first library track with the given path.
    fn find_path(&self, path: &String) -> (r: Option<usize>)
        ensures
            r is None <==> !has_path(self.music@, path@),
            r matches Some(i) ==> i < self.music@.len() && i as int == path_position(
                self.music@,
                path@,
            ),
    {
        let mut i: usize = 0;
        while i < self.music.len()
            invariant
                i <= self.music@.len(),
                forall|j: int| 0 <= j < i ==> self.music@[j].path@ != path@,
            decreases self.music@.len() - i,
        {
            if self.music[i].path == *path {
                proof {
                    lemma_first_path(self.music@, path@, i as int);
                }
                return Some(i);
            }
            i = i + 1;
        }
        None
    }

    /// Library positions of the tracks a fetch of the visible set picks.
    pub open spec fn eligible(&self) -> Seq<int> {
        candidates(self.lyrics@, self.rows())
    }

    /// What a fetch of the visible set does: when the counter has room, every
    /// eligible track is queued in visible order and counted as issued; else
    /// nothing changes.
    pub open spec fn scan_all_post(old: State, new: State) -> bool {
        let e = old.eligible();
        let idle = old.progress.done == old.progress.total;
        if idle || old.progress.total + e.len() <= usize::MAX {
            &&& new.fetch_queue@.len() == old.fetch_queue@.len() + e.len()
            &&& forall|k: int|
                0 <= k < old.fetch_queue@.len() ==> new.fetch_queue@[k] == old.fetch_queue@[k]
            &&& forall|k: int|
                0 <= k < e.len() ==> new.fetch_queue@[old.fetch_queue@.len() + k]
                    == old.music@[#[trigger] e[k]]
            &&& idle ==> new.progress.total == e.len() && new.progress.done == 0
            &&& !idle ==> new.progress.total == old.progress.total + e.len()
                && new.progress.done == old.progress.done
            &&& new == (State { fetch_queue: new.fetch_queue, progress: new.progress, ..old })
        } else {
            new == old
        }
    }

    /// What a fetch of the selected row does: a snapshot of the selected
    /// visible row's track is queued (when there is one and the counter has
    /// room), then the selection moves down.
    pub open spec fn scan_song_post(old: State, new: State) -> bool {
        let rows = old.rows();
        let idle = old.progress.done == old.progress.total;
        let queued = old.selected < rows.len() && (idle || old.progress.total < usize::MAX);
        &&& queued ==> new.fetch_queue@ == old.fetch_queue@.push(
            old.music@[rows[old.selected as int]],
        )
        &&& queued && idle ==> new.progress.total == 1 && new.progress.done == 0
        &&& queued && !idle ==> new.progress.total == old.progress.total + 1
            && new.progress.done == old.progress.done
        &&& !queued ==> new.fetch_queue == old.fetch_queue && new.progress == old.progress
        &&& new == (State {
            fetch_queue: new.fetch_queue,
            progress: new.progress,
            selected: next_selection(old.selected, rows.len() as int),
            ..old
        })
    }

    /// What entering text entry for a field does.
    pub open spec fn open_field_post(old: State, new: State, field: Fields) -> bool {
        &&& new.current_string@ == match filter_field(old.filter, field) {
            Some(v) => v@,
            None => Seq::<char>::empty(),
        }
        &&& new == (State { current_string: new.current_string, field: Some(field), ..old })
    }

    /// What running a command does.
    pub open spec fn call_post(old: State, new: State, f: Func) -> bool {
        match f {
            Func::ScanAll => State::scan_all_post(old, new),
            Func::ScanSelected => State::scan_song_post(old, new),
            Func::SelectNext => new == (State {
                selected: next_selection(old.selected, old.rows().len() as int),
                ..old
            }),
            Func::SelectPrevious => new == (State {
                selected: previous_selection(old.selected, old.rows().len() as int),
                ..old
            }),
            Func::Quit => new == (State { will_quit: true, ..old }),
            Func::OpenFilterTitle => State::open_field_post(old, new, Fields::Title),
            Func::OpenFilterAlbum => State::open_field_post(old, new, Fields::Album),
            Func::OpenFilterArtist => State::open_field_post(old, new, Fields::Artist),
            Func::OpenFiltersPopup => new == (State { screen: Screens::Filters, ..old }),
            Func::CloseFiltersPopup => new == (State { screen: Screens::Main, ..old }),
            Func::FiltersSelectNext => new == (State {
                filters_selected: popup_next(old.filters_selected),
                ..old
            }),
            Func::FiltersSelectPrevious => new == (State {
                filters_selected: popup_previous(old.filters_selected),
                ..old
            }),
            Func::OpenSelectedFilter => match spec_field_at(old.filters_selected) {
                Some(field) => State::open_field_post(old, new, field),
                None => new == old,
            },
        }
    }

    /// Requests a fetch of the track at library position `index`, unless the
    /// issued counter is full. A complete batch is reset first, so the fetch
    /// starts a new one.
    pub fn scan_music(&mut self, index: usize) -> (r: bool)
        requires
            old(self).wf(),
            index < old(self).music@.len(),
        ensures
            final(self).wf(),
            r == (old(self).progress.done == old(self).progress.total || old(self).progress.total
                < usize::MAX),
            r ==> final(self).fetch_queue@ == old(self).fetch_queue@.push(
                old(self).music@[index as int],
            ),
            r && old(self).progress.done == old(self).progress.total ==> final(self).progress.total
                == 1 && final(self).progress.done == 0,
            r && old(self).progress.done != old(self).progress.total ==> final(self).progress.total
                == old(self).progress.total + 1 && final(self).progress.done
                == old(self).progress.done,
            !r ==> *final(self) == *old(self),
            *final(self) == (State {
                fetch_queue: final(self).fetch_queue,
                progress: final(self).progress,
                ..*old(self)
            }),
    {
        if self.progress.issue(1) {
            let track = self.music[index].duplicate();
            self.fetch_queue.push(track);
            true
        } else {
            false
        }
    }

    /// Library positions of the visible rows.
    pub fn visible_rows(&self) -> (r: Vec<usize>)
        requires
            self.wf(),
        ensures
            r@.len() == self.rows().len(),
            forall|k: int| 0 <= k < r@.len() ==> r@[k] as int == #[trigger] self.rows()[k],
            forall|k: int| 0 <= k < r@.len() ==> #[trigger] r@[k] < self.music@.len(),
    {
        proof {
            lemma_visible_indices(self.filter, self.music@);
        }
        let r = self.filter.visible_rows(&self.music);
        assert forall|k: int| 0 <= k < r@.len() implies #[trigger] r@[k] < self.music@.len() by {
            assert(r@[k] as int == self.rows()[k]);
        }
        r
    }

    /// Library position of the track on the selected visible row.
    pub fn selected_track(&self) -> (r: Option<usize>)
        requires
            self.wf(),
        ensures
            self.selected < self.rows().len() ==> r == Some(self.rows()[self.selected as int] as usize),
            self.selected >= self.rows().len() ==> r is None,
    {
        let rows = self.visible_rows();
        if self.selected < rows.len() {
            Some(rows[self.selected])
        } else {
            None
        }
    }

    /// The text of the detail pane for the selected visible row: its lyrics,
    /// "Instrumental", or "Not found" when nothing was found or nothing is
    /// known; none when no row is selected.
    pub fn detail_text(&self) -> (r: Option<String>)
        requires
            self.wf(),
        ensures
            self.selected < self.rows().len() ==> (r matches Some(t) && t@ == detail_of(
                self.lyrics@[self.rows()[self.selected as int]],
            )),
            self.selected >= self.rows().len() ==> r is None,
    {
        proof {
            lemma_visible_indices(self.filter, self.music@);
            reveal_strlit("Instrumental");
            reveal_strlit("Not found");
        }
        let n = self.music.len();
        let Some(i) = self.selected_track() else {
            return None;
        };
        assert(0 <= self.rows()[self.selected as int] < n);
        let text = match &self.lyrics[i] {
            Some(Lyrics::Instrumental) => String::from_str("Instrumental"),
            Some(Lyrics::Synced(t)) => t.clone(),
            Some(Lyrics::Plain(t)) => t.clone(),
            _ => String::from_str("Not found"),
        };
        Some(text)
    }

    /// Requests a fetch of every visible track whose result may still improve.
    pub fn scan_all(&mut self)
        requires
            old(self).wf(),
        ensures
            final(self).wf(),
            State::scan_all_post(*old(self), *final(self)),
    {
        let rows = self.visible_rows();
        let ghost vi = self.rows();
        let mut picked: Vec<MusicData> = Vec::new();
        let mut k: usize = 0;
        proof {
            lemma_candidates(self.lyrics@, vi);
        }
        while k < rows.len()
            invariant
                self.wf(),
                k <= rows@.len(),
                rows@.len() == vi.len(),
                vi == self.rows(),
                forall|j: int| 0 <= j < rows@.len() ==> rows@[j] as int == #[trigger] vi[j],
                forall|j: int| 0 <= j < rows@.len() ==> #[trigger] rows@[j] < self.music@.len(),
                picked@.len() == candidates(self.lyrics@, vi.take(k as int)).len(),
                forall|j: int|
                    0 <= j < picked@.len() ==> picked@[j] == self.music@[#[trigger] candidates(
                        self.lyrics@,
                        vi.take(k as int),
                    )[j]],
            decreases rows@.len() - k,
        {
            let i = rows[k];
            assert(vi.take(k + 1).drop_last() =~= vi.take(k as int));
            assert(vi.take(k + 1).last() == i as int);
            let take = match &self.lyrics[i] {
                Some(l) => l.is_retry_candidate(),
                None => false,
            };
            if take {
                let track = self.music[i].duplicate();
                picked.push(track);
            }
            k = k + 1;
        }
        assert(vi.take(rows@.len() as int) =~= vi);
        if self.progress.issue(picked.len()) {
            self.fetch_queue.append(&mut picked);
        }
    }

    /// Requests a fetch of the selected row's track, then moves the selection down.
    pub fn scan_song(&mut self)
        requires
            old(self).wf(),
        ensures
            final(self).wf(),
            State::scan_song_post(*old(self), *final(self)),
    {
        let rows = self.visible_rows();
        if self.selected < rows.len() {
            let index = rows[self.selected];
            self.scan_music(index);
        }
        self.selected = next_selection_exec(self.selected, rows.len());
    }

    /// Moves the selection one visible row down.
    pub fn select_next(&mut self)
        requires
            old(self).wf(),
        ensures
            final(self).wf(),
            *final(self) == (State {
                selected: next_selection(old(self).selected, old(self).rows().len() as int),
                ..*old(self)
            }),
    {
        let n = self.visible_rows().len();
        self.selected = next_selection_exec(self.selected, n);
    }

    /// Moves the selection one visible row up.
    pub fn select_previous(&mut self)
        requires
            old(self).wf(),
        ensures
            final(self).wf(),
            *final(self) == (State {
                selected: previous_selection(old(self).selected, old(self).rows().len() as int),
                ..*old(self)
            }),
    {
        let n = self.visible_rows().len();
        if self.selected > 0 {
            self.selected = clamp_selection(self.selected - 1, n);
        }
    }

    /// Asks the event loop to stop.
    pub fn quit(&mut self)
        ensures
            *final(self) == (State { will_quit: true, ..*old(self) }),
    {
        self.will_quit = true;
    }

    /// Sets one filter field; `None` removes the constraint.
    pub fn set_field(&mut self, field: Fields, value: Option<String>)
        requires
            old(self).wf(),
        ensures
            final(self).wf(),
            *final(self) == (State { filter: filter_with(old(self).filter, field, value), ..*old(self) }),
    {
        match field {
            Fields::Title => self.filter.title = value,
            Fields::Artist => self.filter.artist = value,
            Fields::Album => self.filter.album = value,
        }
    }

    /// Enters text entry for a field, starting from its current value.
    pub fn open_field(&mut self, field: Fields)
        requires
            old(self).wf(),
        ensures
            final(self).wf(),
            State::open_field_post(*old(self), *final(self), field),
    {
        let current = match field {
            Fields::Title => &self.filter.title,
            Fields::Artist => &self.filter.artist,
            Fields::Album => &self.filter.album,
        };
        let text = match current {
            Some(v) => v.clone(),
            None => String::new(),
        };
        self.current_string = text;
        self.field = Some(field);
    }

    /// Handles one key press. In text entry every key edits the buffer:
    /// characters are appended, backspace removes the last one, enter commits
    /// the buffer to the field (an empty buffer clears it), leaves text entry
    /// and keeps the selection within the new visible rows. Otherwise the key
    /// runs the command bound to it on the current screen, if any.
    pub fn event_handler(&mut self, key: Key)
        requires
            old(self).wf(),
        ensures
            final(self).wf(),
            old(self).field is None ==> match spec_binding(old(self).screen, key) {
                Some(f) => State::call_post(*old(self), *final(self), f),
                None => *final(self) == *old(self),
            },
            old(self).field matches Some(field) ==> match key {
                Key::Enter => {
                    let value = if old(self).current_string@.len() == 0 {
                        None
                    } else {
                        Some(old(self).current_string)
                    };
                    let filter = filter_with(old(self).filter, field, value);
                    let rows = visible_indices(filter, old(self).music@);
                    &&& final(self).current_string@.len() == 0
                    &&& *final(self) == (State {
                        filter,
                        field: None,
                        current_string: final(self).current_string,
                        selected: clamp(old(self).selected as int, rows.len() as int) as usize,
                        ..*old(self)
                    })
                },
                Key::Char(c) => {
                    &&& final(self).current_string@ == old(self).current_string@.push(c)
                    &&& *final(self) == (State {
                        current_string: final(self).current_string,
                        ..*old(self)
                    })
                },
                Key::Backspace => {
                    &&& final(self).current_string@ == if old(self).current_string@.len() == 0 {
                        old(self).current_string@
                    } else {
                        old(self).current_string@.drop_last()
                    }
                    &&& *final(self) == (State {
                        current_string: final(self).current_string,
                        ..*old(self)
                    })
                },
                Key::Other => *final(self) == *old(self),
            },
    {
        match self.field {
            Some(field) => match key {
                Key::Enter => {
                    let value = if self.current_string.as_str().is_empty() {
                        None
                    } else {
                        let res = Some(self.current_string.clone());
                        self.current_string = String::new();
                        res
                    };
                    self.set_field(field, value);
                    self.field = None;
                    let n = self.visible_rows().len();
                    self.selected = clamp_selection(self.selected, n);
                },
                Key::Char(c) => {
                    push_char(&mut self.current_string, c);
                },
                Key::Backspace => {
                    pop_char(&mut self.current_string);
                },
                Key::Other => {},
            },
            None => {
                if let Some(f) = binding(self.screen, key) {
                    f.call(self);
                }
            },
        }
    }
}

fn next_selection_exec(sel: usize, n: usize) -> (r: usize)
    ensures
        r == next_selection(sel, n as int),
{
    if n == 0 {
        0
    } else if sel >= n - 1 {
        n - 1
    } else {
        sel + 1
    }
}

impl Func {
    /// Runs the command on the session state.
    pub fn call(&self, state: &mut State)
        requires
            old(state).wf(),
        ensures
            final(state).wf(),
            State::call_post(*old(state), *final(state), *self),
    {
        match self {
            Func::ScanAll => state.scan_all(),
            Func::ScanSelected => state.scan_song(),
            Func::SelectNext => state.select_next(),
            Func::SelectPrevious => state.select_previous(),
            Func::Quit => state.quit(),
            Func::OpenFilterTitle => state.open_field(Fields::Title),
            Func::OpenFilterAlbum => state.open_field(Fields::Album),
            Func::OpenFilterArtist => state.open_field(Fields::Artist),
            Func::OpenFiltersPopup => {
                state.screen = Screens::Filters;
            },
            Func::CloseFiltersPopup => {
                state.screen = Screens::Main;
            },
            Func::FiltersSelectNext => {
                state.filters_selected = popup_select_next(state.filters_selected);
            },
            Func::FiltersSelectPrevious => {
                state.filters_selected = popup_select_previous(state.filters_selected);
            },
            Func::OpenSelectedFilter => {
                if let Some(field) = field_at(state.filters_selected) {
                    state.open_field(field);
                }
            },
        }
    }
}

} // verus!
