use vstd::prelude::*;

verus! {

/// The paths among `paths` whose flag in `keep` is set, in their order.
pub open spec fn kept_paths(paths: Seq<Seq<char>>, keep: Seq<bool>) -> Seq<Seq<char>>
    decreases paths.len(),
{
    if paths.len() == 0 {
        seq![]
    } else {
        let rest = kept_paths(paths.drop_last(), keep.take(paths.len() - 1));
        if keep[paths.len() - 1] {
            rest.push(paths.last())
        } else {
            rest
        }
    }
}

/// `tracks` with `path` appended, unless it is already listed.
pub open spec fn with_track(tracks: Seq<Seq<char>>, path: Seq<char>) -> Seq<Seq<char>> {
    if tracks.contains(path) {
        tracks
    } else {
        tracks.push(path)
    }
}

/// `tracks` with each of `paths` added in turn by `with_track`.
pub open spec fn with_tracks(tracks: Seq<Seq<char>>, paths: Seq<Seq<char>>) -> Seq<Seq<char>>
    decreases paths.len(),
{
    if paths.len() == 0 {
        tracks
    } else {
        with_track(with_tracks(tracks, paths.drop_last()), paths.last())
    }
}

/// The views of a list of strings.
pub open spec fn views_of(v: Seq<String>) -> Seq<Seq<char>> {
    v.map_values(|s: String| s@)
}

pub proof fn lemma_views_push(v: Seq<String>, s: String)
    ensures
        views_of(v.push(s)) == views_of(v).push(s@),
{
    assert(views_of(v.push(s)) =~= views_of(v).push(s@));
}

proof fn lemma_take_next<A>(v: Seq<A>, i: int)
    requires
        0 <= i < v.len(),
    ensures
        v.take(i + 1) == v.take(i).push(v[i]),
{
    assert(v.take(i + 1) =~= v.take(i).push(v[i]));
}

/// The state of a `PlayList`.
pub struct PlayListModel {
    pub tracks: Seq<Seq<char>>,
    pub pos: nat,
    pub repeat: bool,
}

impl PlayListModel {
    pub open spec fn wf(self) -> bool {
        &&& if self.tracks.len() == 0 {
            self.pos == 0
        } else {
            self.pos < self.tracks.len()
        }
    }

    /// The cursor on the next track, the first one after the last.
    pub open spec fn advanced(self) -> PlayListModel {
        PlayListModel {
            pos: if self.pos + 1 >= self.tracks.len() {
                0
            } else {
                self.pos + 1
            },
            ..self
        }
    }

    /// The cursor on the previous track, the last one before the first.
    pub open spec fn retreated(self) -> PlayListModel {
        PlayListModel {
            pos: if self.pos == 0 {
                if self.tracks.len() > 0 {
                    (self.tracks.len() - 1) as nat
                } else {
                    0
                }
            } else {
                (self.pos - 1) as nat
            },
            ..self
        }
    }

    /// The cursor on `actual`, or on the last track when `actual` is past the end.
    pub open spec fn with_actual(self, actual: nat) -> PlayListModel {
        PlayListModel {
            pos: if self.tracks.len() == 0 {
                0
            } else if actual >= self.tracks.len() {
                (self.tracks.len() - 1) as nat
            } else {
                actual
            },
            ..self
        }
    }

    /// The current track removed; the cursor stays on the track that followed
    /// it, or moves to the new last track.
    pub open spec fn removed_current(self) -> PlayListModel {
        if self.tracks.len() == 0 {
            self
        } else {
            PlayListModel {
                tracks: self.tracks.remove(self.pos as int),
                pos: if self.pos + 1 < self.tracks.len() {
                    self.pos
                } else if self.tracks.len() > 1 {
                    (self.tracks.len() - 2) as nat
                } else {
                    0
                },
                ..self
            }
        }
    }

    /// The track that is to play once the current one has ended: the same one
    /// again when repeating, else the next.
    pub open spec fn after_end(self) -> PlayListModel {
        if self.repeat {
            self
        } else {
            self.advanced()
        }
    }
}

/// The ordered list of track paths, with a cursor on the current one.
pub struct PlayList {
    musics: Vec<String>,
    actual: usize,
    repeat: bool,
}

impl PlayList {
    /// The track paths, in order.
    pub closed spec fn tracks(&self) -> Seq<Seq<char>> {
        views_of(self.musics@)
    }

    /// The index of the current track.
    pub closed spec fn pos(&self) -> nat {
        self.actual as nat
    }

    /// Whether the current track is played again when it ends.
    pub closed spec fn repeats(&self) -> bool {
        self.repeat
    }

    pub open spec fn model(&self) -> PlayListModel {
        PlayListModel { tracks: self.tracks(), pos: self.pos(), repeat: self.repeats() }
    }

    /// The cursor points at a track, or is zero on an empty list.
    pub open spec fn wf(&self) -> bool {
        &&& if self.tracks().len() == 0 {
            self.pos() == 0
        } else {
            self.pos() < self.tracks().len()
        }
    }

    pub fn to_vec(&self) -> (r: Vec<String>)
        ensures
            views_of(r@) == self.tracks(),
    {
        let mut r: Vec<String> = Vec::new();
        let mut i: usize = 0;
        while i < self.musics.len()
            invariant
                i <= self.musics@.len(),
                views_of(r@) == views_of(self.musics@).take(i as int),
            decreases self.musics@.len() - i,
        {
            let c = self.musics[i].clone();
            proof {
                lemma_views_push(r@, c);
                lemma_take_next(views_of(self.musics@), i as int);
            }
            r.push(c);
            i += 1;
        }
        assert(views_of(self.musics@).take(i as int) =~= views_of(self.musics@));
        r
    }

    pub fn new() -> (r: PlayList)
        ensures
            r.wf(),
            r.tracks() == Seq::<Seq<char>>::empty(),
            r.pos() == 0,
            !r.repeats(),
    {
        let r = PlayList { musics: Vec::new(), actual: 0, repeat: false };
        assert(r.tracks() =~= Seq::<Seq<char>>::empty());
        r
    }

    /// Keeps the tracks whose flag in `is_file` is set.
    fn init(self, is_file: &Vec<bool>) -> (r: PlayList)
        requires
            is_file@.len() == self.tracks().len(),
        ensures
            r.tracks() == kept_paths(self.tracks(), is_file@),
            r.pos() == 0,
            r.repeats() == self.repeats(),
    {
        let mut tmp: Vec<String> = Vec::new();
        let mut i: usize = 0;
        while i < self.musics.len()
            invariant
                i <= self.musics@.len(),
                is_file@.len() == self.musics@.len(),
                views_of(tmp@) == kept_paths(
                    views_of(self.musics@).take(i as int),
                    is_file@.take(i as int),
                ),
            decreases self.musics@.len() - i,
        {
            let ghost before = views_of(tmp@);
            if is_file[i] {
                tmp.push(self.musics[i].clone());
            }
            i += 1;
            let ghost p = views_of(self.musics@).take(i as int);
            let ghost k = is_file@.take(i as int);
            assert(p.drop_last() =~= views_of(self.musics@).take(i - 1));
            assert(k.take(p.len() - 1) =~= is_file@.take(i - 1));
            assert(views_of(tmp@) =~= kept_paths(p, k));
        }
        assert(views_of(self.musics@).take(i as int) =~= views_of(self.musics@));
        assert(is_file@.take(i as int) =~= is_file@);
        PlayList { musics: tmp, actual: 0, repeat: self.repeat }
    }

    /// Builds a playlist from candidate paths, keeping those that name a file
    /// (`is_file[i]` tells whether `vec[i]` does), in their order.
    pub fn from_vec(vec: &Vec<String>, is_file: &Vec<bool>) -> (r: PlayList)
        requires
            is_file@.len() == vec@.len(),
        ensures
            r.wf(),
            r.tracks() == kept_paths(views_of(vec@), is_file@),
            r.pos() == 0,
            !r.repeats(),
    {
        let mut all = PlayList::new();
        let mut i: usize = 0;
        while i < vec.len()
            invariant
                i <= vec@.len(),
                all.pos() == 0,
                !all.repeats(),
                all.tracks() == views_of(vec@).take(i as int),
            decreases vec@.len() - i,
        {
            let c = vec[i].clone();
            proof {
                lemma_views_push(all.musics@, c);
                lemma_take_next(views_of(vec@), i as int);
            }
            all.musics.push(c);
            i += 1;
        }
        assert(views_of(vec@).take(i as int) =~= views_of(vec@));
        all.init(is_file)
    }

    /// Moves the cursor to `actual`, or to the last track when `actual` is past the end.
    pub fn set_actual(&mut self, actual: usize)
        requires
            old(self).wf(),
        ensures
            final(self).wf(),
            final(self).tracks() == old(self).tracks(),
            final(self).repeats() == old(self).repeats(),
            final(self).pos() == (if old(self).tracks().len() == 0 {
                0
            } else if actual >= old(self).tracks().len() {
                (old(self).tracks().len() - 1) as nat
            } else {
                actual as nat
            }),
    {
        if self.musics.len() == 0 {
            self.actual = 0;
        } else if self.musics.len() <= actual {
            self.actual = self.musics.len() - 1;
        } else {
            self.actual = actual;
        }
    }

    /// Advances to the next track, wrapping to the first, and returns its path.
    pub fn get_next(&mut self) -> (r: String)
        requires
            old(self).wf(),
            old(self).tracks().len() > 0,
        ensures
            final(self).wf(),
            final(self).tracks() == old(self).tracks(),
            final(self).repeats() == old(self).repeats(),
            final(self).pos() == (if old(self).pos() + 1 == old(self).tracks().len() {
                0
            } else {
                old(self).pos() + 1
            }),
            r@ == final(self).tracks()[final(self).pos() as int],
    {
        if self.actual >= self.musics.len() - 1 {
            self.actual = 0;
        } else {
            self.actual = self.actual + 1;
        }
        self.musics[self.actual].clone()
    }

    /// Steps back to the previous track, wrapping to the last, and returns its path.
    pub fn get_prev(&mut self) -> (r: String)
        requires
            old(self).wf(),
            old(self).tracks().len() > 0,
        ensures
            final(self).wf(),
            final(self).tracks() == old(self).tracks(),
            final(self).repeats() == old(self).repeats(),
            final(self).pos() == (if old(self).pos() == 0 {
                (old(self).tracks().len() - 1) as nat
            } else {
                (old(self).pos() - 1) as nat
            }),
            r@ == final(self).tracks()[final(self).pos() as int],
    {
        if self.actual == 0 {
            self.actual = self.musics.len() - 1;
        } else {
            self.actual = self.actual - 1;
        }
        self.musics[self.actual].clone()
    }

    /// Whether `music` is among the tracks.
    fn contains(&self, music: &String) -> (r: bool)
        ensures
            r == self.tracks().contains(music@),
    {
        let mut i: usize = 0;
        while i < self.musics.len()
            invariant
                i <= self.musics@.len(),
                forall|j: int| 0 <= j < i ==> self.tracks()[j] != music@,
            decreases self.musics@.len() - i,
        {
            if self.musics[i] == *music {
                assert(self.tracks()[i as int] == music@);
                return true;
            }
            i += 1;
        }
        false
    }

    /// Appends `music` unless it is already listed.
    pub fn add_music(&mut self, music: String)
        requires
            old(self).wf(),
        ensures
            final(self).wf(),
            final(self).tracks() == with_track(old(self).tracks(), music@),
            final(self).pos() == old(self).pos(),
            final(self).repeats() == old(self).repeats(),
    {
        if !self.contains(&music) {
            proof {
                lemma_views_push(self.musics@, music);
            }
            self.musics.push(music);
        }
    }

    /// Adds each of `musics` in turn with `add_music`.
    pub fn add_musics(&mut self, musics: Vec<String>)
        requires
            old(self).wf(),
        ensures
            final(self).wf(),
            final(self).tracks() == with_tracks(old(self).tracks(), views_of(musics@)),
            final(self).pos() == old(self).pos(),
            final(self).repeats() == old(self).repeats(),
    {
        let mut i: usize = 0;
        while i < musics.len()
            invariant
                i <= musics@.len(),
                self.wf(),
                self.pos() == old(self).pos(),
                self.repeats() == old(self).repeats(),
                self.tracks() == with_tracks(old(self).tracks(), views_of(musics@).take(i as int)),
            decreases musics@.len() - i,
        {
            let m = musics[i].clone();
            proof {
                lemma_take_next(views_of(musics@), i as int);
                assert(views_of(musics@).take(i + 1).drop_last() =~= views_of(musics@).take(
                    i as int,
                ));
            }
            self.add_music(m);
            i += 1;
        }
        assert(views_of(musics@).take(i as int) =~= views_of(musics@));
    }

    /// The path of the first track.
    pub fn start(&self) -> (r: String)
        requires
            self.tracks().len() > 0,
        ensures
            r@ == self.tracks()[0],
    {
        self.musics[0].clone()
    }

    /// Removes the current track; the cursor stays on the track that followed it,
    /// or moves to the new last track when the removed one was last.
    pub fn remove_current(&mut self)
        requires
            old(self).wf(),
        ensures
            final(self).wf(),
            final(self).repeats() == old(self).repeats(),
            old(self).tracks().len() == 0 ==> final(self).tracks() == old(self).tracks()
                && final(self).pos() == 0,
            old(self).tracks().len() > 0 ==> final(self).tracks() == old(self).tracks().remove(
                old(self).pos() as int,
            ),
            old(self).tracks().len() > 0 ==> final(self).pos() == (if old(self).pos() + 1
                < old(self).tracks().len() {
                old(self).pos()
            } else if old(self).tracks().len() > 1 {
                (old(self).tracks().len() - 2) as nat
            } else {
                0
            }),
    {
        if self.musics.len() > 0 {
            let ghost before = self.musics@;
            self.musics.remove(self.actual);
            assert(views_of(self.musics@) =~= views_of(before).remove(self.actual as int));
            if self.musics.len() == 0 {
                self.actual = 0;
            } else if self.musics.len() <= self.actual {
                self.actual = self.musics.len() - 1;
            }
        }
    }

    /// The path of the current track.
    pub fn get_current(&self) -> (r: String)
        requires
            self.wf(),
            self.tracks().len() > 0,
        ensures
            r@ == self.tracks()[self.pos() as int],
    {
        self.musics[self.actual].clone()
    }

    pub fn get_nb_musics(&self) -> (r: usize)
        ensures
            r == self.tracks().len(),
    {
        self.musics.len()
    }

    pub fn get_pos(&self) -> (r: usize)
        ensures
            r == self.pos(),
    {
        self.actual
    }

    pub fn get_repeat(&self) -> (r: bool)
        ensures
            r == self.repeats(),
    {
        self.repeat
    }

    pub fn set_repeat(&mut self, repeat: bool)
        ensures
            final(self).tracks() == old(self).tracks(),
            final(self).pos() == old(self).pos(),
            final(self).repeats() == repeat,
    {
        self.repeat = repeat;
    }
}

} // verus!
