use vstd::prelude::*;
use vstd::string::*;

use crate::text::{append_decimal, decimal_text};

verus! {

/// Holds information about a single track.
#[derive(Debug)]
pub struct Track {
    /// Track number (1-99) of the track.
    pub number: i32,
    /// Start offset in sectors.
    pub offset: i32,
    /// Track length in sectors.
    pub sectors: i32,
    /// ISRC for this track (might be empty).
    ///
    /// This will only be set if the disc was read with the ISRC feature.
    pub isrc: String,
}

impl Track {
    /// A track equal to this one.
    fn duplicate(&self) -> (r: Track)
        ensures
            r == *self,
    {
        Track {
            number: self.number,
            offset: self.offset,
            sectors: self.sectors,
            isrc: self.isrc.clone(),
        }
    }
}

/// The tracks `number == first + i` at index `i`, for each index.
pub open spec fn numbered_from(tracks: Seq<Track>, first: int) -> bool {
    forall|i: int| 0 <= i < tracks.len() ==> #[trigger] tracks[i].number == first + i
}

/// What a `DiscId` holds: the disc's IDs, TOC and tracks, as libdiscid
/// reported them.
pub struct DiscIdView {
    /// The MusicBrainz disc ID.
    pub id: Seq<char>,
    /// The FreeDB disc ID.
    pub freedb_id: Seq<char>,
    /// The TOC: first and last track number, sectors, then each track's
    /// offset, separated by spaces.
    pub toc_string: Seq<char>,
    /// The URL for submitting the disc ID to MusicBrainz.
    pub submission_url: Seq<char>,
    /// The media catalogue number (empty where none was read).
    pub mcn: Seq<char>,
    /// The number of the first track.
    pub first_track_num: int,
    /// The number of the last track.
    pub last_track_num: int,
    /// The length of the disc in sectors.
    pub sectors: int,
    /// The tracks, from the first to the last.
    pub tracks: Seq<Track>,
}

/// The number of tracks from `first` to `last`: none where `last` comes
/// before `first`.
pub open spec fn track_count(first: int, last: int) -> int {
    if last >= first {
        last - first + 1
    } else {
        0
    }
}

/// The message with which a track number out of the range from `first` to
/// `last` is refused.
pub open spec fn out_of_bounds_message(number: int, first: int, last: int) -> Seq<char> {
    "track number out of bounds: given "@ + decimal_text(number) + ", expected between "@
        + decimal_text(first) + " and "@ + decimal_text(last)
}

impl DiscIdView {
    /// One track for each number from the first to the last, in order.
    pub open spec fn wf(self) -> bool {
        &&& self.tracks.len() == track_count(self.first_track_num, self.last_track_num)
        &&& numbered_from(self.tracks, self.first_track_num)
    }
}

/// `DiscId` holds information about a disc (TOC, MCN, ISRCs).
///
/// A value is made from what libdiscid reports after reading a disc or
/// being given a TOC: see `DiscId::from_toc`.
pub struct DiscId {
    id: String,
    freedb_id: String,
    toc_string: String,
    submission_url: String,
    mcn: String,
    first_track_num: i32,
    last_track_num: i32,
    sectors: i32,
    tracks: Vec<Track>,
}

impl View for DiscId {
    type V = DiscIdView;

    closed spec fn view(&self) -> DiscIdView {
        DiscIdView {
            id: self.id@,
            freedb_id: self.freedb_id@,
            toc_string: self.toc_string@,
            submission_url: self.submission_url@,
            mcn: self.mcn@,
            first_track_num: self.first_track_num as int,
            last_track_num: self.last_track_num as int,
            sectors: self.sectors as int,
            tracks: self.tracks@,
        }
    }
}

impl DiscId {
    #[verifier::type_invariant]
    spec fn tracks_numbered(self) -> bool {
        self@.wf()
    }

    /// The disc with the given IDs and TOC, and the tracks from the first to
    /// the last: track `first_track_num + i` starts at `offsets[i]`, is
    /// `lengths[i]` sectors long and has the ISRC `isrcs[i]`.
    pub fn from_toc(
        id: String,
        freedb_id: String,
        toc_string: String,
        submission_url: String,
        mcn: String,
        first_track_num: i32,
        last_track_num: i32,
        sectors: i32,
        offsets: Vec<i32>,
        lengths: Vec<i32>,
        isrcs: Vec<String>,
    ) -> (r: DiscId)
        requires
            offsets@.len() == track_count(first_track_num as int, last_track_num as int),
            lengths@.len() == offsets@.len(),
            isrcs@.len() == offsets@.len(),
        ensures
            r@.id == id@,
            r@.freedb_id == freedb_id@,
            r@.toc_string == toc_string@,
            r@.submission_url == submission_url@,
            r@.mcn == mcn@,
            r@.first_track_num == first_track_num,
            r@.last_track_num == last_track_num,
            r@.sectors == sectors,
            r@.wf(),
            forall|i: int|
                0 <= i < offsets@.len() ==> (#[trigger] r@.tracks[i]) == (Track {
                    number: (first_track_num + i) as i32,
                    offset: offsets@[i],
                    sectors: lengths@[i],
                    isrc: isrcs@[i],
                }),
    {
        let n = offsets.len();
        let mut tracks: Vec<Track> = Vec::new();
        let mut i: usize = 0;
        while i < n
            invariant
                n == offsets@.len(),
                lengths@.len() == n,
                isrcs@.len() == n,
                n == track_count(first_track_num as int, last_track_num as int),
                i <= n,
                tracks@.len() == i,
                forall|k: int|
                    0 <= k < i ==> (#[trigger] tracks@[k]) == (Track {
                        number: (first_track_num + k) as i32,
                        offset: offsets@[k],
                        sectors: lengths@[k],
                        isrc: isrcs@[k],
                    }),
            decreases n - i,
        {
            let number = (first_track_num as i64 + i as i64) as i32;
            assert(number == first_track_num + i);
            tracks.push(
                Track { number, offset: offsets[i], sectors: lengths[i], isrc: isrcs[i].clone() },
            );
            assert(tracks@[i as int] == Track {
                number: (first_track_num + i) as i32,
                offset: offsets@[i as int],
                sectors: lengths@[i as int],
                isrc: isrcs@[i as int],
            });
            i = i + 1;
        }
        assert(numbered_from(tracks@, first_track_num as int));
        DiscId {
            id,
            freedb_id,
            toc_string,
            submission_url,
            mcn,
            first_track_num,
            last_track_num,
            sectors,
            tracks,
        }
    }
}

impl DiscId {
    /// The MusicBrainz disc ID.
    pub fn id(&self) -> (r: String)
        ensures
            r@ == self@.id,
    {
        self.id.clone()
    }

    /// The FreeDB disc ID.
    pub fn freedb_id(&self) -> (r: String)
        ensures
            r@ == self@.freedb_id,
    {
        self.freedb_id.clone()
    }

    /// The string representing the disc's Table Of Contents (TOC).
    pub fn toc_string(&self) -> (r: String)
        ensures
            r@ == self@.toc_string,
    {
        self.toc_string.clone()
    }

    /// An URL for submitting the disc ID to MusicBrainz.
    pub fn submission_url(&self) -> (r: String)
        ensures
            r@ == self@.submission_url,
    {
        self.submission_url.clone()
    }

    /// The number of the first track on this disc.
    pub fn first_track_num(&self) -> (r: i32)
        ensures
            r == self@.first_track_num,
    {
        self.first_track_num
    }

    /// The number of the last track on this disc.
    pub fn last_track_num(&self) -> (r: i32)
        ensures
            r == self@.last_track_num,
    {
        self.last_track_num
    }

    /// The length of the disc in sectors.
    pub fn sectors(&self) -> (r: i32)
        ensures
            r == self@.sectors,
    {
        self.sectors
    }

    /// The media catalogue number on the disc, if present.
    pub fn mcn(&self) -> (r: String)
        ensures
            r@ == self@.mcn,
    {
        self.mcn.clone()
    }

    /// The disc in debug form: `DiscId ` followed by the TOC string.
    pub fn debug_string(&self) -> (r: String)
        ensures
            r@ == "DiscId "@ + self@.toc_string,
    {
        let mut s = String::from_str("DiscId ");
        s.append(self.toc_string.as_str());
        s
    }

    /// Returns the track with the given number, which must lie between
    /// `first_track_num()` and `last_track_num()`.
    pub fn nth_track(&self, number: i32) -> (r: Track)
        requires
            self@.first_track_num <= number <= self@.last_track_num,
        ensures
            r == self@.tracks[number - self@.first_track_num],
            r.number == number,
    {
        proof {
            use_type_invariant(self);
        }
        let i = (number as i64 - self.first_track_num as i64) as usize;
        self.tracks[i].duplicate()
    }

    /// Returns the track with the given number where it lies between
    /// `first_track_num()` and `last_track_num()`; otherwise the message
    /// with which `nth_track` refuses the number.
    pub fn try_nth_track(&self, number: i32) -> (r: Result<Track, String>)
        ensures
            r is Err <==> number < self@.first_track_num || number > self@.last_track_num,
            r matches Ok(t) ==> t == self@.tracks[number - self@.first_track_num] && t.number
                == number,
            r matches Err(m) ==> m@ == out_of_bounds_message(
                number as int,
                self@.first_track_num,
                self@.last_track_num,
            ),
    {
        let first = self.first_track_num;
        let last = self.last_track_num;
        if number < first || number > last {
            let mut m = String::from_str("track number out of bounds: given ");
            append_decimal(&mut m, number);
            m.append(", expected between ");
            append_decimal(&mut m, first);
            m.append(" and ");
            append_decimal(&mut m, last);
            Err(m)
        } else {
            Ok(self.nth_track(number))
        }
    }

    /// Returns an iterator over the tracks of the disc, from the first to the
    /// last.
    pub fn tracks(&self) -> (r: TrackIter)
        ensures
            r@ == self@.tracks,
            self@.wf(),
    {
        proof {
            use_type_invariant(self);
        }
        let mut copy: Vec<Track> = Vec::new();
        let n = self.tracks.len();
        let mut i: usize = 0;
        while i < n
            invariant
                n == self.tracks@.len(),
                i <= n,
                copy@ == self.tracks@.subrange(0, i as int),
            decreases n - i,
        {
            copy.push(self.tracks[i].duplicate());
            i = i + 1;
            assert(copy@ =~= self.tracks@.subrange(0, i as int));
        }
        assert(self.tracks@.subrange(0, n as int) =~= self.tracks@);
        let r = TrackIter { tracks: copy, next: 0 };
        assert(r@ =~= self@.tracks);
        r
    }
}

/// What a call of `TrackIter::next` returns when the tracks `s` remain: the
/// first of them, or `None` where none remains.
pub open spec fn next_item(s: Seq<Track>) -> Option<Track> {
    if s.len() > 0 {
        Some(s[0])
    } else {
        None
    }
}

/// The tracks that remain after a call of `TrackIter::next` when the tracks
/// `s` remained before it.
pub open spec fn after_next(s: Seq<Track>) -> Seq<Track> {
    if s.len() > 0 {
        s.drop_first()
    } else {
        s
    }
}

/// The tracks that remain after `k` calls of `TrackIter::next`.
pub open spec fn after_calls(s: Seq<Track>, k: nat) -> Seq<Track>
    decreases k,
{
    if k == 0 {
        s
    } else {
        after_next(after_calls(s, (k - 1) as nat))
    }
}

/// Allows iterating over all tracks of a disc.
pub struct TrackIter {
    tracks: Vec<Track>,
    next: usize,
}

impl View for TrackIter {
    type V = Seq<Track>;

    /// The tracks that are still to come, in order.
    closed spec fn view(&self) -> Seq<Track> {
        self.tracks@.subrange(self.next as int, self.tracks@.len() as int)
    }
}

impl TrackIter {
    #[verifier::type_invariant]
    spec fn next_in_range(self) -> bool {
        self.next <= self.tracks@.len()
    }

    /// The next track, or `None` once every track was returned.
    pub fn next(&mut self) -> (r: Option<Track>)
        ensures
            r == next_item(old(self)@),
            final(self)@ == after_next(old(self)@),
            old(self)@.len() > 0 ==> r == Some(old(self)@[0]) && final(self)@ == old(
                self,
            )@.subrange(1, old(self)@.len() as int),
            old(self)@.len() == 0 ==> r is None && final(self)@ == old(self)@,
    {
        proof {
            use_type_invariant(&*self);
        }
        if self.next < self.tracks.len() {
            let t = self.tracks[self.next].duplicate();
            self.next = self.next + 1;
            assert(self@ =~= old(self)@.drop_first());
            Some(t)
        } else {
            None
        }
    }
}

/// The tracks of a disc run from the first track number to the last, one
/// for each number and in order: the track at position `i` (the `i`-th one
/// that `tracks()` yields, the one that `nth_track(first + i)` returns)
/// carries the number `first + i`, and there are `last - first + 1` of them
/// (none where `last` comes before `first`).
pub proof fn law_tracks_by_number(d: DiscIdView, i: int)
    requires
        d.wf(),
        0 <= i < d.tracks.len(),
    ensures
        d.first_track_num <= d.first_track_num + i <= d.last_track_num,
        d.tracks[i].number == d.first_track_num + i,
        d.tracks.len() == track_count(d.first_track_num, d.last_track_num),
{
}

proof fn lemma_after_calls(s: Seq<Track>, k: nat)
    ensures
        k <= s.len() ==> after_calls(s, k) == s.skip(k as int),
        k > s.len() ==> after_calls(s, k).len() == 0,
    decreases k,
{
    if k > 0 {
        lemma_after_calls(s, (k - 1) as nat);
        if k <= s.len() {
            assert(s.skip((k - 1) as int).drop_first() =~= s.skip(k as int));
        }
    } else {
        assert(s.skip(0) =~= s);
    }
}

/// Iterating over a disc's tracks: on the iterator that `tracks()` returns,
/// the `k + 1`-th call of `next` returns the track numbered `first + k`
/// (the one that `nth_track(first + k)` returns) for each `k` up to
/// `last - first`, and every later call returns `None`.
pub proof fn law_iteration_yields_tracks_in_order(d: DiscIdView, k: nat)
    requires
        d.wf(),
    ensures
        k < d.tracks.len() ==> {
            &&& next_item(after_calls(d.tracks, k)) == Some(d.tracks[k as int])
            &&& d.tracks[k as int].number == d.first_track_num + k
            &&& d.first_track_num + k <= d.last_track_num
        },
        k >= d.tracks.len() ==> next_item(after_calls(d.tracks, k)) is None,
{
    lemma_after_calls(d.tracks, k);
    if k < d.tracks.len() {
        assert(d.tracks.skip(k as int)[0] == d.tracks[k as int]);
    } else if k == d.tracks.len() {
        assert(d.tracks.skip(k as int).len() == 0);
    }
}

/// A track number between the first and the last is answered with the track
/// of that number (the one at position `number - first`); `try_nth_track`
/// refuses exactly the numbers outside, as `nth_track` requires.
pub proof fn law_nth_track_in_range(d: DiscIdView, number: int)
    requires
        d.wf(),
        d.first_track_num <= number <= d.last_track_num,
    ensures
        0 <= number - d.first_track_num < d.tracks.len(),
        d.tracks[number - d.first_track_num].number == number,
{
}

} // verus!
