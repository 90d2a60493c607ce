use vstd::prelude::*;

verus! {

/// The number of offsets in the table that libdiscid's `discid_put` expects:
/// the leadout and up to 99 tracks, each at the index of its track number.
pub const OFFSETS_TABLE_LEN: usize = 100;

/// The number of the last track of a disc whose first track is `first` and
/// whose offsets list (leadout, then one offset per track) has `n` entries,
/// with `n` taken as a C `int` (its low 32 bits, as `as` casts it).
pub open spec fn last_track(first: int, n: nat) -> int {
    first + (n as i32) - 2
}

/// Track limits that libdiscid accepts: `1 <= first <= last <= 99`.
pub open spec fn legal_track_limits(first: int, last: int) -> bool {
    1 <= first <= last <= 99
}

/// The offsets list is spread over a table of 100 entries: the first track
/// is above 1 and the last track is at most 99.
pub open spec fn needs_table(first: int, last: int) -> bool {
    first > 1 && last <= 99
}

/// The table of 100 offsets for a disc whose tracks start at `first`:
/// entry 0 is the leadout, entry `t` holds the offset of track `t` for each
/// track `first <= t <= last`, and every other entry is 0.
pub open spec fn offsets_table(first: int, offsets: Seq<i32>) -> Seq<i32> {
    let last = last_track(first, offsets.len());
    Seq::new(
        OFFSETS_TABLE_LEN as nat,
        |t: int|
            if t == 0 {
                offsets[0]
            } else if first <= t <= last {
                offsets[t - first + 1]
            } else {
                0i32
            },
    )
}

/// The offsets handed to `discid_put` for the given first track and
/// offsets list: the list itself where it can be read as it stands, else the
/// table of 100 entries.
pub open spec fn put_offsets(first: int, offsets: Seq<i32>) -> Seq<i32> {
    if needs_table(first, last_track(first, offsets.len())) {
        offsets_table(first, offsets)
    } else {
        offsets
    }
}

/// What `discid_put` is called with: the track limits and the offsets, laid
/// out as libdiscid reads them.
pub struct PutRequest {
    /// Number of the first track.
    pub first: i32,
    /// Number of the last track.
    pub last: i32,
    /// Where `first > 1` and `last <= 99`, the table of 100 entries: the
    /// leadout at index 0, the offset of track `t` at index `t`, zeros
    /// elsewhere. Otherwise the offsets as given: the leadout at index 0,
    /// the offset of track `t` at index `t - first + 1`.
    pub offsets: Vec<i32>,
}

impl PutRequest {
    /// Lays out the offsets of a disc whose first track is `first`.
    ///
    /// `offsets[0]` is the leadout (the total number of sectors) and
    /// `offsets[i]` the start sector of track `first + i - 1`. Where the
    /// first track is above 1 and the last track is at most 99, the offsets
    /// are spread over a table of 100 entries, with zeros before the first
    /// track and after the last; in every other case they are taken as they
    /// stand. The limits are not checked here: libdiscid rejects
    /// illegal ones.
    ///
    /// The count of offsets is taken as a C `int`; the computation of the
    /// last track must not overflow, and where a table is needed there must
    /// be a leadout and no more offsets than a C `int` counts.
    pub fn new(first: i32, offsets: &[i32]) -> (r: PutRequest)
        requires
            i32::MIN <= first + (offsets@.len() as i32) <= i32::MAX,
            i32::MIN <= last_track(first as int, offsets@.len()),
            needs_table(first as int, last_track(first as int, offsets@.len()))
                ==> 1 <= offsets@.len() <= i32::MAX,
        ensures
            r.first == first,
            r.last == last_track(first as int, offsets@.len()),
            r.offsets@ == put_offsets(first as int, offsets@),
            r.last == first + (offsets@.len() as i32) - 2,
            offsets@.len() <= i32::MAX ==> r.last == first + offsets@.len() - 2,
            !(first > 1 && r.last <= 99) ==> r.offsets@ == offsets@,
            first > 1 && r.last <= 99 ==> {
                &&& r.offsets@.len() == 100
                &&& r.offsets@[0] == offsets@[0]
                &&& forall|t: int|
                    first <= t <= r.last ==> #[trigger] r.offsets@[t] == offsets@[t - first + 1]
                &&& forall|t: int|
                    1 <= t < 100 && !(first <= t <= r.last) ==> #[trigger] r.offsets@[t] == 0
            },
    {
        let len = offsets.len() as i32;
        let last = first + len - 2;
        if first > 1 && last <= 99 {
            let ghost table = offsets_table(first as int, offsets@);
            let mut full: Vec<i32> = Vec::new();
            let mut t: usize = 0;
            while t < OFFSETS_TABLE_LEN
                invariant
                    t <= OFFSETS_TABLE_LEN,
                    full@.len() == t,
                    offsets@.len() >= 1,
                    first > 1,
                    last == last_track(first as int, offsets@.len()),
                    last <= 99,
                    table == offsets_table(first as int, offsets@),
                    forall|k: int| 0 <= k < t ==> full@[k] == table[k],
                decreases OFFSETS_TABLE_LEN - t,
            {
                let ti = t as i32;
                let v = if t == 0 {
                    offsets[0]
                } else if first <= ti && ti <= last {
                    offsets[(ti - first + 1) as usize]
                } else {
                    0
                };
                full.push(v);
                t = t + 1;
            }
            assert(full@ =~= table);
            PutRequest { first, last, offsets: full }
        } else {
            PutRequest { first, last, offsets: vstd::slice::slice_to_vec(offsets) }
        }
    }
}

/// The last track handed to libdiscid is the one whose offset is the last
/// entry of the list: with `n` entries (the leadout and `n - 1` tracks from
/// `first` on) it is `first + n - 2`, for every count that a C `int` holds.
pub proof fn law_last_track_is_last_offset(first: int, n: nat)
    requires
        n <= i32::MAX,
    ensures
        last_track(first, n) == first + n - 2,
        last_track(first, n) - first + 1 == n - 1,
{
}

/// Whatever the layout, libdiscid finds the caller's TOC where it reads it:
/// when the track limits `first` and `last = first + n - 2` are legal, the
/// offsets handed over hold at least `last + 1` entries (libdiscid reads no
/// more), entry 0 is the leadout, entry `t` the offset of track `t` for each
/// track from the first to the last, and every entry before the first track
/// is 0.
pub proof fn law_put_offsets_hold_toc(first: int, offsets: Seq<i32>)
    requires
        1 <= first <= first + offsets.len() - 2 <= 99,
    ensures
        put_offsets(first, offsets).len() >= first + offsets.len() - 1,
        put_offsets(first, offsets)[0] == offsets[0],
        forall|t: int|
            first <= t <= first + offsets.len() - 2 ==> #[trigger] put_offsets(
                first,
                offsets,
            )[t] == offsets[t - first + 1],
        forall|t: int| 1 <= t < first ==> #[trigger] put_offsets(first, offsets)[t] == 0,
{
    assert(offsets.len() as i32 == offsets.len());
}

} // verus!
