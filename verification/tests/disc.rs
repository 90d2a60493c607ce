use discid::{DiscId, Track};

const OFFSETS: [i32; 11] = [
    206535, 150, 18901, 39738, 59557, 79152, 100126, 124833, 147278, 166336, 182560,
];

/// A disc with first track `first` and the given offsets, with the values
/// that libdiscid reports after a put: the track offsets as given, each
/// track's length up to the next track (the last one up to the leadout), no
/// ISRC. The IDs are placeholders: libdiscid computes them.
fn disc_from_offsets(first: i32, offsets: &[i32]) -> DiscId {
    let count = offsets.len() - 1;
    let last = first + count as i32 - 1;
    let track_offsets: Vec<i32> = offsets[1..].to_vec();
    let lengths: Vec<i32> = (1..=count)
        .map(|i| if i < count { offsets[i + 1] - offsets[i] } else { offsets[0] - offsets[i] })
        .collect();
    let isrcs = vec![String::new(); count];
    let toc: Vec<String> = [first, last]
        .iter()
        .chain(offsets.iter())
        .map(|v| v.to_string())
        .collect();
    DiscId::from_toc(
        "musicbrainz-id".to_string(),
        "freedb-id".to_string(),
        toc.join(" "),
        String::new(),
        String::new(),
        first,
        last,
        offsets[0],
        track_offsets,
        lengths,
        isrcs,
    )
}

#[test]
fn test_nth_track() {
    let first = 1;
    let offsets = OFFSETS;
    let disc = disc_from_offsets(first, &offsets);
    let track = disc.nth_track(4);
    let expected_offset = offsets[4];
    let expected_sectors = offsets[5] - offsets[4];
    assert_eq!(4, track.number);
    assert_eq!("", track.isrc);
    assert_eq!(
        expected_offset, track.offset,
        "track {} expected offset {}",
        track.number, expected_offset
    );
    assert_eq!(
        expected_sectors, track.sectors,
        "track {} expected sectors {}",
        track.number, expected_sectors
    );
}

#[test]
fn test_debug() {
    let first = 1;
    let offsets = [2000, 150, 1000];
    let disc = disc_from_offsets(first, &offsets);
    assert_eq!("DiscId 1 2 2000 150 1000", disc.debug_string());
}

#[test]
fn disc_getters_report_toc() {
    let disc = disc_from_offsets(1, &OFFSETS);
    assert_eq!("musicbrainz-id", disc.id());
    assert_eq!("freedb-id", disc.freedb_id());
    assert_eq!(1, disc.first_track_num());
    assert_eq!(10, disc.last_track_num());
    assert_eq!(206535, disc.sectors());
    assert_eq!(
        "1 10 206535 150 18901 39738 59557 79152 100126 124833 147278 166336 182560",
        disc.toc_string()
    );
    assert_eq!("", disc.mcn());
    assert_eq!("", disc.submission_url());
}

#[test]
fn tracks_yield_every_track_in_order() {
    let disc = disc_from_offsets(1, &OFFSETS);
    let last_track = disc.last_track_num();
    let mut tracks = disc.tracks();
    let mut expected_number = 1;
    while let Some(track) = tracks.next() {
        assert_eq!(expected_number, track.number);
        let offset = OFFSETS[track.number as usize];
        let next = if track.number < last_track { track.number + 1 } else { 0 };
        let length = OFFSETS[next as usize] - offset;
        assert_eq!(offset, track.offset, "track {} expected offset {}", track.number, offset);
        assert_eq!(length, track.sectors, "track {} expected sectors {}", track.number, length);
        expected_number += 1;
    }
    assert_eq!(11, expected_number);
    assert!(tracks.next().is_none());
    assert!(tracks.next().is_none());
}

#[test]
fn tracks_agree_with_nth_track() {
    let disc = disc_from_offsets(3, &OFFSETS);
    assert_eq!(3, disc.first_track_num());
    assert_eq!(12, disc.last_track_num());
    let mut tracks = disc.tracks();
    for number in 3..=12 {
        let from_iter: Track = tracks.next().expect("a track");
        let nth = disc.nth_track(number);
        assert_eq!(number, nth.number);
        assert_eq!(nth.number, from_iter.number);
        assert_eq!(nth.offset, from_iter.offset);
        assert_eq!(nth.sectors, from_iter.sectors);
        assert_eq!(nth.isrc, from_iter.isrc);
    }
    assert!(tracks.next().is_none());
}

#[test]
fn isrcs_are_kept_per_track() {
    let disc = DiscId::from_toc(
        String::new(),
        String::new(),
        String::new(),
        String::new(),
        "0724349805324".to_string(),
        5,
        6,
        3000,
        vec![150, 1200],
        vec![1050, 1800],
        vec!["DEA619300001".to_string(), "DEA619300002".to_string()],
    );
    assert_eq!("0724349805324", disc.mcn());
    let t5 = disc.nth_track(5);
    let t6 = disc.nth_track(6);
    assert_eq!((5, 150, 1050), (t5.number, t5.offset, t5.sectors));
    assert_eq!("DEA619300001", t5.isrc);
    assert_eq!((6, 1200, 1800), (t6.number, t6.offset, t6.sectors));
    assert_eq!("DEA619300002", t6.isrc);
}

#[test]
fn disc_without_tracks_yields_none() {
    let disc = DiscId::from_toc(
        String::new(),
        String::new(),
        String::new(),
        String::new(),
        String::new(),
        1,
        0,
        0,
        vec![],
        vec![],
        vec![],
    );
    assert!(disc.tracks().next().is_none());
}

#[test]
fn try_nth_track_refuses_out_of_range() {
    let disc = disc_from_offsets(1, &OFFSETS);
    match disc.try_nth_track(11) {
        Err(m) => assert_eq!("track number out of bounds: given 11, expected between 1 and 10", m),
        Ok(_) => panic!("track 11 accepted"),
    }
    match disc.try_nth_track(0) {
        Err(m) => assert_eq!("track number out of bounds: given 0, expected between 1 and 10", m),
        Ok(_) => panic!("track 0 accepted"),
    }
    match disc.try_nth_track(-2147483648) {
        Err(m) => assert_eq!(
            "track number out of bounds: given -2147483648, expected between 1 and 10",
            m
        ),
        Ok(_) => panic!("track accepted"),
    }
}

#[test]
fn try_nth_track_accepts_in_range() {
    let disc = disc_from_offsets(3, &OFFSETS);
    for number in 3..=12 {
        let track = disc.try_nth_track(number).expect("in range");
        assert_eq!(number, track.number);
        assert_eq!(OFFSETS[(number - 2) as usize], track.offset);
    }
    match disc.try_nth_track(13) {
        Err(m) => assert_eq!("track number out of bounds: given 13, expected between 3 and 12", m),
        Ok(_) => panic!("track 13 accepted"),
    }
}

#[test]
fn disc_with_last_before_first_has_no_tracks() {
    let disc = DiscId::from_toc(
        String::new(),
        String::new(),
        String::new(),
        String::new(),
        String::new(),
        5,
        2,
        0,
        vec![],
        vec![],
        vec![],
    );
    assert!(disc.tracks().next().is_none());
    assert!(disc.try_nth_track(5).is_err());
}
