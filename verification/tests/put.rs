use discid::PutRequest;

const OFFSETS: [i32; 11] = [
    206535, 150, 18901, 39738, 59557, 79152, 100126, 124833, 147278, 166336, 182560,
];

#[test]
fn put_first_track_one_passes_offsets_as_they_stand() {
    let req = PutRequest::new(1, &OFFSETS);
    assert_eq!(1, req.first);
    assert_eq!(10, req.last);
    assert_eq!(OFFSETS.to_vec(), req.offsets);
}

#[test]
fn put_first_track_three_spreads_offsets_over_table() {
    let req = PutRequest::new(3, &OFFSETS);
    assert_eq!(3, req.first);
    assert_eq!(12, req.last);
    assert_eq!(100, req.offsets.len());
    assert_eq!(206535, req.offsets[0]);
    assert_eq!(0, req.offsets[1]);
    assert_eq!(0, req.offsets[2]);
    for t in 3..=12 {
        assert_eq!(OFFSETS[t - 2], req.offsets[t], "track {}", t);
    }
    for t in 13..100 {
        assert_eq!(0, req.offsets[t], "entry {}", t);
    }
}

#[test]
fn put_last_track_99_fills_table_to_its_end() {
    let mut offsets = vec![300000];
    for t in 0..9 {
        offsets.push(150 + 1000 * t);
    }
    let req = PutRequest::new(91, &offsets);
    assert_eq!(99, req.last);
    assert_eq!(100, req.offsets.len());
    assert_eq!(300000, req.offsets[0]);
    assert_eq!(0, req.offsets[90]);
    assert_eq!(150, req.offsets[91]);
    assert_eq!(8150, req.offsets[99]);
}

#[test]
fn put_too_many_offsets_passes_them_on() {
    // libdiscid rejects last track 100 with "Illegal track limits".
    let offsets: [i32; 101] = [0; 101];
    let req = PutRequest::new(1, &offsets);
    assert_eq!(100, req.last);
    assert_eq!(101, req.offsets.len());
}

#[test]
fn put_too_many_tracks_passes_them_on() {
    // libdiscid rejects last track 110 with "Illegal track limits".
    let offsets: [i32; 101] = [0; 101];
    let req = PutRequest::new(11, &offsets);
    assert_eq!(11, req.first);
    assert_eq!(110, req.last);
    assert_eq!(offsets.to_vec(), req.offsets);
}

#[test]
fn put_leadout_only_after_track_99() {
    let req = PutRequest::new(100, &[5000]);
    assert_eq!(99, req.last);
    assert_eq!(100, req.offsets.len());
    assert_eq!(5000, req.offsets[0]);
    assert!(req.offsets[1..].iter().all(|&o| o == 0));
}

#[test]
fn put_empty_offsets_with_first_track_one() {
    let req = PutRequest::new(1, &[]);
    assert_eq!(-1, req.last);
    assert!(req.offsets.is_empty());
}

#[test]
fn put_negative_first_track_is_passed_on() {
    let req = PutRequest::new(-5, &[1000, 150]);
    assert_eq!(-5, req.first);
    assert_eq!(-5, req.last);
    assert_eq!(vec![1000, 150], req.offsets);
}
