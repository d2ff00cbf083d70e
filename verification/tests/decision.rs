use ducking::engine::{decide, find_primary, has_competing_audio, target_volume};
use ducking::engine::{DUCKED_VOLUME, FULL_VOLUME};
use ducking::stream::{StreamRecord, PRIMARY_BINARY, PRIMARY_NAME};

fn primary(index: u32) -> StreamRecord {
    StreamRecord {
        index,
        corked: false,
        muted: false,
        application_name: String::from("Chromium"),
        application_binary: String::from("youtube-music-desktop-app"),
    }
}

fn other(index: u32, corked: bool, muted: bool) -> StreamRecord {
    StreamRecord {
        index,
        corked,
        muted,
        application_name: String::from("Firefox"),
        application_binary: String::from("firefox"),
    }
}

#[test]
fn volume_levels_are_35_and_100() {
    assert_eq!(DUCKED_VOLUME, 35);
    assert_eq!(FULL_VOLUME, 100);
    assert_eq!(target_volume(true), 35);
    assert_eq!(target_volume(false), 100);
}

#[test]
fn primary_identity_is_the_music_player() {
    assert_eq!(PRIMARY_BINARY, "youtube-music-desktop-app");
    assert_eq!(PRIMARY_NAME, "Chromium");
}

#[test]
fn lone_primary_gets_full_volume() {
    let snapshot = vec![primary(1)];
    assert_eq!(decide(&snapshot), Some((1, 100)));
}

#[test]
fn audible_other_ducks_primary() {
    let snapshot = vec![primary(1), other(2, false, false)];
    assert_eq!(decide(&snapshot), Some((1, 35)));
}

#[test]
fn corked_other_leaves_full_volume() {
    let snapshot = vec![primary(1), other(2, true, false)];
    assert_eq!(decide(&snapshot), Some((1, 100)));
}

#[test]
fn empty_snapshot_gives_no_decision() {
    let snapshot: Vec<StreamRecord> = Vec::new();
    assert_eq!(decide(&snapshot), None);
}

#[test]
fn muted_other_leaves_full_volume() {
    let snapshot = vec![primary(1), other(2, false, true)];
    assert_eq!(decide(&snapshot), Some((1, 100)));
}

#[test]
fn corked_and_muted_other_leaves_full_volume() {
    let snapshot = vec![primary(1), other(2, true, true)];
    assert_eq!(decide(&snapshot), Some((1, 100)));
}

#[test]
fn no_candidate_means_no_decision_whatever_else_plays() {
    let snapshot = vec![
        other(1, false, false),
        other(2, true, false),
        other(3, false, true),
        other(4, true, true),
    ];
    assert_eq!(decide(&snapshot), None);
    assert_eq!(find_primary(&snapshot), None);
}

#[test]
fn corked_primary_application_is_no_candidate() {
    let mut paused = primary(1);
    paused.corked = true;
    assert_eq!(decide(&[paused.clone()]), None);
    assert_eq!(decide(&[paused, other(2, false, false)]), None);
}

#[test]
fn muted_primary_application_is_still_a_candidate() {
    let mut silenced = primary(1);
    silenced.muted = true;
    assert_eq!(decide(&[silenced.clone()]), Some((1, 100)));
    assert_eq!(decide(&[silenced, other(2, false, false)]), Some((1, 35)));
}

#[test]
fn both_names_must_match() {
    let mut wrong_name = primary(1);
    wrong_name.application_name = String::from("Chrome");
    let mut wrong_binary = primary(2);
    wrong_binary.application_binary = String::from("chromium");
    let mut swapped = primary(3);
    swapped.application_name = String::from("youtube-music-desktop-app");
    swapped.application_binary = String::from("Chromium");
    assert_eq!(decide(&[wrong_name, wrong_binary, swapped]), None);
}

#[test]
fn later_candidate_wins() {
    let snapshot = vec![primary(1), primary(2)];
    assert_eq!(find_primary(&snapshot), Some(2));
    let (index, _) = decide(&snapshot).unwrap();
    assert_eq!(index, 2);
}

#[test]
fn later_candidate_wins_whatever_the_indices() {
    let snapshot = vec![primary(9), other(5, true, false), primary(3), other(4, true, true)];
    assert_eq!(find_primary(&snapshot), Some(3));
    assert_eq!(find_primary(&[primary(3), primary(9)]), Some(9));
}

#[test]
fn earlier_candidate_counts_as_competing_audio() {
    // The candidate that lost is an audible stream under another index.
    assert_eq!(decide(&[primary(1), primary(2)]), Some((2, 35)));
}

#[test]
fn earlier_muted_candidate_does_not_compete() {
    let mut silenced = primary(1);
    silenced.muted = true;
    assert_eq!(decide(&[silenced, primary(2)]), Some((2, 100)));
}

#[test]
fn audible_other_before_the_primary_ducks_it_too() {
    let snapshot = vec![other(7, false, false), primary(8)];
    assert_eq!(decide(&snapshot), Some((8, 35)));
}

#[test]
fn one_audible_stream_among_silent_ones_is_enough() {
    let snapshot = vec![
        other(1, true, false),
        other(2, false, true),
        primary(3),
        other(4, true, true),
        other(5, false, false),
    ];
    assert_eq!(decide(&snapshot), Some((3, 35)));
}

#[test]
fn silent_records_never_change_the_decision() {
    let base = vec![primary(3)];
    assert_eq!(decide(&base), Some((3, 100)));
    for silent in [other(1, true, false), other(1, false, true), other(1, true, true)] {
        for at in 0..=base.len() {
            let mut grown = base.clone();
            grown.insert(at, silent.clone());
            assert_eq!(decide(&grown), decide(&base));
        }
    }
    let ducked = vec![primary(3), other(4, false, false)];
    assert_eq!(decide(&ducked), Some((3, 35)));
    for at in 0..=ducked.len() {
        let mut grown = ducked.clone();
        grown.insert(at, other(1, true, false));
        assert_eq!(decide(&grown), Some((3, 35)));
    }
}

#[test]
fn stream_under_the_primary_index_does_not_compete() {
    // An audible stream that shares the primary's index is left out by the
    // comparison of indices.
    let snapshot = vec![primary(1), other(1, false, false)];
    assert_eq!(decide(&snapshot), Some((1, 100)));
    assert!(!has_competing_audio(&snapshot, 1));
    assert!(has_competing_audio(&snapshot, 2));
}

#[test]
fn competing_audio_is_judged_against_the_given_index() {
    let snapshot = vec![other(1, false, false), other(2, true, false), other(3, false, true)];
    assert!(!has_competing_audio(&snapshot, 1));
    assert!(has_competing_audio(&snapshot, 2));
    assert!(has_competing_audio(&snapshot, 3));
    assert!(!has_competing_audio(&[], 0));
}

#[test]
fn decide_twice_gives_the_same_result() {
    let snapshots = vec![
        vec![],
        vec![primary(1)],
        vec![primary(1), other(2, false, false)],
        vec![other(2, false, false)],
        vec![primary(1), primary(2), other(3, false, true)],
    ];
    for snapshot in &snapshots {
        let first = decide(snapshot);
        let second = decide(snapshot);
        assert_eq!(first, second);
    }
}

#[test]
fn decision_agrees_with_its_two_parts() {
    let snapshot = vec![other(4, false, false), primary(6), other(5, true, false)];
    let index = find_primary(&snapshot).unwrap();
    let competing = has_competing_audio(&snapshot, index);
    assert_eq!(decide(&snapshot), Some((index, target_volume(competing))));
    assert_eq!(decide(&snapshot), Some((6, 35)));
}

#[test]
fn extreme_indices_are_handled() {
    let snapshot = vec![primary(u32::MAX), other(0, false, false)];
    assert_eq!(decide(&snapshot), Some((u32::MAX, 35)));
    let snapshot = vec![primary(0), other(u32::MAX, true, false)];
    assert_eq!(decide(&snapshot), Some((0, 100)));
}
