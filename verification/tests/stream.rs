use ducking::stream::StreamRecord;

fn record(name: &str, binary: &str, corked: bool, muted: bool) -> StreamRecord {
    StreamRecord {
        index: 11,
        corked,
        muted,
        application_name: String::from(name),
        application_binary: String::from(binary),
    }
}

#[test]
fn candidate_needs_both_names_and_an_uncorked_stream() {
    assert!(record("Chromium", "youtube-music-desktop-app", false, false).is_primary_candidate());
    assert!(record("Chromium", "youtube-music-desktop-app", false, true).is_primary_candidate());
    assert!(!record("Chromium", "youtube-music-desktop-app", true, false).is_primary_candidate());
    assert!(!record("Chromium", "youtube-music-desktop-app", true, true).is_primary_candidate());
    assert!(!record("Chromium", "chromium", false, false).is_primary_candidate());
    assert!(!record("Firefox", "youtube-music-desktop-app", false, false).is_primary_candidate());
}

#[test]
fn names_are_compared_character_by_character() {
    let binary = "youtube-music-desktop-app";
    assert!(!record("chromium", binary, false, false).is_primary_candidate());
    assert!(!record("Chromiun", binary, false, false).is_primary_candidate());
    assert!(!record("Chromiu", binary, false, false).is_primary_candidate());
    assert!(!record("Chromiumm", binary, false, false).is_primary_candidate());
    assert!(!record("", binary, false, false).is_primary_candidate());
    assert!(!record(" Chromium", binary, false, false).is_primary_candidate());
    assert!(!record("Chromium", "youtube-music-desktop-ap", false, false).is_primary_candidate());
    assert!(!record("Chromium", "youtube-music-desktop-app ", false, false).is_primary_candidate());
    assert!(!record("Chromium", "Youtube-music-desktop-app", false, false).is_primary_candidate());
    assert!(!record("Chromium", "", false, false).is_primary_candidate());
    assert!(!record("Chr\u{f6}mium", binary, false, false).is_primary_candidate());
    assert!(!record("Chromiu\u{43c}", binary, false, false).is_primary_candidate());
}

#[test]
fn audible_means_neither_corked_nor_muted() {
    assert!(record("a", "b", false, false).is_audible());
    assert!(!record("a", "b", true, false).is_audible());
    assert!(!record("a", "b", false, true).is_audible());
    assert!(!record("a", "b", true, true).is_audible());
}

#[test]
fn audibility_does_not_depend_on_the_application() {
    assert!(record("Chromium", "youtube-music-desktop-app", false, false).is_audible());
    assert!(!record("Chromium", "youtube-music-desktop-app", false, true).is_audible());
}

#[test]
fn competing_needs_another_index_and_an_audible_stream() {
    let audible = record("a", "b", false, false);
    assert!(audible.competes_with(10));
    assert!(audible.competes_with(12));
    assert!(!audible.competes_with(11));
    for (corked, muted) in [(true, false), (false, true), (true, true)] {
        let silent = record("a", "b", corked, muted);
        assert!(!silent.competes_with(10));
        assert!(!silent.competes_with(11));
    }
}

#[test]
fn clone_keeps_every_field() {
    let source = record("Chromium", "youtube-music-desktop-app", false, true);
    let copy = source.clone();
    assert_eq!(copy, source);
    assert_eq!(copy.index, 11);
    assert!(!copy.corked);
    assert!(copy.muted);
    assert_eq!(copy.application_name, "Chromium");
    assert_eq!(copy.application_binary, "youtube-music-desktop-app");
}
