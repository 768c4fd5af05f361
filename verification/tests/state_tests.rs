use hypersync::state::{bootstrap_actions, evaluate, BootstrapState};

#[test]
fn marker_present_wins_regardless_of_archive() {
    // Marker exists and is a regular file: NotNeeded, whatever the archive says.
    assert_eq!(evaluate(true, true, true), BootstrapState::NotNeeded);
    assert_eq!(evaluate(true, true, false), BootstrapState::NotNeeded);
}

#[test]
fn marker_absent_archive_present_needs_extract() {
    // Marker absent (or not a regular file), archive openable: NeedsExtract,
    // even for a zero-length or partial archive (openable is openable).
    assert_eq!(evaluate(false, false, true), BootstrapState::NeedsExtract);
    assert_eq!(evaluate(true, false, true), BootstrapState::NeedsExtract);
    assert_eq!(evaluate(false, true, true), BootstrapState::NeedsExtract);
}

#[test]
fn neither_present_needs_download() {
    assert_eq!(evaluate(false, false, false), BootstrapState::NeedsDownload);
    // A marker that exists but is not a regular file does not count.
    assert_eq!(evaluate(true, false, false), BootstrapState::NeedsDownload);
    assert_eq!(evaluate(false, true, false), BootstrapState::NeedsDownload);
}

#[test]
fn evaluate_is_idempotent() {
    // Same filesystem evidence, two calls, same state.
    let combos = [
        (false, false, false),
        (false, false, true),
        (false, true, false),
        (false, true, true),
        (true, false, false),
        (true, false, true),
        (true, true, false),
        (true, true, true),
    ];
    for (me, mf, a) in combos {
        assert_eq!(evaluate(me, mf, a), evaluate(me, mf, a));
    }
}

#[test]
fn actions_per_state() {
    assert_eq!(bootstrap_actions(BootstrapState::NeedsDownload), (true, true));
    assert_eq!(bootstrap_actions(BootstrapState::NeedsExtract), (false, true));
    assert_eq!(bootstrap_actions(BootstrapState::NotNeeded), (false, false));
}
