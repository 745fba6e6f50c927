use cubeb_coreaudio_samples::options::{
    TraversalOptions, ALL_OPTION_BITS, DEBUG, INCLUDE_BOXES, INCLUDE_CHANNELS, INCLUDE_CLOCKS,
    INCLUDE_CONTROLS, INCLUDE_FORMATS, INCLUDE_PLUGINS, INCLUDE_PROCESSES, INCLUDE_STREAMS,
};

#[test]
fn empty_has_no_toggle() {
    let o = TraversalOptions::empty();
    assert_eq!(o.bits, 0);
    assert!(!o.contains(INCLUDE_BOXES));
    assert!(!o.contains(DEBUG));
}

#[test]
fn all_sets_every_bit() {
    let o = TraversalOptions::all();
    assert_eq!(o.bits, ALL_OPTION_BITS);
    assert!(o.contains(DEBUG));
    assert!(o.contains(INCLUDE_CONTROLS));
}

#[test]
fn insert_and_remove_are_independent() {
    let mut o = TraversalOptions::empty();
    o.insert(INCLUDE_STREAMS);
    o.insert(INCLUDE_CLOCKS);
    assert!(o.contains(INCLUDE_STREAMS));
    assert!(o.contains(INCLUDE_CLOCKS));
    assert!(!o.contains(INCLUDE_BOXES));
    o.remove(INCLUDE_STREAMS);
    assert!(!o.contains(INCLUDE_STREAMS));
    assert!(o.contains(INCLUDE_CLOCKS));
}

#[test]
fn include_all_sets_filters_and_clears_debug() {
    let mut prior = TraversalOptions::empty();
    prior.insert(DEBUG);
    let o = prior.include_all();
    assert!(o.contains(INCLUDE_BOXES));
    assert!(o.contains(INCLUDE_CLOCKS));
    assert!(o.contains(INCLUDE_STREAMS));
    assert!(o.contains(INCLUDE_FORMATS));
    assert!(o.contains(INCLUDE_CHANNELS));
    assert!(o.contains(INCLUDE_CONTROLS));
    assert!(o.contains(INCLUDE_PLUGINS));
    assert!(o.contains(INCLUDE_PROCESSES));
    assert!(!o.contains(DEBUG));
}

#[test]
fn include_all_ignores_prior_state() {
    let o1 = TraversalOptions::empty().include_all();
    let o2 = TraversalOptions::all().include_all();
    assert_eq!(o1, o2);
}
