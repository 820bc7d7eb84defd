use steel_flint::select::matches_pattern;

#[test]
fn a_lone_star_matches_every_name() {
    assert!(matches_pattern("place_fence", "*"));
    assert!(matches_pattern("", "*"));
}

#[test]
fn a_trailing_star_matches_a_prefix() {
    assert!(matches_pattern("place_fence", "place*"));
    assert!(matches_pattern("place", "place*"));
    assert!(!matches_pattern("plac", "place*"));
    assert!(!matches_pattern("replace_fence", "place*"));
}

#[test]
fn a_leading_star_matches_a_suffix() {
    assert!(matches_pattern("place_fence", "*fence"));
    assert!(matches_pattern("fence", "*fence"));
    assert!(!matches_pattern("fences", "*fence"));
    assert!(matches_pattern("é_fence", "*fence"));
}

#[test]
fn other_patterns_match_only_the_same_name() {
    assert!(matches_pattern("place_fence", "place_fence"));
    assert!(!matches_pattern("place_fence", "place_fenc"));
    assert!(!matches_pattern("place_fence", "place*fence"));
    assert!(matches_pattern("", ""));
    assert!(!matches_pattern("a", ""));
}

#[test]
fn a_double_star_strips_only_the_last_star() {
    assert!(matches_pattern("*x", "**"));
    assert!(!matches_pattern("place_fence", "**"));
}
