use branch_picker::finder::filter;

fn names(v: &[&str]) -> Vec<String> {
    v.iter().map(|s| s.to_string()) .collect()
}

#[test]
fn empty_needle_matches_every_candidate() {
    let haystack = names(&["main", "dev", "origin/main", "origin/feature"]);
    let got = filter("", &haystack).unwrap();
    assert_eq!(got.len(), 4);
    for name in &haystack {
        assert!(got.contains(name));
    }
}

#[test]
fn only_subsequence_matches_survive() {
    let haystack = names(&["main", "dev", "origin/main"]);
    let got = filter("dv", &haystack).unwrap();
    assert_eq!(got, names(&["dev"]));
}

#[test]
fn no_match_yields_empty_results() {
    let haystack = names(&["main", "dev"]);
    let got = filter("zzz", &haystack).unwrap();
    assert!(got.is_empty());
}

#[test]
fn lowercase_needle_matches_case_insensitively() {
    let haystack = names(&["Main"]);
    let got = filter("m", &haystack).unwrap();
    assert_eq!(got, names(&["Main"]));
}

#[test]
fn uppercase_needle_matches_case_sensitively() {
    let haystack = names(&["main", "Main"]);
    let got = filter("M", &haystack).unwrap();
    assert_eq!(got, names(&["Main"]));
}

#[test]
fn filter_is_idempotent_on_stable_input() {
    let haystack = names(&["main", "dev", "origin/main", "origin/feature", "release/v1"]);
    let first = filter("in", &haystack).unwrap();
    let second = filter("in", &haystack).unwrap();
    assert_eq!(first, second);
}

#[test]
fn closer_match_ranks_first() {
    let haystack = names(&["a_long_detour_m_a_i_n", "main"]);
    let got = filter("main", &haystack).unwrap();
    assert_eq!(got.len(), 2);
    assert_eq!(got[0], "main".to_string());
}
