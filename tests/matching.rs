use devtools::fuzzy::{fuzzy_match, is_subsequence_ignoring_case};
use devtools::launcher::{Launcher, Message};
use devtools::tool::Tool;

fn names(v: &[&str]) -> Vec<String> {
    v.iter().map(|s| s.to_string()).collect()
}

fn three_tools() -> Vec<String> {
    names(&["UUID Generator", "JSON Beautifier", "Base64 Converter"])
}

#[test]
fn jsb_ranks_json_beautifier_alone() {
    let r = fuzzy_match("jsb", &three_tools());
    assert_eq!(r, names(&["JSON Beautifier"]));
}

#[test]
fn empty_query_matches_nothing() {
    assert!(fuzzy_match("", &three_tools()).is_empty());
    assert!(fuzzy_match("", &Tool::all_names()).is_empty());
    assert!(fuzzy_match("", &Vec::new()).is_empty());
}

#[test]
fn every_match_holds_the_query_in_order() {
    let catalog = Tool::all_names();
    for q in ["e", "gen", "CONV", "tor", "x", "uuid", "rdg"] {
        let r = fuzzy_match(q, &catalog);
        for name in &r {
            assert!(is_subsequence_ignoring_case(q, name));
        }
        for name in &catalog {
            if !is_subsequence_ignoring_case(q, name) {
                assert!(!r.contains(name));
            }
        }
    }
}

#[test]
fn matching_is_deterministic() {
    let catalog = Tool::all_names();
    for q in ["e", "er", "a", "o"] {
        assert_eq!(fuzzy_match(q, &catalog), fuzzy_match(q, &catalog));
    }
}

#[test]
fn equal_scores_keep_catalog_order() {
    let forward = fuzzy_match("x", &names(&["Alpha X", "Bravo X"]));
    assert_eq!(forward, names(&["Alpha X", "Bravo X"]));
    let backward = fuzzy_match("x", &names(&["Bravo X", "Alpha X"]));
    assert_eq!(backward, names(&["Bravo X", "Alpha X"]));
}

#[test]
fn unmatched_query_gives_nothing() {
    assert!(fuzzy_match("zzz", &Tool::all_names()).is_empty());
}

#[test]
fn subsequence_ignores_ascii_case() {
    assert!(is_subsequence_ignoring_case("jsb", "JSON Beautifier"));
    assert!(is_subsequence_ignoring_case("", "anything"));
    assert!(is_subsequence_ignoring_case("B64c", "base64 converter"));
    assert!(!is_subsequence_ignoring_case("bsj", "JSON Beautifier"));
    assert!(!is_subsequence_ignoring_case("a", ""));
}

#[test]
fn submit_takes_the_first_match() {
    let mut l = Launcher::new();
    l.set_query("conv".to_string());
    assert_eq!(l.search_matches, names(&["Base64 Converter"]));
    assert_eq!(l.submit(), Some(Tool::Base64Converter));
}

#[test]
fn submit_without_matches_selects_nothing() {
    let mut l = Launcher::new();
    assert_eq!(l.submit(), None);
    l.set_query("qqq".to_string());
    assert!(l.search_matches.is_empty());
    assert_eq!(l.submit(), None);
}

#[test]
fn click_selects_by_name() {
    let l = Launcher::new();
    assert_eq!(l.click("UUID Generator"), Some(Tool::UuidGenerator));
    assert_eq!(l.click("Random Data Generator"), Some(Tool::RandomDataGenerator));
    assert_eq!(l.click("Unknown"), None);
}

#[test]
fn reset_clears_everything() {
    let mut l = Launcher::new();
    l.set_query("json".to_string());
    l.hover_enter("JSON Beautifier".to_string());
    assert!(!l.search_matches.is_empty());
    l.reset();
    assert_eq!(l.search_text, "");
    assert!(l.search_matches.is_empty());
    assert_eq!(l.result_hovered, None);
}

#[test]
fn stale_hover_exit_keeps_newer_hover() {
    let mut l = Launcher::new();
    l.hover_enter("UUID Generator".to_string());
    l.hover_enter("JSON Beautifier".to_string());
    l.hover_exit("UUID Generator");
    assert_eq!(l.result_hovered, Some("JSON Beautifier".to_string()));
    l.hover_exit("JSON Beautifier");
    assert_eq!(l.result_hovered, None);
}

#[test]
fn hover_dropped_when_no_longer_matched() {
    let mut l = Launcher::new();
    l.set_query("json".to_string());
    l.update(Message::ResultEntered("JSON Beautifier".to_string()));
    l.update(Message::Search("jso".to_string()));
    assert_eq!(l.result_hovered, Some("JSON Beautifier".to_string()));
    l.update(Message::Search("uuid".to_string()));
    assert_eq!(l.result_hovered, None);
}

#[test]
fn update_routes_launcher_messages() {
    let mut l = Launcher::new();
    assert_eq!(l.update(Message::Search("jsb".to_string())), None);
    assert_eq!(l.search_text, "jsb");
    assert_eq!(l.update(Message::SearchSubmitted), Some(Tool::JsonBeautifier));
    assert_eq!(
        l.update(Message::SearchClicked("Base64 Converter".to_string())),
        Some(Tool::Base64Converter)
    );
}

#[test]
fn tool_names_round_trip() {
    for t in Tool::all() {
        assert_eq!(Tool::from_name(t.name()), Some(t));
        assert_eq!(t.to_string(), t.name());
    }
    assert_eq!(Tool::JsonBeautifier.to_string(), "JSON Beautifier");
    assert_eq!(
        Tool::all_names(),
        names(&["UUID Generator", "JSON Beautifier", "Base64 Converter", "Random Data Generator"])
    );
    assert_eq!(Tool::from_name("json beautifier"), None);
    assert_eq!("UUID Generator".parse::<Tool>(), Ok(Tool::UuidGenerator));
    assert_eq!("nothing".parse::<Tool>(), Err(()));
}
