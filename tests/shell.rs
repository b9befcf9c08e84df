use devtools::launcher;
use devtools::scale_factor::ScaleFactor;
use devtools::shell::{Action, DevTools, Key, KeyPress, Message, Screen};
use devtools::tool::Tool;
use devtools::tools::base64_converter;
use devtools::tools::uuid_generator::{self, Effect, GenerationRequest, Quotes, Version};

fn ctrl(c: &str) -> Message {
    Message::Event(KeyPress { key: Key::Character(c.to_string()), control: true })
}

fn toggle() -> Message {
    Message::Event(KeyPress { key: Key::Space, control: true })
}

fn escape() -> Message {
    Message::Event(KeyPress { key: Key::Escape, control: false })
}

fn search(q: &str) -> Message {
    Message::Launcher(launcher::Message::Search(q.to_string()))
}

fn submit() -> Message {
    Message::Launcher(launcher::Message::SearchSubmitted)
}

#[test]
fn starts_on_base64_converter() {
    let d = DevTools::new();
    assert_eq!(d.current_tool, Tool::Base64Converter);
    assert!(matches!(d.screen, Screen::Base64Converter(_)));
    assert!(!d.is_modal_open);
    assert_eq!(d.get_scale_factor(), 10);
    assert_eq!(d.title(), "Base64 Converter");
}

#[test]
fn toggle_twice_returns_to_normal() {
    let mut d = DevTools::new();
    assert_eq!(d.update(toggle()), Action::FocusSearch);
    assert!(d.is_modal_open);
    d.update(search("json"));
    assert!(!d.launcher.search_matches.is_empty());
    assert_eq!(d.update(toggle()), Action::FocusSearch);
    assert!(!d.is_modal_open);
    assert_eq!(d.launcher.search_text, "");
    assert!(d.launcher.search_matches.is_empty());
    assert_eq!(d.launcher.result_hovered, None);
    assert_eq!(d.current_tool, Tool::Base64Converter);
}

#[test]
fn jsb_switches_to_json_beautifier() {
    let mut d = DevTools::new();
    d.update(toggle());
    d.update(search("jsb"));
    assert_eq!(d.launcher.search_matches, vec!["JSON Beautifier".to_string()]);
    assert_eq!(d.launcher.submit(), Some(Tool::JsonBeautifier));
    assert_eq!(d.update(submit()), Action::Nothing);
    assert_eq!(d.current_tool, Tool::JsonBeautifier);
    assert!(matches!(d.screen, Screen::JsonBeautifier(_)));
    assert!(!d.is_modal_open);
    assert_eq!(d.launcher.search_text, "");
    assert_eq!(d.title(), "JSON Beautifier");
}

#[test]
fn empty_query_submit_keeps_overlay_open() {
    let mut d = DevTools::new();
    d.update(toggle());
    d.update(search(""));
    assert!(d.launcher.search_matches.is_empty());
    assert_eq!(d.launcher.submit(), None);
    d.update(submit());
    assert!(d.is_modal_open);
    assert_eq!(d.current_tool, Tool::Base64Converter);
    assert!(matches!(d.screen, Screen::Base64Converter(_)));
}

#[test]
fn reselecting_active_tool_keeps_its_state() {
    let mut d = DevTools::new();
    d.update(Message::Base64Converter(base64_converter::Message::DecodedTextChanged(
        "hello".to_string(),
    )));
    d.update(toggle());
    d.update(Message::Launcher(launcher::Message::SearchClicked(
        "Base64 Converter".to_string(),
    )));
    assert!(!d.is_modal_open);
    assert!(d.launcher.search_matches.is_empty());
    match &d.screen {
        Screen::Base64Converter(b) => {
            assert_eq!(b.decoded_input, "hello");
            assert_eq!(b.encoded_input, "aGVsbG8=");
        }
        _ => panic!("the base64 converter should stay active"),
    }
}

#[test]
fn switching_tool_gives_fresh_instance() {
    let mut d = DevTools::new();
    d.update(toggle());
    d.update(Message::Launcher(launcher::Message::SearchClicked("UUID Generator".to_string())));
    d.update(Message::UuidGenerator(uuid_generator::Message::CommaSelected(true)));
    d.update(toggle());
    d.update(Message::Launcher(launcher::Message::SearchClicked("JSON Beautifier".to_string())));
    d.update(toggle());
    d.update(Message::Launcher(launcher::Message::SearchClicked("UUID Generator".to_string())));
    match &d.screen {
        Screen::UuidGenerator(g) => assert!(!g.is_separated_by_comma),
        _ => panic!("the identifier generator should be active"),
    }
}

#[test]
fn overlay_input_is_absorbed_while_closed() {
    let mut d = DevTools::new();
    assert_eq!(d.update(search("json")), Action::Nothing);
    assert_eq!(d.launcher.search_text, "");
    assert!(d.launcher.search_matches.is_empty());
    d.update(Message::Launcher(launcher::Message::SearchClicked("UUID Generator".to_string())));
    assert_eq!(d.current_tool, Tool::Base64Converter);
    d.update(Message::Launcher(launcher::Message::ResultEntered("UUID Generator".to_string())));
    assert_eq!(d.launcher.result_hovered, None);
    assert!(d.is_well_formed());
}

#[test]
fn unknown_selection_is_ignored() {
    let mut d = DevTools::new();
    d.update(toggle());
    d.update(Message::Launcher(launcher::Message::SearchClicked("Nope".to_string())));
    assert!(d.is_modal_open);
    assert_eq!(d.current_tool, Tool::Base64Converter);
}

#[test]
fn escape_closes_overlay_only_when_open() {
    let mut d = DevTools::new();
    assert_eq!(d.update(escape()), Action::Nothing);
    assert!(!d.is_modal_open);
    d.update(toggle());
    d.update(search("uuid"));
    d.update(escape());
    assert!(!d.is_modal_open);
    assert_eq!(d.launcher.search_text, "");
    assert!(d.launcher.search_matches.is_empty());
}

#[test]
fn hide_modal_closes_and_resets() {
    let mut d = DevTools::new();
    d.update(toggle());
    d.update(search("gen"));
    d.update(Message::HideModal);
    assert!(!d.is_modal_open);
    assert!(d.launcher.search_matches.is_empty());
}

#[test]
fn zoom_shortcuts_change_scale_in_both_states() {
    let mut d = DevTools::new();
    d.update(ctrl("+"));
    assert_eq!(d.get_scale_factor(), 12);
    d.update(toggle());
    d.update(ctrl("-"));
    d.update(ctrl("-"));
    assert_eq!(d.get_scale_factor(), 8);
    assert!(d.is_modal_open);
    d.update(ctrl("0"));
    assert_eq!(d.get_scale_factor(), 10);
    d.update(Message::Event(KeyPress { key: Key::Character("+".to_string()), control: false }));
    assert_eq!(d.get_scale_factor(), 10);
    d.update(Message::Event(KeyPress { key: Key::Other, control: true }));
    assert_eq!(d.get_scale_factor(), 10);
}

#[test]
fn tool_message_for_inactive_tool_is_ignored() {
    let mut d = DevTools::new();
    let a = d.update(Message::UuidGenerator(uuid_generator::Message::Generated));
    assert_eq!(a, Action::Nothing);
    assert_eq!(d.current_tool, Tool::Base64Converter);
}

#[test]
fn generator_asks_for_background_work() {
    let mut d = DevTools::new();
    d.update(toggle());
    d.update(Message::Launcher(launcher::Message::SearchClicked("UUID Generator".to_string())));
    let a = d.update(Message::UuidGenerator(uuid_generator::Message::Generated));
    let req = GenerationRequest {
        amount: 1,
        version: Some(Version::V4),
        quotes: Some(Quotes::NoQuotes),
        comma: false,
    };
    assert_eq!(a, Action::Generator(Effect::Generate(req)));
    let a = d.update(Message::UuidGenerator(uuid_generator::Message::SaveToFileClicked));
    assert_eq!(a, Action::Generator(Effect::SaveToFile(req)));
}

#[test]
fn scale_five_up_one_down_and_reset() {
    let mut s = ScaleFactor::default();
    assert_eq!(s.as_tenths(), 10);
    for _ in 0..5 {
        s.increment();
        assert!((1..=30).contains(&s.as_tenths()));
    }
    assert_eq!(s.as_tenths(), 20);
    s.decrement();
    assert_eq!(s.as_tenths(), 18);
    s.to_default();
    assert_eq!(s.as_tenths(), 10);
}

#[test]
fn scale_bounds_are_no_ops() {
    let mut s = ScaleFactor::from_tenths(30);
    s.increment();
    assert_eq!(s.as_tenths(), 30);
    let mut s = ScaleFactor::from_tenths(1);
    s.decrement();
    assert_eq!(s.as_tenths(), 1);
    let mut s = ScaleFactor::from_tenths(2);
    s.decrement();
    assert_eq!(s.as_tenths(), 1);
    let mut s = ScaleFactor::from_tenths(29);
    s.increment();
    assert_eq!(s.as_tenths(), 30);
}

#[test]
fn scale_from_tenths_clamps() {
    assert_eq!(ScaleFactor::from_tenths(0).as_tenths(), 1);
    assert_eq!(ScaleFactor::from_tenths(45).as_tenths(), 30);
    assert_eq!(ScaleFactor::from_tenths(15).as_tenths(), 15);
}
