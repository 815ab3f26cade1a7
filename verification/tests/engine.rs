use baru::engine::{apply_format, Aggregator, ModuleSpec};
use baru::error::Error;
use baru::ModuleMsg;

fn spec(key: char, name: &str, placeholder: &str, format: &str, tick_ms: u64) -> ModuleSpec {
    ModuleSpec {
        key,
        name: name.to_string(),
        placeholder: placeholder.to_string(),
        format: format.to_string(),
        tick_ms,
    }
}

fn two_modules() -> Aggregator {
    Aggregator::new(vec![
        spec('b', "battery", "-", "%v%l", 500),
        spec('s', "sound", "-", "%v%l", 50),
    ])
    .unwrap()
}

#[test]
fn placeholders_before_any_message() {
    let agg = two_modules();
    assert_eq!(agg.render(), "- -");
    assert_eq!(agg.len(), 2);
}

#[test]
fn scenario_two_updates_in_registration_order() {
    let mut agg = two_modules();
    assert_eq!(agg.render(), "- -");
    agg.handle_msg(ModuleMsg('b', Some("87%".to_string()), None))
        .unwrap();
    assert_eq!(agg.render(), "87% -");
    agg.handle_msg(ModuleMsg('s', Some("40%".to_string()), Some("sou".to_string())))
        .unwrap();
    assert_eq!(agg.render(), "87% 40%sou");
}

#[test]
fn scenario_two_updates_swapped_same_render() {
    let mut agg = two_modules();
    agg.handle_msg(ModuleMsg('s', Some("40%".to_string()), Some("sou".to_string())))
        .unwrap();
    agg.handle_msg(ModuleMsg('b', Some("87%".to_string()), None))
        .unwrap();
    assert_eq!(agg.render(), "87% 40%sou");
}

#[test]
fn fast_emitter_never_displaces_slow_one() {
    // 'b' emits many times; 's' once, late. 's' keeps its configured
    // position and 'b' keeps its latest value.
    let mut agg = two_modules();
    for i in 0..20 {
        agg.handle_msg(ModuleMsg('b', Some(format!("{}%", i)), None))
            .unwrap();
        assert!(agg.render().starts_with(&format!("{}%", i)));
        assert!(agg.render().ends_with(" -"));
    }
    agg.handle_msg(ModuleMsg('s', Some("9%".to_string()), None))
        .unwrap();
    assert_eq!(agg.render(), "19% 9%");
}

#[test]
fn entry_count_never_changes() {
    let mut agg = two_modules();
    assert_eq!(agg.len(), 2);
    for i in 0..10 {
        agg.handle_msg(ModuleMsg('b', Some(format!("{}", i)), None))
            .unwrap();
        assert_eq!(agg.len(), 2);
        assert_eq!(agg.render().split(' ').count(), 2);
    }
}

#[test]
fn silent_module_fragment_frozen_after_last_message() {
    // After 's' stops emitting (permanent failure), its last fragment stays.
    let mut agg = two_modules();
    agg.handle_msg(ModuleMsg('s', Some("55%".to_string()), None))
        .unwrap();
    for i in 0..50 {
        agg.handle_msg(ModuleMsg('b', Some(format!("{}", i)), None))
            .unwrap();
        assert!(agg.render().ends_with(" 55%"));
    }
}

#[test]
fn message_without_value_falls_back_to_placeholder() {
    let mut agg = two_modules();
    agg.handle_msg(ModuleMsg('b', Some("87%".to_string()), None))
        .unwrap();
    assert_eq!(agg.render(), "87% -");
    agg.handle_msg(ModuleMsg('b', None, None)).unwrap();
    assert_eq!(agg.render(), "- -");
}

#[test]
fn unknown_key_is_an_error_and_changes_nothing() {
    let mut agg = two_modules();
    let r = agg.handle_msg(ModuleMsg('x', Some("1".to_string()), None));
    assert_eq!(r, Err(Error::UnknownKey('x')));
    assert_eq!(agg.render(), "- -");
}

#[test]
fn duplicate_key_is_a_fatal_configuration_error() {
    let r = Aggregator::new(vec![
        spec('a', "one", "-", "%v", 100),
        spec('b', "two", "-", "%v", 100),
        spec('a', "three", "-", "%v", 100),
    ]);
    assert!(matches!(r, Err(Error::DuplicateKey('a'))));
}

#[test]
fn empty_registry_renders_empty_line() {
    let agg = Aggregator::new(vec![]).unwrap();
    assert_eq!(agg.render(), "");
    assert_eq!(agg.len(), 0);
}

#[test]
fn single_module_renders_without_separator() {
    let mut agg = Aggregator::new(vec![spec('z', "only", "?", "%v", 10)]).unwrap();
    assert_eq!(agg.render(), "?");
    agg.handle_msg(ModuleMsg('z', Some("ok".to_string()), None))
        .unwrap();
    assert_eq!(agg.render(), "ok");
}

#[test]
fn format_substitutes_value_and_label() {
    assert_eq!(apply_format("%l:%v", "40%", "sou"), "sou:40%");
    assert_eq!(apply_format("%v%l", "40%", "sou"), "40%sou");
    assert_eq!(apply_format("%v", "X", "Y"), "X");
    assert_eq!(apply_format("%l", "X", "Y"), "Y");
}

#[test]
fn format_copies_everything_else_verbatim() {
    assert_eq!(apply_format("", "X", "Y"), "");
    assert_eq!(apply_format("plain", "X", "Y"), "plain");
    assert_eq!(apply_format("a%xb", "X", "Y"), "a%xb");
    assert_eq!(apply_format("ab%", "X", "Y"), "ab%");
    assert_eq!(apply_format("%v%v", "X", "Y"), "XX");
    assert_eq!(apply_format("%%v", "X", "Y"), "%X");
}
