use algorithm_shield::actions::Action;
use algorithm_shield::engine::RuleEngine;
use algorithm_shield::rules::Rule;
use algorithm_shield::rules::PROBABILITY_SCALE;

#[test]
fn test_narrate_inject_noise() {
    let action = Action::InjectNoise { count: 2 };
    assert_eq!(action.narrate(), "Inject 2 off-profile clicks");
}

#[test]
fn test_narrate_inject_noise_zero_and_large_counts() {
    assert_eq!(Action::InjectNoise { count: 0 }.narrate(), "Inject 0 off-profile clicks");
    assert_eq!(Action::InjectNoise { count: 10 }.narrate(), "Inject 10 off-profile clicks");
    assert_eq!(Action::InjectNoise { count: 305 }.narrate(), "Inject 305 off-profile clicks");
    assert_eq!(
        Action::InjectNoise { count: 4_294_967_295 }.narrate(),
        "Inject 4294967295 off-profile clicks"
    );
}

#[test]
fn test_narrate_open_background_tabs() {
    let action = Action::OpenBackgroundTabs {
        urls: vec![String::from("https://a.example"), String::from("https://b.example")],
    };
    assert_eq!(action.narrate(), "Open 2 background tabs for profile dilution");
    let empty = Action::OpenBackgroundTabs { urls: Vec::new() };
    assert_eq!(empty.narrate(), "Open 0 background tabs for profile dilution");
}

#[test]
fn test_narrate_fixed_sentences() {
    assert_eq!(Action::SuggestBreak.narrate(), "Suggest taking a break");
    assert_eq!(Action::ClickOffTopic.narrate(), "Click off-topic content");
}

#[test]
fn test_narrate_scroll_limit() {
    let action = Action::ScrollLimit { max_items: 30 };
    assert_eq!(action.narrate(), "Limit scroll to 30 items");
}

#[test]
fn test_narrate_apply_lens() {
    let action = Action::ApplyLens { lens_name: String::from("calm") };
    assert_eq!(action.narrate(), "Apply lens: calm");
}

#[test]
fn test_narrate_log_returns_message() {
    let action = Action::Log { message: String::from("hello there") };
    assert_eq!(action.narrate(), "hello there");
}

#[test]
fn test_rule_narrate_joins_name_and_description() {
    let rule = Rule::noise_injection(PROBABILITY_SCALE);
    assert_eq!(
        rule.narrate(),
        "Noise Injection: Occasionally click content outside your inferred profile"
    );
}

#[test]
fn test_engagement_disruption_description_counts_scroll_events() {
    let rule = Rule::engagement_disruption(50);
    assert_eq!(rule.narrate(), "Engagement Disruption: Suggest break after 50 scroll events");
    assert_eq!(rule.description, "Suggest break after 50 scroll events");
}

#[test]
fn test_narrate_rules_bullets_every_rule_in_order() {
    let mut engine = RuleEngine::new();
    assert_eq!(engine.narrate_rules(), "");
    engine.add_rule(Rule::noise_injection(PROBABILITY_SCALE));
    assert_eq!(
        engine.narrate_rules(),
        "\u{2022} Noise Injection: Occasionally click content outside your inferred profile"
    );
    engine.add_rule(Rule::engagement_disruption(10));
    assert_eq!(
        engine.narrate_rules(),
        "\u{2022} Noise Injection: Occasionally click content outside your inferred profile\n\u{2022} Engagement Disruption: Suggest break after 10 scroll events"
    );
}
