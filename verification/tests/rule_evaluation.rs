use algorithm_shield::actions::Action;
use algorithm_shield::context::Context;
use algorithm_shield::engine::evaluate_rules;
use algorithm_shield::engine::evaluate_rules_with_draws;
use algorithm_shield::engine::RuleEngine;
use algorithm_shield::rules::Operator;
use algorithm_shield::rules::Rule;
use algorithm_shield::rules::Scalar;
use algorithm_shield::rules::PROBABILITY_SCALE;

fn unconditional_rule(probability: u32, enabled: bool, actions: Vec<Action>) -> Rule {
    Rule {
        id: String::from("r"),
        name: String::from("Rule"),
        description: String::from("a rule"),
        conditions: Vec::new(),
        actions,
        probability,
        enabled,
    }
}

#[test]
fn test_basic_evaluation() {
    let rule = Rule::noise_injection(300_000);
    let context = Context::new("youtube.com", "tech");

    let actions = rule.evaluate_with_draw(&context, 0);
    assert!(actions.is_some());
}

#[test]
fn mod_test_basic_evaluation() {
    let rule = Rule::noise_injection(300_000);
    let context = Context::new("youtube.com", "tech");

    let actions = rule.evaluate_with_draw(&context, 0);
    assert!(actions.is_some());
}

#[test]
fn test_disabled_rule_returns_nothing() {
    let rule = unconditional_rule(PROBABILITY_SCALE, false, vec![Action::SuggestBreak]);
    let context = Context::new("youtube.com", "tech");
    for _ in 0..50 {
        assert!(rule.evaluate(&context).is_none());
    }
    assert!(rule.evaluate_with_draw(&context, 0).is_none());

    let mut engine = RuleEngine::new();
    engine.add_rule(unconditional_rule(PROBABILITY_SCALE, false, vec![Action::SuggestBreak]));
    assert_eq!(engine.evaluate(&context), Vec::<Action>::new());
}

#[test]
fn test_certain_rule_always_fires() {
    let rule = Rule::noise_injection(PROBABILITY_SCALE);
    let context = Context::new("youtube.com", "tech");
    for _ in 0..100 {
        let actions = rule.evaluate(&context).expect("probability 1.0 must fire");
        assert_eq!(actions, vec![Action::InjectNoise { count: 2 }]);
    }
}

#[test]
fn test_zero_probability_never_fires() {
    let rule = Rule::noise_injection(0);
    let context = Context::new("youtube.com", "tech");
    for _ in 0..100 {
        assert!(rule.evaluate(&context).is_none());
    }
}

#[test]
fn test_no_conditions_matches_any_context() {
    let rule = unconditional_rule(PROBABILITY_SCALE, true, vec![Action::ClickOffTopic]);
    let contexts = [
        Context::new("youtube.com", "tech"),
        Context::new("", ""),
        Context::new("example.org", "news").with_scroll_depth(7).with_session_duration(3600),
    ];
    for context in contexts.iter() {
        assert_eq!(rule.evaluate(context), Some(vec![Action::ClickOffTopic]));
    }
}

#[test]
fn test_output_preserves_rule_order_then_action_order() {
    let first = unconditional_rule(
        PROBABILITY_SCALE,
        true,
        vec![
            Action::Log { message: String::from("one") },
            Action::Log { message: String::from("two") },
        ],
    );
    let second = unconditional_rule(
        PROBABILITY_SCALE,
        true,
        vec![
            Action::Log { message: String::from("three") },
            Action::Log { message: String::from("four") },
        ],
    );
    let context = Context::new("youtube.com", "tech");
    let actions = evaluate_rules(&[first, second], &context);
    let messages: Vec<String> = actions
        .iter()
        .map(|a| match a {
            Action::Log { message } => message.clone(),
            _ => panic!("only log actions were stored"),
        })
        .collect();
    assert_eq!(messages, vec!["one", "two", "three", "four"]);
}

#[test]
fn test_evaluation_in_halves_equals_whole() {
    let rules = vec![
        unconditional_rule(PROBABILITY_SCALE, true, vec![Action::SuggestBreak]),
        unconditional_rule(0, true, vec![Action::ClickOffTopic]),
        unconditional_rule(PROBABILITY_SCALE, true, vec![Action::InjectNoise { count: 1 }]),
    ];
    let context = Context::new("youtube.com", "tech");
    let draws = [0, 0, 0];
    let whole = evaluate_rules_with_draws(&rules, &context, &draws);
    let mut halves = evaluate_rules_with_draws(&rules[..1], &context, &draws[..1]);
    halves.extend(evaluate_rules_with_draws(&rules[1..], &context, &draws[1..]));
    assert_eq!(whole, halves);
    assert_eq!(whole, vec![Action::SuggestBreak, Action::InjectNoise { count: 1 }]);
}

#[test]
fn test_unknown_field_is_false_for_every_operator() {
    let rule = Rule::noise_injection(0);
    let context = Context::new("youtube.com", "tech");
    let operators = [
        Operator::Equals,
        Operator::Contains,
        Operator::GreaterThan,
        Operator::LessThan,
        Operator::Matches,
    ];
    for operator in operators.iter() {
        let condition = algorithm_shield::rules::Condition {
            field: String::from("nonexistent_field"),
            operator: *operator,
            value: Scalar::Str(String::from("youtube.com")),
        };
        assert!(!rule.evaluate_condition(&condition, &context));
        let numeric = algorithm_shield::rules::Condition {
            field: String::from("nonexistent_field"),
            operator: *operator,
            value: Scalar::Num(0),
        };
        assert!(!rule.evaluate_condition(&numeric, &context));
    }
}

#[test]
fn test_engagement_disruption_fires_above_limit() {
    let rule = Rule::engagement_disruption(50);
    let context = Context::new("youtube.com", "tech").with_scroll_depth(51);
    assert_eq!(rule.evaluate(&context), Some(vec![Action::SuggestBreak]));
}

#[test]
fn test_engagement_disruption_is_strict_at_limit() {
    let rule = Rule::engagement_disruption(50);
    let context = Context::new("youtube.com", "tech").with_scroll_depth(50);
    assert!(rule.evaluate(&context).is_none());
    assert_eq!(evaluate_rules(&[Rule::engagement_disruption(50)], &context), Vec::<Action>::new());
}

#[test]
fn test_noise_injection_always_returns_inject_noise() {
    let rule = Rule::noise_injection(PROBABILITY_SCALE);
    for context in [
        Context::new("youtube.com", "tech"),
        Context::new("news.site", "politics").with_session_duration(10),
    ] {
        let actions = rule.evaluate(&context).expect("probability 1.0 must fire");
        assert_eq!(actions, vec![Action::InjectNoise { count: 2 }]);
        assert_eq!(actions[0].narrate(), "Inject 2 off-profile clicks");
    }
}

#[test]
fn test_engine_two_rules_in_order() {
    let mut engine = RuleEngine::new();
    engine.add_rule(Rule::engagement_disruption(10));
    engine.add_rule(Rule::noise_injection(PROBABILITY_SCALE));
    let context = Context::new("youtube.com", "tech").with_scroll_depth(20);
    let actions = engine.evaluate(&context);
    assert_eq!(actions, vec![Action::SuggestBreak, Action::InjectNoise { count: 2 }]);
}

#[test]
fn test_profile_dilution_opens_decoy_tabs() {
    let rule = Rule::profile_dilution(PROBABILITY_SCALE);
    let context = Context::new("youtube.com", "tech");
    let actions = rule.evaluate_with_draw(&context, PROBABILITY_SCALE - 1).unwrap();
    assert_eq!(
        actions,
        vec![Action::OpenBackgroundTabs {
            urls: vec![
                String::from("https://en.wikipedia.org/wiki/Special:Random"),
                String::from("https://news.ycombinator.com"),
            ],
        }]
    );
}

#[test]
fn test_probability_gate_uses_strict_comparison() {
    let rule = unconditional_rule(500_000, true, vec![Action::SuggestBreak]);
    let context = Context::new("youtube.com", "tech");
    assert!(rule.evaluate_with_draw(&context, 499_999).is_some());
    assert!(rule.evaluate_with_draw(&context, 500_000).is_none());
}
