//! Rule definitions and the evaluation algorithm.

use vstd::prelude::*;
use vstd::string::StringExecFns;

use crate::actions::Action;
use crate::actions::ActionView;
use crate::context::Context;
use crate::context::ContextView;
use crate::strings::spec_contains;
use crate::strings::spec_decimal;
use crate::strings::str_contains;
use crate::strings::str_eq;
use crate::strings::u64_to_decimal;

verus! {

/// Probabilities are held in millionths: `PROBABILITY_SCALE` stands for a
/// certain rule, `0` for one that never fires.
pub const PROBABILITY_SCALE: u32 = 1000000;

/// Mathematical model of a [`Scalar`].
pub ghost enum ScalarView {
    Str(Seq<char>),
    Num(i64),
    Bool(bool),
}

/// The dynamically-typed scalar a condition compares against: a string, an
/// integer, or a boolean.
pub enum Scalar {
    Str(String),
    Num(i64),
    Bool(bool),
}

impl DeepView for Scalar {
    type V = ScalarView;

    open spec fn deep_view(&self) -> ScalarView {
        match *self {
            Scalar::Str(s) => ScalarView::Str(s@),
            Scalar::Num(n) => ScalarView::Num(n),
            Scalar::Bool(b) => ScalarView::Bool(b),
        }
    }
}

impl Clone for Scalar {
    fn clone(&self) -> (r: Self)
        ensures
            r.deep_view() == self.deep_view(),
    {
        match self {
            Scalar::Str(s) => Scalar::Str(s.clone()),
            Scalar::Num(n) => Scalar::Num(*n),
            Scalar::Bool(b) => Scalar::Bool(*b),
        }
    }
}

/// How a condition compares a context field with its scalar.
#[derive(Clone, Copy)]
pub enum Operator {
    Equals,
    Contains,
    GreaterThan,
    LessThan,
    /// Reserved for regex-style matching; this core always evaluates it to
    /// `false` rather than carrying a pattern matcher of its own.
    Matches,
}

/// Mathematical model of a [`Condition`].
pub ghost struct ConditionView {
    pub field: Seq<char>,
    pub operator: Operator,
    pub value: ScalarView,
}

/// One predicate over a named context field.
pub struct Condition {
    pub field: String,
    pub operator: Operator,
    pub value: Scalar,
}

impl DeepView for Condition {
    type V = ConditionView;

    open spec fn deep_view(&self) -> ConditionView {
        ConditionView { field: self.field@, operator: self.operator, value: self.value.deep_view() }
    }
}

impl Clone for Condition {
    fn clone(&self) -> (r: Self)
        ensures
            r.deep_view() == self.deep_view(),
    {
        Condition {
            field: self.field.clone(),
            operator: self.operator,
            value: self.value.clone(),
        }
    }
}

/// Mathematical model of a [`Rule`].
pub ghost struct RuleView {
    pub id: Seq<char>,
    pub name: Seq<char>,
    pub description: Seq<char>,
    pub conditions: Seq<ConditionView>,
    pub actions: Seq<ActionView>,
    pub probability: u32,
    pub enabled: bool,
}

/// A named policy unit: a conjunction of conditions, a probability gate in
/// millionths, and the actions to emit when the rule fires.
pub struct Rule {
    pub id: String,
    pub name: String,
    pub description: String,
    pub conditions: Vec<Condition>,
    pub actions: Vec<Action>,
    /// Millionths; between `0` and [`PROBABILITY_SCALE`].
    pub probability: u32,
    pub enabled: bool,
}

impl DeepView for Rule {
    type V = RuleView;

    open spec fn deep_view(&self) -> RuleView {
        RuleView {
            id: self.id@,
            name: self.name@,
            description: self.description@,
            conditions: self.conditions.deep_view(),
            actions: self.actions.deep_view(),
            probability: self.probability,
            enabled: self.enabled,
        }
    }
}

/// What a condition with a string-valued context field evaluates to.
pub open spec fn spec_string_condition(s: Seq<char>, op: Operator, v: ScalarView) -> bool {
    match op {
        Operator::Equals => v matches ScalarView::Str(t) && s == t,
        Operator::Contains => v matches ScalarView::Str(t) && spec_contains(s, t),
        Operator::GreaterThan => false,
        Operator::LessThan => false,
        Operator::Matches => false,
    }
}

/// What a condition with a numeric context field evaluates to.
pub open spec fn spec_number_condition(n: i64, op: Operator, v: ScalarView) -> bool {
    match op {
        Operator::Equals => v matches ScalarView::Num(m) && n == m,
        Operator::Contains => false,
        Operator::GreaterThan => v matches ScalarView::Num(m) && n > m,
        Operator::LessThan => v matches ScalarView::Num(m) && n < m,
        Operator::Matches => false,
    }
}

/// Whether one condition is satisfied by a context. The closed-world policy:
/// an unknown field, a kind-mismatched comparison and the `Matches` operator
/// all resolve to `false`, never to an error.
pub open spec fn spec_condition_holds(c: ConditionView, ctx: ContextView) -> bool {
    if c.field == "platform"@ {
        spec_string_condition(ctx.platform, c.operator, c.value)
    } else if c.field == "content_type"@ {
        spec_string_condition(ctx.content_type, c.operator, c.value)
    } else if c.field == "scroll_depth"@ {
        spec_number_condition(ctx.scroll_depth as i64, c.operator, c.value)
    } else if c.field == "session_duration"@ {
        spec_number_condition(ctx.session_duration as i64, c.operator, c.value)
    } else {
        false
    }
}

/// All conditions hold; an empty sequence is vacuously satisfied.
pub open spec fn spec_conditions_hold(conditions: Seq<ConditionView>, ctx: ContextView) -> bool {
    forall|i: int| 0 <= i < conditions.len() ==> spec_condition_holds(#[trigger] conditions[i], ctx)
}

/// The rule is enabled and every condition is satisfied.
pub open spec fn spec_rule_matches(r: RuleView, ctx: ContextView) -> bool {
    r.enabled && spec_conditions_hold(r.conditions, ctx)
}

/// The outcome of one evaluation of `r` in which the probability draw came
/// out `draw`: the rule's actions when it fires, `None` otherwise.
pub open spec fn spec_rule_outcome(r: RuleView, ctx: ContextView, draw: u32) -> Option<
    Seq<ActionView>,
> {
    if spec_rule_matches(r, ctx) && draw < r.probability {
        Some(r.actions)
    } else {
        None
    }
}

/// Relies on `rand::random_range` over `0..n`: a value uniformly distributed
/// in that range, which is non-empty, so the call cannot panic.
#[verifier::external_body]
pub(crate) fn draw_below(n: u32) -> (r: u32)
    requires
        n > 0,
    ensures
        r < n,
{
    rand::random_range(0..n)
}

fn evaluate_string_condition(s: &str, op: Operator, v: &Scalar) -> (r: bool)
    ensures
        r == spec_string_condition(s@, op, v.deep_view()),
{
    match op {
        Operator::Equals => match v {
            Scalar::Str(t) => str_eq(s, t.as_str()),
            _ => false,
        },
        Operator::Contains => match v {
            Scalar::Str(t) => str_contains(s, t.as_str()),
            _ => false,
        },
        Operator::GreaterThan => false,
        Operator::LessThan => false,
        Operator::Matches => false,
    }
}

fn evaluate_number_condition(n: i64, op: Operator, v: &Scalar) -> (r: bool)
    ensures
        r == spec_number_condition(n, op, v.deep_view()),
{
    match v {
        Scalar::Num(m) => match op {
            Operator::Equals => n == *m,
            Operator::GreaterThan => n > *m,
            Operator::LessThan => n < *m,
            _ => false,
        },
        _ => false,
    }
}

impl Rule {
    /// Whether one condition is satisfied by `context`.
    pub fn evaluate_condition(&self, condition: &Condition, context: &Context) -> (r: bool)
        ensures
            r == spec_condition_holds(condition.deep_view(), context.deep_view()),
    {
        let field = condition.field.as_str();
        if str_eq(field, "platform") {
            evaluate_string_condition(context.platform.as_str(), condition.operator, &condition.value)
        } else if str_eq(field, "content_type") {
            evaluate_string_condition(
                context.content_type.as_str(),
                condition.operator,
                &condition.value,
            )
        } else if str_eq(field, "scroll_depth") {
            evaluate_number_condition(
                context.scroll_depth as i64,
                condition.operator,
                &condition.value,
            )
        } else if str_eq(field, "session_duration") {
            evaluate_number_condition(
                context.session_duration as i64,
                condition.operator,
                &condition.value,
            )
        } else {
            false
        }
    }

    /// One evaluation of this rule in which the probability draw is handed in
    /// by the caller; deterministic, and the reference point for [`Rule::evaluate`].
    pub fn evaluate_with_draw(&self, context: &Context, draw: u32) -> (r: Option<Vec<Action>>)
        ensures
            r.deep_view() == spec_rule_outcome(self.deep_view(), context.deep_view(), draw),
    {
        if !self.enabled {
            return None;
        }
        let mut i: usize = 0;
        while i < self.conditions.len()
            invariant
                i <= self.conditions@.len(),
                forall|j: int|
                    0 <= j < i ==> spec_condition_holds(
                        #[trigger] self.deep_view().conditions[j],
                        context.deep_view(),
                    ),
            decreases self.conditions@.len() - i,
        {
            if !self.evaluate_condition(&self.conditions[i], context) {
                proof {
                    assert(self.deep_view().conditions[i as int] == self.conditions@[
                        i as int
                    ].deep_view());
                    assert(!spec_conditions_hold(self.deep_view().conditions, context.deep_view()));
                }
                return None;
            }
            i = i + 1;
        }
        proof {
            assert(spec_conditions_hold(self.deep_view().conditions, context.deep_view()));
        }
        if draw >= self.probability {
            return None;
        }
        let acts = self.actions.clone();
        proof {
            assert forall|k: int| 0 <= k < acts.deep_view().len() implies acts.deep_view()[k]
                == self.actions.deep_view()[k] by {
                assert(vstd::pervasive::cloned::<Action>(self.actions[k], acts[k]));
            }
            assert(acts.deep_view() =~= self.actions.deep_view());
        }
        Some(acts)
    }

    /// One full evaluation: condition matching, then an independent draw
    /// against the probability gate.
    pub fn evaluate(&self, context: &Context) -> (r: Option<Vec<Action>>)
        ensures
            exists|d: u32|
                d < PROBABILITY_SCALE && r.deep_view() == spec_rule_outcome(
                    self.deep_view(),
                    context.deep_view(),
                    d,
                ),
            !self.deep_view().enabled ==> r is None,
            !spec_conditions_hold(self.deep_view().conditions, context.deep_view()) ==> r is None,
            self.deep_view().probability == 0 ==> r is None,
            spec_rule_matches(self.deep_view(), context.deep_view()) && self.deep_view().probability
                >= PROBABILITY_SCALE ==> r.deep_view() == Some(self.deep_view().actions),
            r is Some ==> spec_rule_matches(self.deep_view(), context.deep_view()) && r.deep_view()
                == Some(self.deep_view().actions),
    {
        let draw = draw_below(PROBABILITY_SCALE);
        let r = self.evaluate_with_draw(context, draw);
        proof {
            assert(r.deep_view() == spec_rule_outcome(
                self.deep_view(),
                context.deep_view(),
                draw,
            ));
        }
        r
    }

    /// The human-readable narrative of this rule.
    pub fn narrate(&self) -> (r: String)
        ensures
            r@ == self.deep_view().name + ": "@ + self.deep_view().description,
    {
        let r = String::from_str(self.name.as_str()).concat(": ").concat(
            self.description.as_str(),
        );
        proof {
            assert(r@ =~= self.deep_view().name + ": "@ + self.deep_view().description);
        }
        r
    }

    /// Preset: occasionally click content outside the inferred profile.
    pub fn noise_injection(probability: u32) -> (r: Rule)
        requires
            probability <= PROBABILITY_SCALE,
        ensures
            r.deep_view() == (RuleView {
                id: "noise-injection"@,
                name: "Noise Injection"@,
                description: "Occasionally click content outside your inferred profile"@,
                conditions: Seq::<ConditionView>::empty(),
                actions: seq![ActionView::InjectNoise { count: 2 }],
                probability: probability,
                enabled: true,
            }),
    {
        let mut actions: Vec<Action> = Vec::new();
        actions.push(Action::InjectNoise { count: 2 });
        let r = Rule {
            id: String::from_str("noise-injection"),
            name: String::from_str("Noise Injection"),
            description: String::from_str(
                "Occasionally click content outside your inferred profile",
            ),
            conditions: Vec::new(),
            actions,
            probability,
            enabled: true,
        };
        proof {
            assert(r.deep_view().conditions =~= Seq::<ConditionView>::empty());
            assert(r.deep_view().actions =~= seq![ActionView::InjectNoise { count: 2 }]);
        }
        r
    }

    /// Preset: open diverse background tabs to dilute the profile.
    pub fn profile_dilution(probability: u32) -> (r: Rule)
        requires
            probability <= PROBABILITY_SCALE,
        ensures
            r.deep_view() == (RuleView {
                id: "profile-dilution"@,
                name: "Profile Dilution"@,
                description: "Open diverse background tabs when viewing niche content"@,
                conditions: Seq::<ConditionView>::empty(),
                actions: seq![
                    ActionView::OpenBackgroundTabs {
                        urls: seq![
                            "https://en.wikipedia.org/wiki/Special:Random"@,
                            "https://news.ycombinator.com"@,
                        ],
                    },
                ],
                probability: probability,
                enabled: true,
            }),
    {
        let mut urls: Vec<String> = Vec::new();
        urls.push(String::from_str("https://en.wikipedia.org/wiki/Special:Random"));
        urls.push(String::from_str("https://news.ycombinator.com"));
        proof {
            assert(urls.deep_view() =~= seq![
                "https://en.wikipedia.org/wiki/Special:Random"@,
                "https://news.ycombinator.com"@,
            ]);
        }
        let mut actions: Vec<Action> = Vec::new();
        actions.push(Action::OpenBackgroundTabs { urls });
        let r = Rule {
            id: String::from_str("profile-dilution"),
            name: String::from_str("Profile Dilution"),
            description: String::from_str(
                "Open diverse background tabs when viewing niche content",
            ),
            conditions: Vec::new(),
            actions,
            probability,
            enabled: true,
        };
        proof {
            assert(r.deep_view().conditions =~= Seq::<ConditionView>::empty());
            assert(r.deep_view().actions =~= seq![
                ActionView::OpenBackgroundTabs {
                    urls: seq![
                        "https://en.wikipedia.org/wiki/Special:Random"@,
                        "https://news.ycombinator.com"@,
                    ],
                },
            ]);
        }
        r
    }

    /// Preset: suggest a break once the scroll depth exceeds `scroll_limit`.
    pub fn engagement_disruption(scroll_limit: u32) -> (r: Rule)
        ensures
            r.deep_view() == (RuleView {
                id: "engagement-disruption"@,
                name: "Engagement Disruption"@,
                description: "Suggest break after "@ + spec_decimal(scroll_limit as nat)
                    + " scroll events"@,
                conditions: seq![
                    ConditionView {
                        field: "scroll_depth"@,
                        operator: Operator::GreaterThan,
                        value: ScalarView::Num(scroll_limit as i64),
                    },
                ],
                actions: seq![ActionView::SuggestBreak],
                probability: PROBABILITY_SCALE,
                enabled: true,
            }),
    {
        let description = String::from_str("Suggest break after ").concat(
            u64_to_decimal(scroll_limit as u64).as_str(),
        ).concat(" scroll events");
        let mut conditions: Vec<Condition> = Vec::new();
        conditions.push(
            Condition {
                field: String::from_str("scroll_depth"),
                operator: Operator::GreaterThan,
                value: Scalar::Num(scroll_limit as i64),
            },
        );
        let mut actions: Vec<Action> = Vec::new();
        actions.push(Action::SuggestBreak);
        let r = Rule {
            id: String::from_str("engagement-disruption"),
            name: String::from_str("Engagement Disruption"),
            description,
            conditions,
            actions,
            probability: PROBABILITY_SCALE,
            enabled: true,
        };
        proof {
            assert(r.deep_view().description =~= "Suggest break after "@ + spec_decimal(
                scroll_limit as nat,
            ) + " scroll events"@);
            assert(r.deep_view().conditions =~= seq![
                ConditionView {
                    field: "scroll_depth"@,
                    operator: Operator::GreaterThan,
                    value: ScalarView::Num(scroll_limit as i64),
                },
            ]);
            assert(r.deep_view().actions =~= seq![ActionView::SuggestBreak]);
        }
        r
    }
}

/// Law: a disabled rule never fires, whatever the context and the draw.
pub proof fn lemma_disabled_rule_never_fires(r: RuleView, ctx: ContextView, draw: u32)
    requires
        !r.enabled,
    ensures
        spec_rule_outcome(r, ctx, draw) is None,
{
}

/// Law: with probability 1 and satisfied conditions, a rule always fires and
/// returns exactly its action list.
pub proof fn lemma_certain_rule_always_fires(r: RuleView, ctx: ContextView, draw: u32)
    requires
        r.enabled,
        spec_conditions_hold(r.conditions, ctx),
        r.probability == PROBABILITY_SCALE,
        draw < PROBABILITY_SCALE,
    ensures
        spec_rule_outcome(r, ctx, draw) == Some(r.actions),
{
}

/// Law: with probability 0 a rule never fires, even when its conditions are
/// satisfied.
pub proof fn lemma_zero_probability_never_fires(r: RuleView, ctx: ContextView, draw: u32)
    requires
        r.probability == 0,
    ensures
        spec_rule_outcome(r, ctx, draw) is None,
{
}

/// Law: a rule with no conditions is vacuously satisfied by any context; it
/// fires exactly when it is enabled and the draw passes the probability gate.
pub proof fn lemma_no_conditions_matches_any_context(r: RuleView, ctx: ContextView, draw: u32)
    requires
        r.conditions.len() == 0,
    ensures
        spec_conditions_hold(r.conditions, ctx),
        spec_rule_outcome(r, ctx, draw) == (if r.enabled && draw < r.probability {
            Some(r.actions)
        } else {
            None::<Seq<ActionView>>
        }),
{
}

/// Law: a condition on an unknown field never holds, whatever its operator
/// and value.
pub proof fn lemma_unknown_field_never_holds(c: ConditionView, ctx: ContextView)
    requires
        c.field != "platform"@,
        c.field != "content_type"@,
        c.field != "scroll_depth"@,
        c.field != "session_duration"@,
    ensures
        !spec_condition_holds(c, ctx),
{
}

} // verus!
