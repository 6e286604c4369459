//! The rule engine: an ordered rule collection and the rule-set evaluation
//! algorithm that aggregates the actions of every rule that fires.

use vstd::prelude::*;
use vstd::string::StringExecFns;

use crate::actions::Action;
use crate::actions::ActionView;
use crate::context::Context;
use crate::context::ContextView;
use crate::rules::spec_rule_outcome;
use crate::rules::PROBABILITY_SCALE;
use crate::rules::Rule;
use crate::rules::RuleView;

verus! {

/// What one rule adds to the aggregated output for a given draw: its actions
/// when it fires, nothing otherwise.
pub open spec fn spec_rule_contribution(r: RuleView, ctx: ContextView, draw: u32) -> Seq<
    ActionView,
> {
    match spec_rule_outcome(r, ctx, draw) {
        Some(acts) => acts,
        None => Seq::empty(),
    }
}

/// Rule-set evaluation: the concatenation, in rule order, of every rule's
/// contribution, each rule judged against its own draw.
pub open spec fn spec_evaluate_rules(
    rules: Seq<RuleView>,
    ctx: ContextView,
    draws: Seq<u32>,
) -> Seq<ActionView>
    decreases rules.len(),
{
    if rules.len() == 0 {
        Seq::empty()
    } else {
        spec_rule_contribution(rules[0], ctx, draws[0]) + spec_evaluate_rules(
            rules.drop_first(),
            ctx,
            draws.drop_first(),
        )
    }
}

/// Law: evaluating two halves of a rule set and concatenating the results
/// equals evaluating the whole set; output order is rule order, then each
/// rule's internal action order.
pub proof fn lemma_evaluate_rules_split(
    left: Seq<RuleView>,
    right: Seq<RuleView>,
    ctx: ContextView,
    dleft: Seq<u32>,
    dright: Seq<u32>,
)
    requires
        left.len() == dleft.len(),
        right.len() == dright.len(),
    ensures
        spec_evaluate_rules(left + right, ctx, dleft + dright) == spec_evaluate_rules(
            left,
            ctx,
            dleft,
        ) + spec_evaluate_rules(right, ctx, dright),
    decreases left.len(),
{
    if left.len() == 0 {
        assert(left + right =~= right);
        assert(dleft + dright =~= dright);
        assert(spec_evaluate_rules(left, ctx, dleft) + spec_evaluate_rules(right, ctx, dright)
            =~= spec_evaluate_rules(right, ctx, dright));
    } else {
        lemma_evaluate_rules_split(left.drop_first(), right, ctx, dleft.drop_first(), dright);
        assert((left + right).drop_first() =~= left.drop_first() + right);
        assert((dleft + dright).drop_first() =~= dleft.drop_first() + dright);
        assert((left + right)[0] == left[0]);
        assert((dleft + dright)[0] == dleft[0]);
        assert(spec_rule_contribution(left[0], ctx, dleft[0]) + (spec_evaluate_rules(
            left.drop_first(),
            ctx,
            dleft.drop_first(),
        ) + spec_evaluate_rules(right, ctx, dright)) =~= (spec_rule_contribution(
            left[0],
            ctx,
            dleft[0],
        ) + spec_evaluate_rules(left.drop_first(), ctx, dleft.drop_first())) + spec_evaluate_rules(
            right,
            ctx,
            dright,
        ));
    }
}

/// A one-rule set evaluates to that rule's contribution.
proof fn lemma_evaluate_rules_single(r: RuleView, ctx: ContextView, d: u32)
    ensures
        spec_evaluate_rules(seq![r], ctx, seq![d]) == spec_rule_contribution(r, ctx, d),
{
    assert(seq![r][0] == r);
    assert(seq![d][0] == d);
    assert(seq![r].drop_first() =~= Seq::<RuleView>::empty());
    assert(seq![d].drop_first() =~= Seq::<u32>::empty());
    assert(spec_evaluate_rules(Seq::<RuleView>::empty(), ctx, Seq::<u32>::empty())
        =~= Seq::<ActionView>::empty());
    assert(spec_rule_contribution(r, ctx, d) + Seq::<ActionView>::empty() =~= spec_rule_contribution(
        r,
        ctx,
        d,
    ));
}

/// Appending one rule (and its draw) appends that rule's contribution.
proof fn lemma_evaluate_rules_snoc(
    rules: Seq<RuleView>,
    r: RuleView,
    ctx: ContextView,
    draws: Seq<u32>,
    d: u32,
)
    requires
        rules.len() == draws.len(),
    ensures
        spec_evaluate_rules(rules.push(r), ctx, draws.push(d)) == spec_evaluate_rules(
            rules,
            ctx,
            draws,
        ) + spec_rule_contribution(r, ctx, d),
{
    lemma_evaluate_rules_split(rules, seq![r], ctx, draws, seq![d]);
    assert(rules.push(r) =~= rules + seq![r]);
    assert(draws.push(d) =~= draws + seq![d]);
    lemma_evaluate_rules_single(r, ctx, d);
}

/// Law: a disabled rule contributes nothing — removing it, and its draw,
/// leaves the rule-set evaluation unchanged.
pub proof fn lemma_disabled_rule_excluded(
    rules: Seq<RuleView>,
    ctx: ContextView,
    draws: Seq<u32>,
    i: int,
)
    requires
        rules.len() == draws.len(),
        0 <= i < rules.len(),
        !rules[i].enabled,
    ensures
        spec_evaluate_rules(rules, ctx, draws) == spec_evaluate_rules(
            rules.remove(i),
            ctx,
            draws.remove(i),
        ),
{
    let rl = rules.subrange(0, i);
    let rm = seq![rules[i]];
    let rr = rules.subrange(i + 1, rules.len() as int);
    let dl = draws.subrange(0, i);
    let dm = seq![draws[i]];
    let dr = draws.subrange(i + 1, draws.len() as int);
    assert(rules =~= rl + (rm + rr));
    assert(draws =~= dl + (dm + dr));
    lemma_evaluate_rules_split(rl, rm + rr, ctx, dl, dm + dr);
    lemma_evaluate_rules_split(rm, rr, ctx, dm, dr);
    lemma_evaluate_rules_single(rules[i], ctx, draws[i]);
    assert(spec_rule_contribution(rules[i], ctx, draws[i]) =~= Seq::<ActionView>::empty());
    assert(spec_evaluate_rules(rm, ctx, dm) =~= Seq::<ActionView>::empty());
    assert(spec_evaluate_rules(rm, ctx, dm) + spec_evaluate_rules(rr, ctx, dr)
        =~= spec_evaluate_rules(rr, ctx, dr));
    assert(rules.remove(i) =~= rl + rr);
    assert(draws.remove(i) =~= dl + dr);
    lemma_evaluate_rules_split(rl, rr, ctx, dl, dr);
}

/// Evaluate every rule against `context`, each judged against the draw given
/// at its own index; deterministic, and the reference point for
/// [`evaluate_rules`].
pub fn evaluate_rules_with_draws(rules: &[Rule], context: &Context, draws: &[u32]) -> (r: Vec<
    Action,
>)
    requires
        draws@.len() == rules@.len(),
    ensures
        r.deep_view() == spec_evaluate_rules(rules.deep_view(), context.deep_view(), draws@),
{
    let mut out: Vec<Action> = Vec::new();
    let mut i: usize = 0;
    proof {
        assert(out.deep_view() =~= spec_evaluate_rules(
            rules.deep_view().subrange(0, 0),
            context.deep_view(),
            draws@.subrange(0, 0),
        ));
    }
    while i < rules.len()
        invariant
            i <= rules@.len(),
            draws@.len() == rules@.len(),
            out.deep_view() == spec_evaluate_rules(
                rules.deep_view().subrange(0, i as int),
                context.deep_view(),
                draws@.subrange(0, i as int),
            ),
        decreases rules@.len() - i,
    {
        let ghost prefix = rules.deep_view().subrange(0, i as int);
        let ghost dprefix = draws@.subrange(0, i as int);
        let ghost old_out = out.deep_view();
        let outcome = rules[i].evaluate_with_draw(context, draws[i]);
        proof {
            lemma_evaluate_rules_snoc(
                prefix,
                rules.deep_view()[i as int],
                context.deep_view(),
                dprefix,
                draws@[i as int],
            );
            assert(rules.deep_view().subrange(0, i + 1) =~= prefix.push(
                rules.deep_view()[i as int],
            ));
            assert(draws@.subrange(0, i + 1) =~= dprefix.push(draws@[i as int]));
        }
        match outcome {
            Some(mut acts) => {
                let ghost acts_view = acts.deep_view();
                out.append(&mut acts);
                proof {
                    assert(out.deep_view() =~= old_out + acts_view);
                }
            },
            None => {
                proof {
                    assert(out.deep_view() =~= old_out + Seq::<ActionView>::empty());
                }
            },
        }
        i = i + 1;
    }
    proof {
        assert(rules.deep_view().subrange(0, rules@.len() as int) =~= rules.deep_view());
        assert(draws@.subrange(0, draws@.len() as int) =~= draws@);
    }
    out
}

/// Evaluate every rule against `context`, drawing one independent probability
/// sample for each rule. Matching rules contribute their actions in rule
/// order; disabled and non-matching rules contribute nothing.
pub fn evaluate_rules(rules: &[Rule], context: &Context) -> (r: Vec<Action>)
    ensures
        exists|draws: Seq<u32>|
            draws.len() == rules@.len() && (forall|i: int|
                0 <= i < draws.len() ==> draws[i] < PROBABILITY_SCALE) && r.deep_view()
                == #[trigger] spec_evaluate_rules(rules.deep_view(), context.deep_view(), draws),
{
    let n = rules.len();
    let mut draws: Vec<u32> = Vec::new();
    let mut i: usize = 0;
    while i < n
        invariant
            draws@.len() == i,
            i <= n,
            forall|j: int| 0 <= j < i ==> draws@[j] < PROBABILITY_SCALE,
        decreases n - i,
    {
        draws.push(crate::rules::draw_below(PROBABILITY_SCALE));
        i = i + 1;
    }
    let r = evaluate_rules_with_draws(rules, context, draws.as_slice());
    proof {
        assert(r.deep_view() == spec_evaluate_rules(
            rules.deep_view(),
            context.deep_view(),
            draws@,
        ));
    }
    r
}

/// One bullet-prefixed narration line per rule, joined by newlines.
pub open spec fn spec_rule_lines(rules: Seq<RuleView>) -> Seq<char>
    decreases rules.len(),
{
    if rules.len() == 0 {
        Seq::empty()
    } else if rules.len() == 1 {
        "\u{2022} "@ + rules[0].name + ": "@ + rules[0].description
    } else {
        spec_rule_lines(rules.drop_last()) + "\n"@ + "\u{2022} "@ + rules.last().name + ": "@
            + rules.last().description
    }
}

/// Holds an ordered collection of rules; created empty, grown only by
/// [`RuleEngine::add_rule`].
pub struct RuleEngine {
    rules: Vec<Rule>,
}

impl DeepView for RuleEngine {
    type V = Seq<RuleView>;

    closed spec fn deep_view(&self) -> Seq<RuleView> {
        self.rules.deep_view()
    }
}

impl RuleEngine {
    /// A fresh engine with no rules.
    pub fn new() -> (e: RuleEngine)
        ensures
            e.deep_view() == Seq::<RuleView>::empty(),
    {
        let e = RuleEngine { rules: Vec::new() };
        proof {
            assert(e.deep_view() =~= Seq::<RuleView>::empty());
        }
        e
    }

    /// Append one rule; the rules already stored are untouched.
    pub fn add_rule(&mut self, rule: Rule)
        ensures
            final(self).deep_view() == old(self).deep_view().push(rule.deep_view()),
    {
        self.rules.push(rule);
        proof {
            assert(self.deep_view() =~= old(self).deep_view().push(rule.deep_view()));
        }
    }

    /// Evaluate every stored rule against `context`, in collection order, with
    /// one independent probability draw per rule.
    pub fn evaluate(&self, context: &Context) -> (r: Vec<Action>)
        ensures
            exists|draws: Seq<u32>|
                draws.len() == self.deep_view().len() && (forall|i: int|
                    0 <= i < draws.len() ==> draws[i] < PROBABILITY_SCALE) && r.deep_view()
                    == #[trigger] spec_evaluate_rules(
                    self.deep_view(),
                    context.deep_view(),
                    draws,
                ),
    {
        let s = self.rules.as_slice();
        let r = evaluate_rules(s, context);
        proof {
            assert(s.deep_view() =~= self.deep_view());
        }
        r
    }

    /// A newline-joined, bullet-prefixed narration of every stored rule, in
    /// collection order.
    pub fn narrate_rules(&self) -> (r: String)
        ensures
            r@ == spec_rule_lines(self.deep_view()),
    {
        let mut out = String::new();
        let mut i: usize = 0;
        proof {
            assert(out@ =~= spec_rule_lines(self.deep_view().subrange(0, 0)));
        }
        while i < self.rules.len()
            invariant
                i <= self.rules@.len(),
                out@ == spec_rule_lines(self.deep_view().subrange(0, i as int)),
            decreases self.rules@.len() - i,
        {
            let ghost prefix = self.deep_view().subrange(0, i as int);
            if i > 0 {
                out.append("\n");
            }
            out.append("\u{2022} ");
            let line = self.rules[i].narrate();
            out.append(line.as_str());
            proof {
                let cur = self.deep_view().subrange(0, i + 1);
                assert(cur.drop_last() =~= prefix);
                assert(cur.last() == self.deep_view()[i as int]);
                assert(out@ =~= spec_rule_lines(cur));
            }
            i = i + 1;
        }
        proof {
            assert(self.deep_view().subrange(0, self.rules@.len() as int) =~= self.deep_view());
        }
        out
    }
}

} // verus!
