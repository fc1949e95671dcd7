//! Question generation by bounded rejection sampling.

use vstd::prelude::*;
use rand::rngs::StdRng;
use crate::error::EngineError;
use crate::operator::Operator;
use crate::question::{as_ints, chain_valid, posed, Question, QuestionView};
use crate::random::sample_inclusive;
use crate::ruleset::{OperatorSet, Ruleset, RulesetView};

verus! {

/// How many operand tuples `generate` samples before it gives up.
pub const MAX_ATTEMPTS: u32 = 200;

/// Whether a problem keeps to a ruleset: its operator is allowed, it has the
/// right number of operands, and each operand lies in the value range.
pub open spec fn within_rules(rules: RulesetView, op: Operator, operands: Seq<int>) -> bool {
    &&& rules.operators.contains(op)
    &&& operands.len() == rules.operand_count
    &&& forall|i: int| 0 <= i < operands.len() ==> rules.low <= #[trigger] operands[i] <= rules.high
}

/// Whether a question is one that generation under `rules` may give: a
/// valid problem that keeps to the rules, with nothing typed yet.
pub open spec fn generated_from(q: QuestionView, rules: RulesetView) -> bool {
    &&& within_rules(rules, q.operator, q.operands)
    &&& chain_valid(q.operator, q.operands)
    &&& q == posed(q.operator, q.operands)
}

/// Whether every choice of operator and operands that keeps to the rules is
/// a valid problem, so that no sample can be rejected.
pub open spec fn always_generable(rules: RulesetView) -> bool {
    forall|op: Operator, operands: Seq<int>| #[trigger]
        within_rules(rules, op, operands) ==> chain_valid(op, operands)
}

/// Draws one of the operators of a set; `None` exactly when the set is
/// empty.
pub fn pick_operator(operators: OperatorSet, rng: &mut StdRng) -> (r: Option<Operator>)
    ensures
        match r {
            Some(op) => operators@.contains(op),
            None => operators@ == Set::<Operator>::empty(),
        },
{
    let choices = operators.to_vec();
    if choices.len() == 0 {
        assert(operators@ =~= Set::<Operator>::empty());
        return None;
    }
    let last: i32 = (choices.len() - 1) as i32;
    let i: i32 = sample_inclusive(rng, 0, last);
    Some(choices[i as usize])
}

/// Draws the operands of one attempt: as many as the ruleset asks for, each
/// from its value range.
pub fn sample_operands(ruleset: &Ruleset, rng: &mut StdRng) -> (operands: Vec<i32>)
    requires
        ruleset.wf(),
    ensures
        operands@.len() == ruleset@.operand_count,
        forall|i: int|
            0 <= i < operands@.len() ==> ruleset@.low <= #[trigger] operands@[i] <= ruleset@.high,
{
    let count: u8 = ruleset.operand_count();
    let low: i32 = ruleset.low();
    let high: i32 = ruleset.high();
    let mut operands: Vec<i32> = Vec::new();
    let mut k: u8 = 0;
    while k < count
        invariant
            k <= count,
            low <= high,
            operands@.len() == k,
            forall|i: int| 0 <= i < operands@.len() ==> low <= #[trigger] operands@[i] <= high,
        decreases count - k,
    {
        let value: i32 = sample_inclusive(rng, low, high);
        operands.push(value);
        k += 1;
    }
    operands
}

impl Question {
    /// Generates a question under `ruleset` by rejection sampling: one
    /// allowed operator is drawn, then up to `MAX_ATTEMPTS` operand tuples,
    /// and the first tuple that makes a valid problem becomes the question.
    ///
    /// Whatever the generator gives, a question that comes back is a valid
    /// problem within the rules with nothing typed yet. The only failure is
    /// `GenerationExhausted`, and it cannot occur where every tuple within
    /// the rules is valid.
    pub fn generate(ruleset: &Ruleset, rng: &mut StdRng) -> (r: Result<Question, EngineError>)
        requires
            ruleset.wf(),
        ensures
            match r {
                Ok(q) => q.wf() && generated_from(q@, ruleset@),
                Err(e) => e == EngineError::GenerationExhausted && !always_generable(ruleset@),
            },
    {
        let op = match pick_operator(ruleset.operators(), rng) {
            Some(op) => op,
            None => unreached(),
        };
        let ghost mut rejected: Seq<int> = Seq::empty();
        let mut attempt: u32 = 0;
        while attempt < MAX_ATTEMPTS
            invariant
                ruleset.wf(),
                ruleset@.operators.contains(op),
                attempt <= MAX_ATTEMPTS,
                attempt > 0 ==> within_rules(ruleset@, op, rejected) && !chain_valid(op, rejected),
            decreases MAX_ATTEMPTS - attempt,
        {
            let operands = sample_operands(ruleset, rng);
            let ghost sampled = as_ints(operands@);
            assert(within_rules(ruleset@, op, sampled));
            match Question::from_operands(op, operands) {
                Some(q) => {
                    return Ok(q);
                },
                None => {
                    proof {
                        rejected = sampled;
                    }
                },
            }
            attempt += 1;
        }
        Err(EngineError::GenerationExhausted)
    }
}

} // verus!
