//! What holds of every generated question and of every collection, proved
//! over the models that the contracts of the engine speak of.

use vstd::prelude::*;
use crate::decimal::{decimal_text, lemma_decimal_text_round_trip};
use crate::generator::{always_generable, generated_from, within_rules};
use crate::operator::{lemma_exact_quotient, Operator};
use crate::question::{
    chain_result,
    chain_valid,
    partial_result,
    prompt_text,
    solves,
    step_valid,
    QuestionView,
};
use crate::reward::Animal;
use crate::ruleset::{valid_ruleset, RulesetView};
use crate::session::{collect_model, lemma_collect_keeps_distinct};

verus! {

/// The arithmetic sum of the operands.
pub open spec fn sum_of(operands: Seq<int>) -> int
    decreases operands.len(),
{
    if operands.len() == 0 {
        0
    } else {
        sum_of(operands.drop_last()) + operands.last()
    }
}

/// Folding addition over the operands `0..=k` gives their sum, and the sum
/// of `k + 1` operands of 32 bits stays within `k + 1` times their bound.
pub proof fn lemma_addition_fold(operands: Seq<int>, k: int)
    requires
        0 <= k < operands.len(),
        forall|i: int| 0 <= i < operands.len() ==> i32::MIN <= #[trigger] operands[i] <= i32::MAX,
    ensures
        partial_result(Operator::Add, operands, k) == sum_of(operands.take(k + 1)),
        (k + 1) * i32::MIN <= partial_result(Operator::Add, operands, k) <= (k + 1) * i32::MAX,
    decreases k,
{
    let prefix = operands.take(k + 1);
    if k == 0 {
        assert(sum_of(prefix.drop_last()) == 0);
    } else {
        lemma_addition_fold(operands, k - 1);
        assert(prefix.drop_last() =~= operands.take(k));
    }
}

/// Under a ruleset that allows addition only, every sample is a valid
/// problem: generation cannot be exhausted.
pub proof fn lemma_addition_always_generable(rules: RulesetView)
    requires
        valid_ruleset(rules),
        rules.operators == Set::<Operator>::empty().insert(Operator::Add),
    ensures
        always_generable(rules),
{
    assert forall|op: Operator, operands: Seq<int>| #[trigger]
        within_rules(rules, op, operands) implies chain_valid(op, operands) by {
        assert forall|k: int| 1 <= k < operands.len() implies #[trigger] step_valid(
            op,
            operands,
            k,
        ) by {
            lemma_addition_fold(operands, k);
            assert((k + 1) * i32::MAX <= 256 * i32::MAX) by (nonlinear_arith)
                requires
                    k + 1 <= 256,
            ;
            assert((k + 1) * i32::MIN >= 256 * i32::MIN) by (nonlinear_arith)
                requires
                    0 <= k + 1 <= 256,
            ;
        }
    }
}

/// Addition questions. Under a ruleset that allows addition only,
/// generation always gives a question; the expected answer of a generated
/// question is the sum of the operands that its prompt shows; and once the
/// decimal text of that sum is typed in, the question is solved.
pub proof fn law_addition_questions(rules: RulesetView, q: QuestionView)
    requires
        valid_ruleset(rules),
        rules.operators == Set::<Operator>::empty().insert(Operator::Add),
        generated_from(q, rules),
    ensures
        always_generable(rules),
        q.prompt == prompt_text(Operator::Add, q.operands),
        q.expected_answer == sum_of(q.operands),
        solves(QuestionView { current_input: decimal_text(sum_of(q.operands)), ..q }),
{
    lemma_addition_always_generable(rules);
    let last = q.operands.len() - 1;
    lemma_addition_fold(q.operands, last);
    assert(q.operands.take(last + 1) =~= q.operands);
    lemma_decimal_text_round_trip(q.expected_answer);
}

/// Subtraction never goes below zero: in a valid subtraction problem every
/// partial result, and so the answer, is at least zero.
pub proof fn law_subtraction_never_negative(operands: Seq<int>)
    requires
        chain_valid(Operator::Subtract, operands),
    ensures
        forall|k: int|
            1 <= k < operands.len() ==> #[trigger] partial_result(Operator::Subtract, operands, k)
                >= 0,
        chain_result(Operator::Subtract, operands) >= 0,
{
    assert forall|k: int| 1 <= k < operands.len() implies #[trigger] partial_result(
        Operator::Subtract,
        operands,
        k,
    ) >= 0 by {
        assert(step_valid(Operator::Subtract, operands, k));
    }
}

/// Whether step `k` of a division leaves no remainder: the divisor is not
/// zero, and the partial result times the divisor gives back the value that
/// was divided.
pub open spec fn division_step_exact(operands: Seq<int>, k: int) -> bool {
    &&& operands[k] != 0
    &&& partial_result(Operator::Divide, operands, k) * operands[k] == partial_result(
        Operator::Divide,
        operands,
        k - 1,
    )
}

/// Division leaves no remainder: in a valid division problem every step of
/// the fold is exact, so the answer is a whole number at every stage.
pub proof fn law_division_is_exact(operands: Seq<int>)
    requires
        chain_valid(Operator::Divide, operands),
    ensures
        forall|k: int| 1 <= k < operands.len() ==> #[trigger] division_step_exact(operands, k),
{
    assert forall|k: int| 1 <= k < operands.len() implies #[trigger] division_step_exact(
        operands,
        k,
    ) by {
        assert(step_valid(Operator::Divide, operands, k));
        lemma_exact_quotient(partial_result(Operator::Divide, operands, k - 1), operands[k]);
    }
}

/// Collecting is idempotent: after the same animal is handed in twice in
/// succession the collection is what it was after the first time, it holds
/// the animal, and it holds nothing twice.
pub proof fn law_collecting_twice(collected: Seq<Animal>, a: Animal)
    requires
        collected.no_duplicates(),
    ensures
        collect_model(collect_model(collected, a), a) == collect_model(collected, a),
        collect_model(collect_model(collected, a), a).contains(a),
        collect_model(collect_model(collected, a), a).no_duplicates(),
{
    lemma_collect_keeps_distinct(collected, a);
}

} // verus!
