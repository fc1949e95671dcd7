//! Questions: the fold of an operator over operands, the prompt, and the
//! check of a typed answer.

use vstd::prelude::*;
use vstd::string::*;
use crate::decimal::{answer_value, append_decimal, decimal_text, parse_answer};
use crate::operator::{fits_i64, Operator};

verus! {

/// The operands of a question as mathematical integers.
pub open spec fn as_ints(v: Seq<i32>) -> Seq<int> {
    v.map_values(|x: i32| x as int)
}

/// The value reached after folding the operator over the operands `0..=k`,
/// left to right.
pub open spec fn partial_result(op: Operator, operands: Seq<int>, k: int) -> int
    decreases k,
{
    if k <= 0 {
        operands[0]
    } else {
        op.eval(partial_result(op, operands, k - 1), operands[k])
    }
}

/// Whether the fold may take in operand `k`: the operator's constraint
/// holds between the value reached so far and that operand, and the new
/// value fits in `i64`.
pub open spec fn step_valid(op: Operator, operands: Seq<int>, k: int) -> bool {
    &&& op.admits(partial_result(op, operands, k - 1), operands[k])
    &&& fits_i64(partial_result(op, operands, k))
}

/// Whether the operands make a problem for the operator: there are at least
/// two of them and every step of the fold is valid.
pub open spec fn chain_valid(op: Operator, operands: Seq<int>) -> bool {
    &&& operands.len() >= 2
    &&& forall|k: int| 1 <= k < operands.len() ==> #[trigger] step_valid(op, operands, k)
}

/// The value of the whole fold.
pub open spec fn chain_result(op: Operator, operands: Seq<int>) -> int {
    partial_result(op, operands, operands.len() - 1)
}

/// What stands between two operands in a prompt: the operator's symbol with
/// a space on each side.
pub open spec fn separator_text(op: Operator) -> Seq<char> {
    seq![' ', op.symbol_char(), ' ']
}

/// The operands `0..=k` in decimal, joined by the operator's symbol.
pub open spec fn joined_text(op: Operator, operands: Seq<int>, k: int) -> Seq<char>
    decreases k,
{
    if k <= 0 {
        decimal_text(operands[0])
    } else {
        joined_text(op, operands, k - 1) + separator_text(op) + decimal_text(operands[k])
    }
}

/// The prompt of a problem: its operands joined by the operator's symbol,
/// then a space and an equals sign, as in `4 + 3 =`.
pub open spec fn prompt_text(op: Operator, operands: Seq<int>) -> Seq<char> {
    joined_text(op, operands, operands.len() - 1) + seq![' ', '=']
}

/// What a question holds, as mathematical values.
pub struct QuestionView {
    pub operator: Operator,
    pub operands: Seq<int>,
    pub prompt: Seq<char>,
    pub expected_answer: int,
    pub current_input: Seq<char>,
}

/// The question that an operator and operands pose, with nothing typed yet.
pub open spec fn posed(op: Operator, operands: Seq<int>) -> QuestionView {
    QuestionView {
        operator: op,
        operands,
        prompt: prompt_text(op, operands),
        expected_answer: chain_result(op, operands),
        current_input: Seq::<char>::empty(),
    }
}

/// The invariant of a question over its view: the operands make a problem
/// for the operator, and prompt and expected answer are those of that
/// problem.
pub open spec fn valid_question(v: QuestionView) -> bool {
    &&& chain_valid(v.operator, v.operands)
    &&& forall|i: int| 0 <= i < v.operands.len() ==> i32::MIN <= #[trigger] v.operands[i] <= i32::MAX
    &&& v.prompt == prompt_text(v.operator, v.operands)
    &&& v.expected_answer == chain_result(v.operator, v.operands)
}

/// Whether what is typed answers the question: it reads as an integer, and
/// that integer is the expected answer.
pub open spec fn solves(v: QuestionView) -> bool {
    answer_value(v.current_input) == Some(v.expected_answer)
}

/// An arithmetic problem with its prompt, its answer, and what the user has
/// typed so far.
#[derive(Clone, Debug)]
pub struct Question {
    operator: Operator,
    operands: Vec<i32>,
    prompt: String,
    expected_answer: i64,
    current_input: String,
}

impl View for Question {
    type V = QuestionView;

    closed spec fn view(&self) -> QuestionView {
        QuestionView {
            operator: self.operator,
            operands: as_ints(self.operands@),
            prompt: self.prompt@,
            expected_answer: self.expected_answer as int,
            current_input: self.current_input@,
        }
    }
}

/// Folds the operator over the operands, left to right. The result is
/// `None` exactly when the operands make no problem for the operator.
pub fn evaluate(op: Operator, operands: &Vec<i32>) -> (r: Option<i64>)
    ensures
        match r {
            Some(v) => chain_valid(op, as_ints(operands@)) && v == chain_result(
                op,
                as_ints(operands@),
            ),
            None => !chain_valid(op, as_ints(operands@)),
        },
{
    let n: usize = operands.len();
    if n < 2 {
        return None;
    }
    let ghost s = as_ints(operands@);
    let mut acc: i64 = operands[0] as i64;
    let mut k: usize = 1;
    while k < n
        invariant
            1 <= k <= n,
            n == operands@.len(),
            s == as_ints(operands@),
            acc == partial_result(op, s, k - 1),
            forall|j: int| 1 <= j < k ==> #[trigger] step_valid(op, s, j),
        decreases n - k,
    {
        let b: i64 = operands[k] as i64;
        if !op.satisfies_constraint(acc, b) {
            assert(!step_valid(op, s, k as int));
            return None;
        }
        match op.apply(acc, b) {
            Some(x) => {
                acc = x;
            },
            None => {
                assert(!step_valid(op, s, k as int));
                return None;
            },
        }
        k += 1;
    }
    Some(acc)
}

/// The separator of the operator as a string.
fn separator(op: Operator) -> (r: &'static str)
    ensures
        r@ == separator_text(op),
{
    proof {
        reveal_strlit(" + ");
        reveal_strlit(" - ");
        reveal_strlit(" * ");
        reveal_strlit(" / ");
    }
    match op {
        Operator::Add => " + ",
        Operator::Subtract => " - ",
        Operator::Multiply => " * ",
        Operator::Divide => " / ",
    }
}

/// Writes the prompt of the problem that `op` and `operands` pose.
fn render_prompt(op: Operator, operands: &Vec<i32>) -> (r: String)
    requires
        operands@.len() >= 1,
    ensures
        r@ == prompt_text(op, as_ints(operands@)),
{
    let ghost s = as_ints(operands@);
    let n: usize = operands.len();
    let mut r = String::new();
    append_decimal(&mut r, operands[0] as i64);
    let mut k: usize = 1;
    while k < n
        invariant
            1 <= k <= n,
            n == operands@.len(),
            s == as_ints(operands@),
            r@ == joined_text(op, s, k - 1),
        decreases n - k,
    {
        r.append(separator(op));
        append_decimal(&mut r, operands[k] as i64);
        k += 1;
    }
    proof {
        reveal_strlit(" =");
    }
    r.append(" =");
    r
}

impl Question {
    /// Whether the question keeps its invariant.
    pub open spec fn wf(&self) -> bool {
        valid_question(self@)
    }

    /// The question that `op` and `operands` pose, with nothing typed yet.
    /// There is one exactly when the operands make a problem for `op`.
    pub fn from_operands(op: Operator, operands: Vec<i32>) -> (r: Option<Question>)
        ensures
            match r {
                Some(q) => chain_valid(op, as_ints(operands@)) && q.wf() && q@ == posed(
                    op,
                    as_ints(operands@),
                ),
                None => !chain_valid(op, as_ints(operands@)),
            },
    {
        match evaluate(op, &operands) {
            Some(answer) => {
                let prompt = render_prompt(op, &operands);
                Some(
                    Question {
                        operator: op,
                        operands,
                        prompt,
                        expected_answer: answer,
                        current_input: String::new(),
                    },
                )
            },
            None => None,
        }
    }

    /// The operator of the problem.
    pub fn operator(&self) -> (op: Operator)
        ensures
            op == self@.operator,
    {
        self.operator
    }

    /// The operands of the problem, in order.
    pub fn operands(&self) -> (v: &Vec<i32>)
        ensures
            as_ints(v@) == self@.operands,
    {
        &self.operands
    }

    /// The text shown to the user.
    pub fn prompt(&self) -> (s: &str)
        ensures
            s@ == self@.prompt,
    {
        self.prompt.as_str()
    }

    /// The number that answers the problem.
    pub fn expected_answer(&self) -> (v: i64)
        ensures
            v == self@.expected_answer,
    {
        self.expected_answer
    }

    /// What the user has typed so far.
    pub fn current_input(&self) -> (s: &str)
        ensures
            s@ == self@.current_input,
    {
        self.current_input.as_str()
    }

    /// Replaces what the user has typed. Nothing else changes.
    pub fn set_input(&mut self, text: String)
        ensures
            final(self)@ == (QuestionView { current_input: text@, ..old(self)@ }),
    {
        self.current_input = text;
    }

    /// Whether what is typed answers the question. Text that is no integer
    /// is simply not an answer yet.
    pub fn solved(&self) -> (r: bool)
        ensures
            r == solves(self@),
    {
        match parse_answer(self.current_input.as_str()) {
            Some(v) => v == self.expected_answer,
            None => false,
        }
    }
}

} // verus!
