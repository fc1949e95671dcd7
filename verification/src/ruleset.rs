//! Rulesets: the configuration of question generation, validated on every
//! change.

use vstd::prelude::*;
use crate::error::EngineError;
use crate::operator::Operator;

verus! {

/// A set of operators, held as one flag per operator.
#[derive(Clone, Copy, Debug, PartialEq, Eq, Hash, Structural)]
pub struct OperatorSet {
    add: bool,
    subtract: bool,
    multiply: bool,
    divide: bool,
}

impl View for OperatorSet {
    type V = Set<Operator>;

    closed spec fn view(&self) -> Set<Operator> {
        let s0 = Set::<Operator>::empty();
        let s1 = if self.add { s0.insert(Operator::Add) } else { s0 };
        let s2 = if self.subtract { s1.insert(Operator::Subtract) } else { s1 };
        let s3 = if self.multiply { s2.insert(Operator::Multiply) } else { s2 };
        if self.divide { s3.insert(Operator::Divide) } else { s3 }
    }
}

impl OperatorSet {
    /// The set without any operator.
    pub fn empty() -> (r: OperatorSet)
        ensures
            r@ == Set::<Operator>::empty(),
    {
        OperatorSet { add: false, subtract: false, multiply: false, divide: false }
    }

    /// The set of all four operators.
    pub fn all() -> (r: OperatorSet)
        ensures
            r@ == Set::<Operator>::empty().insert(Operator::Add).insert(Operator::Subtract).insert(
                Operator::Multiply,
            ).insert(Operator::Divide),
    {
        OperatorSet { add: true, subtract: true, multiply: true, divide: true }
    }

    /// The set that holds `op` and nothing else.
    pub fn single(op: Operator) -> (r: OperatorSet)
        ensures
            r@ == Set::<Operator>::empty().insert(op),
    {
        OperatorSet::empty().with(op)
    }

    /// Whether `op` is in the set.
    pub fn contains(&self, op: Operator) -> (r: bool)
        ensures
            r == self@.contains(op),
    {
        match op {
            Operator::Add => self.add,
            Operator::Subtract => self.subtract,
            Operator::Multiply => self.multiply,
            Operator::Divide => self.divide,
        }
    }

    /// The number of operators in the set.
    pub fn len(&self) -> (n: usize)
        ensures
            self@.finite(),
            n == self@.len(),
            n <= 4,
    {
        let mut n: usize = 0;
        if self.add {
            n += 1;
        }
        if self.subtract {
            n += 1;
        }
        if self.multiply {
            n += 1;
        }
        if self.divide {
            n += 1;
        }
        n
    }

    /// The set with `op` added.
    pub fn with(self, op: Operator) -> (r: OperatorSet)
        ensures
            r@ == self@.insert(op),
    {
        let r = match op {
            Operator::Add => OperatorSet { add: true, ..self },
            Operator::Subtract => OperatorSet { subtract: true, ..self },
            Operator::Multiply => OperatorSet { multiply: true, ..self },
            Operator::Divide => OperatorSet { divide: true, ..self },
        };
        r
    }

    /// The set with `op` taken out.
    pub fn without(self, op: Operator) -> (r: OperatorSet)
        ensures
            r@ == self@.remove(op),
    {
        let r = match op {
            Operator::Add => OperatorSet { add: false, ..self },
            Operator::Subtract => OperatorSet { subtract: false, ..self },
            Operator::Multiply => OperatorSet { multiply: false, ..self },
            Operator::Divide => OperatorSet { divide: false, ..self },
        };
        r
    }

    /// The operators of the set, each once, in the order addition,
    /// subtraction, multiplication, division.
    pub fn to_vec(&self) -> (v: Vec<Operator>)
        ensures
            v@.len() == self@.len(),
            v@.len() <= 4,
            forall|op: Operator| v@.contains(op) <==> self@.contains(op),
            forall|i: int, j: int| 0 <= i < j < v@.len() ==> v@[i].rank() < v@[j].rank(),
    {
        broadcast use {
            vstd::seq_lib::lemma_seq_contains_after_push,
            vstd::seq_lib::lemma_seq_empty_contains_nothing,
        };

        let mut v: Vec<Operator> = Vec::new();
        if self.add {
            v.push(Operator::Add);
        }
        if self.subtract {
            v.push(Operator::Subtract);
        }
        assert(forall|op: Operator|
            v@.contains(op) <==> (op == Operator::Add && self.add) || (op == Operator::Subtract
                && self.subtract));
        if self.multiply {
            v.push(Operator::Multiply);
        }
        assert(forall|op: Operator|
            v@.contains(op) <==> (op == Operator::Add && self.add) || (op == Operator::Subtract
                && self.subtract) || (op == Operator::Multiply && self.multiply));
        if self.divide {
            v.push(Operator::Divide);
        }
        v
    }
}

/// What a ruleset holds, as mathematical values.
pub struct RulesetView {
    pub operand_count: nat,
    pub low: int,
    pub high: int,
    pub operators: Set<Operator>,
}

/// The configuration of question generation: how many operands a question
/// has, the inclusive range they are drawn from, and the operators allowed.
#[derive(Clone, Copy, Debug, PartialEq, Eq, Hash, Structural)]
pub struct Ruleset {
    operand_count: u8,
    low: i32,
    high: i32,
    operators: OperatorSet,
}

impl View for Ruleset {
    type V = RulesetView;

    closed spec fn view(&self) -> RulesetView {
        RulesetView {
            operand_count: self.operand_count as nat,
            low: self.low as int,
            high: self.high as int,
            operators: self.operators@,
        }
    }
}

/// The invariant of a ruleset over its view: at least two operands, a range
/// that is not empty, at least one operator, all within machine limits.
pub open spec fn valid_ruleset(v: RulesetView) -> bool {
    &&& 2 <= v.operand_count <= u8::MAX
    &&& i32::MIN <= v.low <= v.high <= i32::MAX
    &&& v.operators.finite()
    &&& v.operators.len() >= 1
}

impl Ruleset {
    /// Whether the ruleset keeps its invariant.
    pub open spec fn wf(&self) -> bool {
        valid_ruleset(self@)
    }

    /// A ruleset of the given parts, or `InvalidConfig` where they break the
    /// invariant: fewer than two operands, `low > high`, or no operator.
    pub fn new(operand_count: u8, low: i32, high: i32, operators: OperatorSet) -> (r: Result<
        Ruleset,
        EngineError,
    >)
        ensures
            operators@.finite(),
            (operand_count >= 2 && low <= high && operators@.len() >= 1) ==> (r matches Ok(rs)
                && rs.wf() && rs@ == (RulesetView {
                operand_count: operand_count as nat,
                low: low as int,
                high: high as int,
                operators: operators@,
            })),
            !(operand_count >= 2 && low <= high && operators@.len() >= 1) ==> r == Err::<
                Ruleset,
                EngineError,
            >(EngineError::InvalidConfig),
    {
        if operand_count < 2 || low > high || operators.len() == 0 {
            Err(EngineError::InvalidConfig)
        } else {
            Ok(Ruleset { operand_count, low, high, operators })
        }
    }

    /// The number of operands of a question.
    pub fn operand_count(&self) -> (n: u8)
        ensures
            n == self@.operand_count,
    {
        self.operand_count
    }

    /// The lower end of the value range.
    pub fn low(&self) -> (v: i32)
        ensures
            v == self@.low,
    {
        self.low
    }

    /// The upper end of the value range, which belongs to the range.
    pub fn high(&self) -> (v: i32)
        ensures
            v == self@.high,
    {
        self.high
    }

    /// The allowed operators.
    pub fn operators(&self) -> (s: OperatorSet)
        ensures
            s@ == self@.operators,
    {
        self.operators
    }

    /// Whether `op` is allowed.
    pub fn allows(&self, op: Operator) -> (r: bool)
        ensures
            r == self@.operators.contains(op),
    {
        self.operators.contains(op)
    }

    /// Sets the number of operands. Fewer than two are refused with
    /// `InvalidConfig`, and the ruleset stays as it was.
    pub fn set_operand_count(&mut self, n: u8) -> (r: Result<(), EngineError>)
        requires
            old(self).wf(),
        ensures
            final(self).wf(),
            n >= 2 ==> r is Ok && final(self)@ == (RulesetView {
                operand_count: n as nat,
                ..old(self)@
            }),
            n < 2 ==> r == Err::<(), EngineError>(EngineError::InvalidConfig) && *final(self)
                == *old(self),
    {
        if n < 2 {
            Err(EngineError::InvalidConfig)
        } else {
            self.operand_count = n;
            Ok(())
        }
    }

    /// Sets the value range to `[low, high]`. An inverted range is refused
    /// with `InvalidConfig`, and the ruleset stays as it was.
    pub fn set_range(&mut self, low: i32, high: i32) -> (r: Result<(), EngineError>)
        requires
            old(self).wf(),
        ensures
            final(self).wf(),
            low <= high ==> r is Ok && final(self)@ == (RulesetView {
                low: low as int,
                high: high as int,
                ..old(self)@
            }),
            low > high ==> r == Err::<(), EngineError>(EngineError::InvalidConfig) && *final(self)
                == *old(self),
    {
        if low > high {
            Err(EngineError::InvalidConfig)
        } else {
            self.low = low;
            self.high = high;
            Ok(())
        }
    }

    /// Allows `op` where it was not allowed, and disallows it where it was.
    /// Taking out the last operator is refused with `InvalidConfig`, and the
    /// ruleset stays as it was.
    pub fn toggle_operator(&mut self, op: Operator) -> (r: Result<(), EngineError>)
        requires
            old(self).wf(),
        ensures
            final(self).wf(),
            !old(self)@.operators.contains(op) ==> r is Ok && final(self)@ == (RulesetView {
                operators: old(self)@.operators.insert(op),
                ..old(self)@
            }),
            old(self)@.operators.contains(op) && old(self)@.operators.len() >= 2 ==> r is Ok
                && final(self)@ == (RulesetView {
                operators: old(self)@.operators.remove(op),
                ..old(self)@
            }),
            old(self)@.operators.contains(op) && old(self)@.operators.len() == 1 ==> r == Err::<
                (),
                EngineError,
            >(EngineError::InvalidConfig) && *final(self) == *old(self),
    {
        if !self.operators.contains(op) {
            self.operators = self.operators.with(op);
            Ok(())
        } else if self.operators.len() >= 2 {
            self.operators = self.operators.without(op);
            Ok(())
        } else {
            Err(EngineError::InvalidConfig)
        }
    }
}

impl Default for Ruleset {
    /// Two operands from `[0, 5]`, addition only.
    fn default() -> (r: Ruleset)
        ensures
            r.wf(),
            r@ == (RulesetView {
                operand_count: 2,
                low: 0,
                high: 5,
                operators: Set::<Operator>::empty().insert(Operator::Add),
            }),
    {
        Ruleset { operand_count: 2, low: 0, high: 5, operators: OperatorSet::single(Operator::Add) }
    }
}

} // verus!
