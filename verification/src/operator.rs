//! The arithmetic operators: their symbols, their values and the constraint
//! each one puts on a generated problem.

use vstd::prelude::*;

verus! {

/// The closed set of arithmetic operations a question can be built from.
#[derive(Clone, Copy, Debug, PartialEq, Eq, Hash, Structural)]
pub enum Operator {
    Add,
    Subtract,
    Multiply,
    Divide,
}

/// Whether `v` can be held in an `i64`.
pub open spec fn fits_i64(v: int) -> bool {
    i64::MIN <= v <= i64::MAX
}

/// The quotient of `a` by `b`, rounded toward zero. Meaningful for `b != 0`.
pub open spec fn truncated_quotient(a: int, b: int) -> int {
    let p = if a < 0 { -a } else { a };
    let q = if b < 0 { -b } else { b };
    if (a < 0) == (b < 0) {
        p / q
    } else {
        -(p / q)
    }
}

impl Operator {
    /// The character that stands for the operator in a prompt.
    pub open spec fn symbol_char(self) -> char {
        match self {
            Operator::Add => '+',
            Operator::Subtract => '-',
            Operator::Multiply => '*',
            Operator::Divide => '/',
        }
    }

    /// The place of the operator in the fixed order addition, subtraction,
    /// multiplication, division.
    pub open spec fn rank(self) -> int {
        match self {
            Operator::Add => 0,
            Operator::Subtract => 1,
            Operator::Multiply => 2,
            Operator::Divide => 3,
        }
    }

    /// Whether the operator has a value on `a` and `b` at all: everything
    /// but a division by zero has.
    pub open spec fn defined_on(self, a: int, b: int) -> bool {
        self == Operator::Divide ==> b != 0
    }

    /// The value of `a op b` over the mathematical integers.
    pub open spec fn eval(self, a: int, b: int) -> int {
        match self {
            Operator::Add => a + b,
            Operator::Subtract => a - b,
            Operator::Multiply => a * b,
            Operator::Divide => truncated_quotient(a, b),
        }
    }

    /// The generation constraint: a subtraction must not go below zero and a
    /// division must leave no remainder.
    pub open spec fn admits(self, a: int, b: int) -> bool {
        match self {
            Operator::Add => true,
            Operator::Subtract => a >= b,
            Operator::Multiply => true,
            Operator::Divide => b != 0 && a % b == 0,
        }
    }

    /// The display symbol of the operator.
    pub fn symbol(self) -> (c: char)
        ensures
            c == self.symbol_char(),
    {
        match self {
            Operator::Add => '+',
            Operator::Subtract => '-',
            Operator::Multiply => '*',
            Operator::Divide => '/',
        }
    }

    /// Evaluates `a op b`. The result is `None` exactly when the operation
    /// has no value (division by zero) or its value does not fit in `i64`.
    pub fn apply(self, a: i64, b: i64) -> (r: Option<i64>)
        ensures
            r == (if self.defined_on(a as int, b as int) && fits_i64(self.eval(a as int, b as int)) {
                Some(self.eval(a as int, b as int) as i64)
            } else {
                None
            }),
    {
        match self {
            Operator::Add => a.checked_add(b),
            Operator::Subtract => a.checked_sub(b),
            Operator::Multiply => a.checked_mul(b),
            Operator::Divide => a.checked_div(b),
        }
    }

    /// Decides the generation constraint on `a` and `b`.
    pub fn satisfies_constraint(self, a: i64, b: i64) -> (r: bool)
        ensures
            r == self.admits(a as int, b as int),
    {
        match self {
            Operator::Add => true,
            Operator::Subtract => a >= b,
            Operator::Multiply => true,
            Operator::Divide => {
                if b == 0 {
                    false
                } else if b == -1 {
                    // every integer is a multiple of -1, and the remainder
                    // below has no result for the least `i64` by -1
                    true
                } else {
                    match a.checked_rem_euclid(b) {
                        Some(m) => m == 0,
                        None => false,
                    }
                }
            },
        }
    }
}

/// Where a division leaves no remainder, the quotient rounded toward zero is
/// the exact quotient: multiplied by the divisor it gives the dividend back.
pub proof fn lemma_exact_quotient(a: int, b: int)
    requires
        b != 0,
        a % b == 0,
    ensures
        truncated_quotient(a, b) * b == a,
        truncated_quotient(a, b) == a / b,
{
    let p = if a < 0 { -a } else { a };
    let q = if b < 0 { -b } else { b };
    assert(a == b * (a / b)) by {
        vstd::arithmetic::div_mod::lemma_fundamental_div_mod(a, b);
    }
    let k = a / b;
    // the magnitudes divide exactly as well: p == q * m
    let m = if k < 0 { -k } else { k };
    assert(p == q * m) by (nonlinear_arith)
        requires
            a == b * k,
            p == (if a < 0 { -a } else { a }),
            q == (if b < 0 { -b } else { b }),
            m == (if k < 0 { -k } else { k }),
    ;
    assert(p / q == m) by {
        vstd::arithmetic::div_mod::lemma_div_multiples_vanish(m, q);
    }
    assert(truncated_quotient(a, b) == k) by (nonlinear_arith)
        requires
            a == b * k,
            b != 0,
            m == (if k < 0 { -k } else { k }),
            truncated_quotient(a, b) == (if (a < 0) == (b < 0) { m } else { -m }),
    ;
    assert(k * b == a) by (nonlinear_arith)
        requires
            a == b * k,
    ;
}

} // verus!
