use mathkids::error::EngineError;
use mathkids::operator::Operator;
use mathkids::ruleset::{OperatorSet, Ruleset};

#[test]
fn operator_symbols() {
    assert_eq!(Operator::Add.symbol(), '+');
    assert_eq!(Operator::Subtract.symbol(), '-');
    assert_eq!(Operator::Multiply.symbol(), '*');
    assert_eq!(Operator::Divide.symbol(), '/');
}

#[test]
fn operator_apply_gives_the_arithmetic_result() {
    assert_eq!(Operator::Add.apply(4, 3), Some(7));
    assert_eq!(Operator::Subtract.apply(4, 3), Some(1));
    assert_eq!(Operator::Subtract.apply(3, 4), Some(-1));
    assert_eq!(Operator::Multiply.apply(4, 3), Some(12));
    assert_eq!(Operator::Multiply.apply(-4, 3), Some(-12));
    assert_eq!(Operator::Divide.apply(6, 3), Some(2));
    assert_eq!(Operator::Divide.apply(7, 2), Some(3));
    assert_eq!(Operator::Divide.apply(-7, 2), Some(-3));
    assert_eq!(Operator::Divide.apply(7, -2), Some(-3));
    assert_eq!(Operator::Divide.apply(-7, -2), Some(3));
    assert_eq!(Operator::Divide.apply(0, 5), Some(0));
}

#[test]
fn operator_apply_has_no_result_where_there_is_none() {
    assert_eq!(Operator::Divide.apply(1, 0), None);
    assert_eq!(Operator::Divide.apply(0, 0), None);
    assert_eq!(Operator::Divide.apply(i64::MIN, -1), None);
    assert_eq!(Operator::Add.apply(i64::MAX, 1), None);
    assert_eq!(Operator::Add.apply(i64::MAX, 0), Some(i64::MAX));
    assert_eq!(Operator::Subtract.apply(i64::MIN, 1), None);
    assert_eq!(Operator::Multiply.apply(i64::MAX, 2), None);
    assert_eq!(Operator::Multiply.apply(i64::MIN, -1), None);
}

#[test]
fn operator_constraints() {
    assert!(Operator::Add.satisfies_constraint(-5, 9));
    assert!(Operator::Multiply.satisfies_constraint(0, 0));
    assert!(Operator::Subtract.satisfies_constraint(5, 5));
    assert!(Operator::Subtract.satisfies_constraint(5, -9));
    assert!(!Operator::Subtract.satisfies_constraint(4, 5));
    assert!(Operator::Divide.satisfies_constraint(6, 3));
    assert!(Operator::Divide.satisfies_constraint(0, 3));
    assert!(Operator::Divide.satisfies_constraint(-6, 3));
    assert!(Operator::Divide.satisfies_constraint(6, -3));
    assert!(Operator::Divide.satisfies_constraint(i64::MIN, -1));
    assert!(Operator::Divide.satisfies_constraint(i64::MIN, 2));
    assert!(!Operator::Divide.satisfies_constraint(7, 2));
    assert!(!Operator::Divide.satisfies_constraint(-7, 2));
    assert!(!Operator::Divide.satisfies_constraint(6, 0));
    assert!(!Operator::Divide.satisfies_constraint(0, 0));
}

#[test]
fn operator_set_holds_each_operator_once() {
    let mut set = OperatorSet::empty();
    assert_eq!(set.len(), 0);
    assert!(set.to_vec().is_empty());
    set = set.with(Operator::Divide).with(Operator::Add).with(Operator::Divide);
    assert_eq!(set.len(), 2);
    assert!(set.contains(Operator::Add));
    assert!(set.contains(Operator::Divide));
    assert!(!set.contains(Operator::Multiply));
    assert_eq!(set.to_vec(), vec![Operator::Add, Operator::Divide]);
    set = set.without(Operator::Add).without(Operator::Subtract);
    assert_eq!(set.to_vec(), vec![Operator::Divide]);
    assert_eq!(set, OperatorSet::single(Operator::Divide));
    assert_eq!(
        OperatorSet::all().to_vec(),
        vec![Operator::Add, Operator::Subtract, Operator::Multiply, Operator::Divide]
    );
}

#[test]
fn default_ruleset() {
    let r = Ruleset::default();
    assert_eq!(r.operand_count(), 2);
    assert_eq!(r.low(), 0);
    assert_eq!(r.high(), 5);
    assert_eq!(r.operators().to_vec(), vec![Operator::Add]);
}

#[test]
fn new_ruleset_is_validated() {
    let add = OperatorSet::single(Operator::Add);
    assert!(Ruleset::new(2, 0, 0, add).is_ok());
    assert!(Ruleset::new(255, -9, 9, OperatorSet::all()).is_ok());
    assert_eq!(Ruleset::new(1, 0, 5, add), Err(EngineError::InvalidConfig));
    assert_eq!(Ruleset::new(0, 0, 5, add), Err(EngineError::InvalidConfig));
    assert_eq!(Ruleset::new(2, 6, 5, add), Err(EngineError::InvalidConfig));
    assert_eq!(Ruleset::new(2, 0, 5, OperatorSet::empty()), Err(EngineError::InvalidConfig));
}

#[test]
fn set_operand_count_refuses_less_than_two() {
    let mut r = Ruleset::default();
    let before = r;
    assert_eq!(r.set_operand_count(1), Err(EngineError::InvalidConfig));
    assert_eq!(r, before);
    assert_eq!(r.set_operand_count(0), Err(EngineError::InvalidConfig));
    assert_eq!(r, before);
    assert_eq!(r.set_operand_count(2), Ok(()));
    assert_eq!(r.set_operand_count(9), Ok(()));
    assert_eq!(r.operand_count(), 9);
    assert_eq!((r.low(), r.high()), (0, 5));
}

#[test]
fn set_range_refuses_an_inverted_range() {
    let mut r = Ruleset::default();
    let before = r;
    assert_eq!(r.set_range(3, 2), Err(EngineError::InvalidConfig));
    assert_eq!(r, before);
    assert_eq!(r.set_range(4, 4), Ok(()));
    assert_eq!((r.low(), r.high()), (4, 4));
    assert_eq!(r.set_range(-10, 10), Ok(()));
    assert_eq!((r.low(), r.high()), (-10, 10));
    assert_eq!(r.operand_count(), 2);
}

#[test]
fn toggle_operator_inserts_and_removes() {
    let mut r = Ruleset::default();
    assert_eq!(r.toggle_operator(Operator::Divide), Ok(()));
    assert_eq!(r.operators().to_vec(), vec![Operator::Add, Operator::Divide]);
    assert!(r.allows(Operator::Divide));
    assert_eq!(r.toggle_operator(Operator::Add), Ok(()));
    assert_eq!(r.operators().to_vec(), vec![Operator::Divide]);
    assert!(!r.allows(Operator::Add));
}

#[test]
fn toggle_of_the_only_operator_is_refused() {
    for op in [Operator::Add, Operator::Subtract, Operator::Multiply, Operator::Divide] {
        let mut r = Ruleset::new(3, 1, 9, OperatorSet::single(op)).unwrap();
        let before = r;
        assert_eq!(r.toggle_operator(op), Err(EngineError::InvalidConfig));
        assert_eq!(r, before);
        assert_eq!(r.operators().to_vec(), vec![op]);
    }
}

#[test]
fn last_multiply_cannot_be_removed() {
    let mut r = Ruleset::new(2, 0, 5, OperatorSet::single(Operator::Multiply)).unwrap();
    assert_eq!(r.toggle_operator(Operator::Multiply), Err(EngineError::InvalidConfig));
    assert_eq!(r.operators().to_vec(), vec![Operator::Multiply]);
    assert_eq!(r.operators().len(), 1);
}
