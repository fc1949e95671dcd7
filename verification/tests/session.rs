use mathkids::error::EngineError;
use mathkids::game_state::{GameState, MESSAGE_FRAMES};
use mathkids::operator::Operator;
use mathkids::question::Question;
use mathkids::reward::{catalog, random_animal, Animal, CATALOG_SIZE};
use mathkids::ruleset::{OperatorSet, Ruleset};
use mathkids::session::{Round, Session};
use rand::rngs::StdRng;
use rand::SeedableRng;

fn assert_fresh(s: &Session) {
    assert!(s.past_rounds().is_empty());
    assert!(s.collected().is_empty());
    let round = s.current_round();
    assert_eq!(*round.ruleset(), Ruleset::default());
    let q = round.active_question();
    assert_eq!(q.operator(), Operator::Add);
    assert_eq!(q.operands(), &vec![0, 0]);
    assert_eq!(q.prompt(), "0 + 0 =");
    assert_eq!(q.expected_answer(), 0);
    assert_eq!(q.current_input(), "");
}

fn answer(s: &Session) -> String {
    s.current_round().active_question().expected_answer().to_string()
}

#[test]
fn catalog_is_fixed() {
    let all = catalog();
    assert_eq!(all.len(), CATALOG_SIZE);
    assert_eq!(all.len(), 12);
    for (i, a) in all.iter().enumerate() {
        assert_eq!(a.index(), i);
        assert_eq!(Animal::from_index(i), Some(*a));
        assert!(!a.name().is_empty());
    }
    assert_eq!(Animal::from_index(CATALOG_SIZE), None);
    assert_eq!(Animal::from_index(usize::MAX), None);
    assert_eq!(all[0], Animal::Cat);
    assert_eq!(all[11], Animal::Lion);
    assert_eq!(Animal::Cat.name(), "Cat");
    assert_eq!(Animal::Penguin.name(), "Penguin");
    let mut names: Vec<&str> = all.iter().map(|a| a.name()).collect();
    names.sort();
    names.dedup();
    assert_eq!(names.len(), CATALOG_SIZE);
}

#[test]
fn random_animal_comes_from_the_catalog_and_varies() {
    let all = catalog();
    let mut rng = StdRng::seed_from_u64(5);
    let mut seen = vec![false; CATALOG_SIZE];
    for _ in 0..500 {
        let a = random_animal(&mut rng);
        assert!(all.contains(&a));
        seen[a.index()] = true;
    }
    assert!(seen.iter().all(|s| *s));
}

#[test]
fn new_session_is_one_default_round() {
    assert_fresh(&Session::new());
    assert_fresh(&Session::default());
}

#[test]
fn default_round_asks_zero_plus_zero() {
    let round = Round::default();
    assert_eq!(round.active_question().prompt(), "0 + 0 =");
    assert_eq!(round.ruleset().operand_count(), 2);
    assert!(!round.solved());
}

#[test]
fn collecting_the_same_animal_twice_keeps_it_once() {
    let mut s = Session::new();
    assert!(s.collect(Animal::Owl));
    assert!(!s.collect(Animal::Owl));
    assert_eq!(s.collected(), &vec![Animal::Owl]);
    assert!(s.collect(Animal::Frog));
    assert!(!s.collect(Animal::Owl));
    assert!(!s.collect(Animal::Frog));
    assert_eq!(s.collected(), &vec![Animal::Owl, Animal::Frog]);
    assert!(s.has_collected(Animal::Frog));
    assert!(!s.has_collected(Animal::Cat));
}

#[test]
fn check_answer_does_nothing_while_unsolved() {
    let mut s = Session::new();
    let mut rng = StdRng::seed_from_u64(1);
    assert_eq!(s.check_answer(&mut rng), Ok(None));
    s.set_input("1".to_string());
    assert!(!s.solved());
    assert_eq!(s.check_answer(&mut rng), Ok(None));
    s.set_input("abc".to_string());
    assert_eq!(s.check_answer(&mut rng), Ok(None));
    assert_eq!(s.current_round().active_question().prompt(), "0 + 0 =");
    assert_eq!(s.current_round().active_question().current_input(), "abc");
    assert!(s.collected().is_empty());
}

#[test]
fn right_answer_gives_one_reward_and_one_new_question() {
    let mut s = Session::new();
    let mut rng = StdRng::seed_from_u64(2);
    s.set_input(" 0 ".to_string());
    assert!(s.solved());
    let reward = s.check_answer(&mut rng).unwrap().unwrap();
    assert_eq!(s.collected(), &vec![reward]);
    let q = s.current_round().active_question();
    assert_eq!(q.current_input(), "");
    assert_eq!(q.operands().len(), 2);
    assert_eq!(q.operator(), Operator::Add);
    assert!(!s.solved());
    assert_eq!(s.check_answer(&mut rng), Ok(None));
    assert_eq!(s.collected().len(), 1);
}

#[test]
fn many_cycles_never_collect_an_animal_twice() {
    let mut s = Session::new();
    let mut rng = StdRng::seed_from_u64(3);
    for _ in 0..300 {
        let text = answer(&s);
        s.set_input(text);
        let reward = s.check_answer(&mut rng).unwrap().unwrap();
        assert!(s.has_collected(reward));
        let mut sorted: Vec<usize> = s.collected().iter().map(|a| a.index()).collect();
        sorted.sort();
        sorted.dedup();
        assert_eq!(sorted.len(), s.collected().len());
    }
    assert_eq!(s.collected().len(), CATALOG_SIZE);
}

#[test]
fn reset_after_cycles_gives_a_fresh_session() {
    let mut s = Session::new();
    let mut rng = StdRng::seed_from_u64(4);
    s.reset();
    assert_fresh(&s);
    s.set_operand_count(3).unwrap();
    s.set_range(1, 9).unwrap();
    s.toggle_operator(Operator::Multiply).unwrap();
    s.regenerate(&mut rng).unwrap();
    for _ in 0..20 {
        let text = answer(&s);
        s.set_input(text);
        assert!(s.check_answer(&mut rng).unwrap().is_some());
    }
    assert!(!s.collected().is_empty());
    s.reset();
    assert_fresh(&s);
    s.reset();
    assert_fresh(&s);
}

#[test]
fn ruleset_changes_leave_the_question_until_regenerated() {
    let mut s = Session::new();
    let mut rng = StdRng::seed_from_u64(6);
    assert_eq!(s.set_operand_count(4), Ok(()));
    assert_eq!(s.set_range(2, 3), Ok(()));
    assert_eq!(s.toggle_operator(Operator::Subtract), Ok(()));
    assert_eq!(s.toggle_operator(Operator::Add), Ok(()));
    assert_eq!(s.current_round().active_question().prompt(), "0 + 0 =");
    let r = s.current_round().ruleset();
    assert_eq!((r.operand_count(), r.low(), r.high()), (4, 2, 3));
    assert_eq!(r.operators().to_vec(), vec![Operator::Subtract]);
    assert_eq!(s.regenerate(&mut rng), Err(EngineError::GenerationExhausted));
    assert_eq!(s.current_round().active_question().prompt(), "0 + 0 =");
    assert_eq!(s.set_operand_count(2), Ok(()));
    assert_eq!(s.regenerate(&mut rng), Ok(()));
    let q = s.current_round().active_question();
    assert_eq!(q.operator(), Operator::Subtract);
    assert!(q.operands().iter().all(|v| 2 <= *v && *v <= 3));
}

#[test]
fn session_refuses_invalid_ruleset_changes() {
    let mut s = Session::new();
    assert_eq!(s.set_operand_count(1), Err(EngineError::InvalidConfig));
    assert_eq!(s.set_range(1, 0), Err(EngineError::InvalidConfig));
    assert_eq!(s.toggle_operator(Operator::Add), Err(EngineError::InvalidConfig));
    assert_fresh(&s);
}

#[test]
fn exhausted_generation_gives_no_reward() {
    let mut s = Session::new();
    let mut rng = StdRng::seed_from_u64(7);
    s.toggle_operator(Operator::Divide).unwrap();
    s.toggle_operator(Operator::Add).unwrap();
    s.set_range(0, 0).unwrap();
    s.set_input("0".to_string());
    assert!(s.solved());
    assert_eq!(s.check_answer(&mut rng), Err(EngineError::GenerationExhausted));
    assert!(s.collected().is_empty());
    assert_eq!(s.current_round().active_question().prompt(), "0 + 0 =");
    assert_eq!(s.current_round().active_question().current_input(), "0");
    s.set_range(1, 1).unwrap();
    let reward = s.check_answer(&mut rng).unwrap();
    assert!(reward.is_some());
    assert_eq!(s.current_round().active_question().prompt(), "1 / 1 =");
}

#[test]
fn award_replaces_the_question_and_collects() {
    let mut s = Session::new();
    let next = Question::from_operands(Operator::Multiply, vec![3, 4]).unwrap();
    s.award(next, Animal::Bear);
    assert_eq!(s.current_round().active_question().prompt(), "3 * 4 =");
    assert_eq!(s.collected(), &vec![Animal::Bear]);
    let next = Question::from_operands(Operator::Add, vec![1, 1]).unwrap();
    s.award(next, Animal::Bear);
    assert_eq!(s.current_round().active_question().expected_answer(), 2);
    assert_eq!(s.collected(), &vec![Animal::Bear]);
    assert_eq!(*s.current_round().ruleset(), Ruleset::default());
}

#[test]
fn restore_keeps_rounds_and_drops_repeated_animals() {
    let rules = Ruleset::new(3, 1, 4, OperatorSet::single(Operator::Multiply)).unwrap();
    let first = Round::new(rules, Question::from_operands(Operator::Multiply, vec![2, 2, 2]).unwrap());
    let mut asked = Question::from_operands(Operator::Add, vec![1, 2]).unwrap();
    asked.set_input("3".to_string());
    let last = Round::new(Ruleset::default(), asked);
    let s = Session::restore(
        vec![first, last],
        vec![Animal::Fox, Animal::Cat, Animal::Fox, Animal::Dog, Animal::Cat],
    );
    assert_eq!(s.past_rounds().len(), 1);
    assert_eq!(s.past_rounds()[0].active_question().prompt(), "2 * 2 * 2 =");
    assert_eq!(s.current_round().active_question().prompt(), "1 + 2 =");
    assert!(s.solved());
    assert_eq!(s.collected(), &vec![Animal::Fox, Animal::Cat, Animal::Dog]);
    let empty = Session::restore(vec![], vec![]);
    assert_fresh(&empty);
}

#[test]
fn new_game_state() {
    let g = GameState::default();
    assert!(!g.settings_active());
    assert_eq!(g.message(), "");
    assert!(g.message_visible());
    assert_fresh(g.session());
    assert_eq!(MESSAGE_FRAMES, 200);
}

#[test]
fn game_settings_toggle() {
    let mut g = GameState::new();
    g.toggle_settings();
    assert!(g.settings_active());
    g.toggle_settings();
    assert!(!g.settings_active());
}

#[test]
fn game_message_shows_for_two_hundred_frames() {
    let mut g = GameState::new();
    let mut rng = StdRng::seed_from_u64(8);
    for _ in 0..199 {
        g.end_frame();
        assert!(g.message_visible());
    }
    g.end_frame();
    assert!(!g.message_visible());
    for _ in 0..1000 {
        g.end_frame();
    }
    assert!(!g.message_visible());
    assert_eq!(g.check_answer(&mut rng), Ok(None));
    assert!(!g.message_visible());
    g.set_answer("0".to_string());
    let reward = g.check_answer(&mut rng).unwrap().unwrap();
    assert_eq!(g.message(), "RICHTIG!");
    assert!(g.message_visible());
    assert_eq!(g.session().collected(), &vec![reward]);
    for _ in 0..200 {
        assert!(g.message_visible());
        g.end_frame();
    }
    assert!(!g.message_visible());
    assert_eq!(g.message(), "RICHTIG!");
}

#[test]
fn game_ruleset_changes_generate_a_question() {
    let mut g = GameState::new();
    let mut rng = StdRng::seed_from_u64(9);
    assert_eq!(g.set_operand_count(5, &mut rng), Ok(()));
    assert_eq!(g.session().current_round().active_question().operands().len(), 5);
    assert_eq!(g.set_highest(1, &mut rng), Ok(()));
    let q = g.session().current_round().active_question();
    assert!(q.operands().iter().all(|v| 0 <= *v && *v <= 1));
    assert_eq!(g.toggle_operator(Operator::Multiply, &mut rng), Ok(()));
    assert_eq!(g.toggle_operator(Operator::Add, &mut rng), Ok(()));
    assert_eq!(g.session().current_round().active_question().operator(), Operator::Multiply);
    assert_eq!(g.set_operand_count(1, &mut rng), Err(EngineError::InvalidConfig));
    assert_eq!(g.set_highest(-1, &mut rng), Err(EngineError::InvalidConfig));
    assert_eq!(g.toggle_operator(Operator::Multiply, &mut rng), Err(EngineError::InvalidConfig));
    let r = g.session().current_round().ruleset();
    assert_eq!((r.operand_count(), r.low(), r.high()), (5, 0, 1));
    assert_eq!(r.operators().to_vec(), vec![Operator::Multiply]);
}

#[test]
fn game_keeps_the_old_question_when_generation_is_exhausted() {
    let mut g = GameState::new();
    let mut rng = StdRng::seed_from_u64(10);
    g.toggle_operator(Operator::Divide, &mut rng).unwrap();
    g.toggle_operator(Operator::Add, &mut rng).unwrap();
    let before = g.session().current_round().active_question().prompt().to_string();
    assert_eq!(g.set_highest(0, &mut rng), Err(EngineError::GenerationExhausted));
    let round = g.session().current_round();
    assert_eq!((round.ruleset().low(), round.ruleset().high()), (0, 0));
    assert_eq!(round.active_question().prompt(), before);
}

#[test]
fn game_reset_keeps_panel_and_message() {
    let mut g = GameState::new();
    let mut rng = StdRng::seed_from_u64(12);
    g.toggle_settings();
    g.set_answer("0".to_string());
    g.check_answer(&mut rng).unwrap();
    g.reset();
    assert_fresh(g.session());
    assert!(g.settings_active());
    assert_eq!(g.message(), "RICHTIG!");
}

#[test]
fn game_around_a_restored_session() {
    let asked = Question::from_operands(Operator::Subtract, vec![5, 2]).unwrap();
    let session = Session::restore(vec![Round::new(Ruleset::default(), asked)], vec![Animal::Lion]);
    let g = GameState::with_session(session);
    assert!(!g.settings_active());
    assert_eq!(g.message(), "");
    assert!(g.message_visible());
    assert_eq!(g.session().current_round().active_question().prompt(), "5 - 2 =");
    assert_eq!(g.session().collected(), &vec![Animal::Lion]);
}
