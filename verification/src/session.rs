//! Rounds and the session: the active question, the collected animals, and
//! the cycle from a right answer to the next question.

use vstd::prelude::*;
use rand::rngs::StdRng;
use crate::error::EngineError;
use crate::generator::{always_generable, generated_from};
use crate::operator::Operator;
use crate::question::{
    as_ints,
    partial_result,
    posed,
    solves,
    step_valid,
    valid_question,
    Question,
    QuestionView,
};
use crate::reward::{catalog_model, random_animal, Animal};
use crate::ruleset::{valid_ruleset, Ruleset, RulesetView};

verus! {

/// What a round holds, as mathematical values.
pub struct RoundView {
    pub ruleset: RulesetView,
    pub active_question: QuestionView,
}

/// The invariant of a round over its view: a valid ruleset and a valid
/// question. That the question was generated under the ruleset is no part
/// of it: after a change of the ruleset the caller generates anew.
pub open spec fn valid_round(v: RoundView) -> bool {
    &&& valid_ruleset(v.ruleset)
    &&& valid_question(v.active_question)
}

/// The ruleset of a fresh round: two operands from `[0, 5]`, addition only.
pub open spec fn default_ruleset() -> RulesetView {
    RulesetView {
        operand_count: 2,
        low: 0,
        high: 5,
        operators: Set::<Operator>::empty().insert(Operator::Add),
    }
}

/// The fresh round: the default ruleset with the question `0 + 0 =`.
pub open spec fn default_round() -> RoundView {
    RoundView {
        ruleset: default_ruleset(),
        active_question: posed(Operator::Add, seq![0int, 0int]),
    }
}

/// A ruleset together with the one question that is being asked under it.
#[derive(Clone, Debug)]
pub struct Round {
    ruleset: Ruleset,
    active_question: Question,
}

impl View for Round {
    type V = RoundView;

    closed spec fn view(&self) -> RoundView {
        RoundView { ruleset: self.ruleset@, active_question: self.active_question@ }
    }
}

impl Round {
    /// Whether the round keeps its invariant.
    pub open spec fn wf(&self) -> bool {
        valid_round(self@)
    }

    /// The round of `ruleset` that asks `question`.
    pub fn new(ruleset: Ruleset, question: Question) -> (r: Round)
        requires
            ruleset.wf(),
            question.wf(),
        ensures
            r.wf(),
            r@ == (RoundView { ruleset: ruleset@, active_question: question@ }),
    {
        Round { ruleset, active_question: question }
    }

    /// The ruleset of the round.
    pub fn ruleset(&self) -> (r: &Ruleset)
        ensures
            r@ == self@.ruleset,
    {
        &self.ruleset
    }

    /// The question that is being asked.
    pub fn active_question(&self) -> (q: &Question)
        ensures
            q@ == self@.active_question,
    {
        &self.active_question
    }

    /// Sets the number of operands of the ruleset, as
    /// `Ruleset::set_operand_count` does. The question stays as it is.
    pub fn set_operand_count(&mut self, n: u8) -> (r: Result<(), EngineError>)
        requires
            old(self).wf(),
        ensures
            final(self).wf(),
            n >= 2 ==> r is Ok && final(self)@ == (RoundView {
                ruleset: RulesetView { operand_count: n as nat, ..old(self)@.ruleset },
                ..old(self)@
            }),
            n < 2 ==> r == Err::<(), EngineError>(EngineError::InvalidConfig) && *final(self)
                == *old(self),
    {
        self.ruleset.set_operand_count(n)
    }

    /// Sets the value range of the ruleset, as `Ruleset::set_range` does.
    /// The question stays as it is.
    pub fn set_range(&mut self, low: i32, high: i32) -> (r: Result<(), EngineError>)
        requires
            old(self).wf(),
        ensures
            final(self).wf(),
            low <= high ==> r is Ok && final(self)@ == (RoundView {
                ruleset: RulesetView { low: low as int, high: high as int, ..old(self)@.ruleset },
                ..old(self)@
            }),
            low > high ==> r == Err::<(), EngineError>(EngineError::InvalidConfig) && *final(self)
                == *old(self),
    {
        self.ruleset.set_range(low, high)
    }

    /// Allows or disallows `op` in the ruleset, as
    /// `Ruleset::toggle_operator` does. The question stays as it is.
    pub fn toggle_operator(&mut self, op: Operator) -> (r: Result<(), EngineError>)
        requires
            old(self).wf(),
        ensures
            final(self).wf(),
            !old(self)@.ruleset.operators.contains(op) ==> r is Ok && final(self)@ == (RoundView {
                ruleset: RulesetView {
                    operators: old(self)@.ruleset.operators.insert(op),
                    ..old(self)@.ruleset
                },
                ..old(self)@
            }),
            old(self)@.ruleset.operators.contains(op) && old(self)@.ruleset.operators.len() >= 2
                ==> r is Ok && final(self)@ == (RoundView {
                ruleset: RulesetView {
                    operators: old(self)@.ruleset.operators.remove(op),
                    ..old(self)@.ruleset
                },
                ..old(self)@
            }),
            old(self)@.ruleset.operators.contains(op) && old(self)@.ruleset.operators.len() == 1
                ==> r == Err::<(), EngineError>(EngineError::InvalidConfig) && *final(self)
                == *old(self),
    {
        self.ruleset.toggle_operator(op)
    }

    /// Replaces what the user has typed into the question.
    pub fn set_input(&mut self, text: String)
        ensures
            final(self)@ == (RoundView {
                active_question: QuestionView {
                    current_input: text@,
                    ..old(self)@.active_question
                },
                ..old(self)@
            }),
    {
        self.active_question.set_input(text);
    }

    /// Whether what is typed answers the question.
    pub fn solved(&self) -> (r: bool)
        ensures
            r == solves(self@.active_question),
    {
        self.active_question.solved()
    }

    /// Asks `question` from now on. The ruleset stays as it is.
    pub fn replace_question(&mut self, question: Question)
        requires
            old(self).wf(),
            question.wf(),
        ensures
            final(self).wf(),
            final(self)@ == (RoundView { active_question: question@, ..old(self)@ }),
    {
        self.active_question = question;
    }

    /// Generates a new question under the ruleset of the round. Where
    /// generation is exhausted the round stays as it was.
    pub fn regenerate(&mut self, rng: &mut StdRng) -> (r: Result<(), EngineError>)
        requires
            old(self).wf(),
        ensures
            final(self).wf(),
            final(self)@.ruleset == old(self)@.ruleset,
            match r {
                Ok(_) => generated_from(final(self)@.active_question, old(self)@.ruleset),
                Err(e) => e == EngineError::GenerationExhausted && !always_generable(
                    old(self)@.ruleset,
                ) && *final(self) == *old(self),
            },
    {
        match Question::generate(&self.ruleset, rng) {
            Ok(q) => {
                self.active_question = q;
                Ok(())
            },
            Err(e) => Err(e),
        }
    }
}

impl Default for Round {
    /// The fresh round.
    fn default() -> (r: Round)
        ensures
            r.wf(),
            r@ == default_round(),
    {
        let mut operands: Vec<i32> = Vec::new();
        operands.push(0);
        operands.push(0);
        let ghost s = as_ints(operands@);
        proof {
            assert(s =~= seq![0int, 0int]);
            assert(partial_result(Operator::Add, s, 0) == 0);
        }
        match Question::from_operands(Operator::Add, operands) {
            Some(q) => Round { ruleset: Ruleset::default(), active_question: q },
            None => unreached(),
        }
    }
}

/// What a session holds, as mathematical values: its rounds in order, the
/// last of them the active one, and the collected animals in the order in
/// which they first came.
pub struct SessionView {
    pub rounds: Seq<RoundView>,
    pub collected: Seq<Animal>,
}

/// The invariant of a session over its view: there is an active round,
/// every round is valid, and no animal is collected twice.
pub open spec fn valid_session(v: SessionView) -> bool {
    &&& v.rounds.len() >= 1
    &&& forall|i: int| 0 <= i < v.rounds.len() ==> valid_round(#[trigger] v.rounds[i])
    &&& v.collected.no_duplicates()
}

/// The session as it is when new: one fresh round, nothing collected.
pub open spec fn fresh_session() -> SessionView {
    SessionView { rounds: seq![default_round()], collected: Seq::<Animal>::empty() }
}

/// The collection after `a` is handed in: a new animal goes to the end, one
/// that is there already changes nothing.
pub open spec fn collect_model(collected: Seq<Animal>, a: Animal) -> Seq<Animal> {
    if collected.contains(a) {
        collected
    } else {
        collected.push(a)
    }
}

/// The animals of `items`, each kept where it first occurs.
pub open spec fn distinct(items: Seq<Animal>) -> Seq<Animal>
    decreases items.len(),
{
    if items.len() == 0 {
        Seq::<Animal>::empty()
    } else {
        collect_model(distinct(items.drop_last()), items.last())
    }
}

/// The session with `round` in place of its active round.
pub open spec fn with_active(v: SessionView, round: RoundView) -> SessionView {
    SessionView { rounds: v.rounds.drop_last().push(round), collected: v.collected }
}

/// The views of a sequence of rounds.
pub open spec fn round_views(rounds: Seq<Round>) -> Seq<RoundView> {
    rounds.map_values(|r: Round| r@)
}

/// Handing in an animal keeps a collection free of repeats.
pub proof fn lemma_collect_keeps_distinct(collected: Seq<Animal>, a: Animal)
    requires
        collected.no_duplicates(),
    ensures
        collect_model(collected, a).no_duplicates(),
        collect_model(collected, a).contains(a),
{
    if collected.contains(a) {
    } else {
        assert(collected.push(a)[collected.len() as int] == a);
    }
}

/// A game session: the rounds played, of which the last is the active one,
/// and the animals collected so far.
#[derive(Clone, Debug)]
pub struct Session {
    history: Vec<Round>,
    current: Round,
    collected: Vec<Animal>,
}

impl View for Session {
    type V = SessionView;

    closed spec fn view(&self) -> SessionView {
        SessionView {
            rounds: round_views(self.history@).push(self.current@),
            collected: self.collected@,
        }
    }
}

impl Session {
    /// Whether the session keeps its invariant.
    pub open spec fn wf(&self) -> bool {
        valid_session(self@)
    }

    /// A new session: one fresh round, nothing collected.
    pub fn new() -> (r: Session)
        ensures
            r.wf(),
            r@ == fresh_session(),
    {
        let r = Session { history: Vec::new(), current: Round::default(), collected: Vec::new() };
        assert(r@.rounds =~= seq![default_round()]);
        r
    }

    /// A session of the given rounds and animals, as read from a saved
    /// snapshot. Without any round the session gets one fresh round; an
    /// animal that occurs again is kept once.
    pub fn restore(rounds: Vec<Round>, collected: Vec<Animal>) -> (r: Session)
        requires
            forall|i: int| 0 <= i < rounds@.len() ==> (#[trigger] rounds@[i]).wf(),
        ensures
            r.wf(),
            r@.rounds == (if rounds@.len() == 0 {
                seq![default_round()]
            } else {
                round_views(rounds@)
            }),
            r@.collected == distinct(collected@),
    {
        let mut history = rounds;
        let current = match history.pop() {
            Some(round) => round,
            None => Round::default(),
        };
        let mut kept: Vec<Animal> = Vec::new();
        let mut i: usize = 0;
        while i < collected.len()
            invariant
                i <= collected@.len(),
                kept@.no_duplicates(),
                kept@ == distinct(collected@.take(i as int)),
            decreases collected@.len() - i,
        {
            let a = collected[i];
            proof {
                lemma_collect_keeps_distinct(kept@, a);
                assert(collected@.take(i + 1).drop_last() =~= collected@.take(i as int));
            }
            if !contains_animal(&kept, a) {
                kept.push(a);
            }
            i += 1;
        }
        assert(collected@.take(i as int) =~= collected@);
        Session { history, current, collected: kept }
    }

    /// Puts the session back to what a new session is: the rounds and the
    /// collected animals go, one fresh round comes. This cannot fail, and
    /// it does not matter what the session went through before.
    pub fn reset(&mut self)
        ensures
            final(self).wf(),
            final(self)@ == fresh_session(),
    {
        *self = Session::new();
    }

    /// The active round.
    pub fn current_round(&self) -> (r: &Round)
        ensures
            r@ == self@.rounds.last(),
    {
        &self.current
    }

    /// The rounds before the active one, oldest first.
    pub fn past_rounds(&self) -> (r: &Vec<Round>)
        ensures
            round_views(r@) == self@.rounds.drop_last(),
    {
        &self.history
    }

    /// The collected animals, each once, in the order in which they first
    /// came.
    pub fn collected(&self) -> (r: &Vec<Animal>)
        ensures
            r@ == self@.collected,
    {
        &self.collected
    }

    /// Whether `a` has been collected.
    pub fn has_collected(&self, a: Animal) -> (r: bool)
        ensures
            r == self@.collected.contains(a),
    {
        contains_animal(&self.collected, a)
    }

    /// Hands in an animal. A new one joins the collection, one that is
    /// there already changes nothing. The result says whether it was new.
    pub fn collect(&mut self, a: Animal) -> (added: bool)
        requires
            old(self).wf(),
        ensures
            final(self).wf(),
            added == !old(self)@.collected.contains(a),
            final(self)@.collected.contains(a),
            final(self)@ == (SessionView {
                collected: collect_model(old(self)@.collected, a),
                ..old(self)@
            }),
    {
        proof {
            lemma_collect_keeps_distinct(self.collected@, a);
        }
        if contains_animal(&self.collected, a) {
            false
        } else {
            self.collected.push(a);
            true
        }
    }

    /// Sets the number of operands in the active ruleset, as
    /// `Ruleset::set_operand_count` does. No question is generated.
    pub fn set_operand_count(&mut self, n: u8) -> (r: Result<(), EngineError>)
        requires
            old(self).wf(),
        ensures
            final(self).wf(),
            n >= 2 ==> r is Ok && final(self)@ == with_active(
                old(self)@,
                RoundView {
                    ruleset: RulesetView {
                        operand_count: n as nat,
                        ..old(self)@.rounds.last().ruleset
                    },
                    ..old(self)@.rounds.last()
                },
            ),
            n < 2 ==> r == Err::<(), EngineError>(EngineError::InvalidConfig) && *final(self)
                == *old(self),
    {
        proof {
            self.lemma_current();
        }
        let r = self.current.set_operand_count(n);
        proof {
            self.lemma_active_replaced(*old(self));
        }
        r
    }

    /// Sets the value range of the active ruleset, as `Ruleset::set_range`
    /// does. No question is generated.
    pub fn set_range(&mut self, low: i32, high: i32) -> (r: Result<(), EngineError>)
        requires
            old(self).wf(),
        ensures
            final(self).wf(),
            low <= high ==> r is Ok && final(self)@ == with_active(
                old(self)@,
                RoundView {
                    ruleset: RulesetView {
                        low: low as int,
                        high: high as int,
                        ..old(self)@.rounds.last().ruleset
                    },
                    ..old(self)@.rounds.last()
                },
            ),
            low > high ==> r == Err::<(), EngineError>(EngineError::InvalidConfig) && *final(self)
                == *old(self),
    {
        proof {
            self.lemma_current();
        }
        let r = self.current.set_range(low, high);
        proof {
            self.lemma_active_replaced(*old(self));
        }
        r
    }

    /// Allows or disallows `op` in the active ruleset, as
    /// `Ruleset::toggle_operator` does: the last operator cannot be taken
    /// out. No question is generated.
    pub fn toggle_operator(&mut self, op: Operator) -> (r: Result<(), EngineError>)
        requires
            old(self).wf(),
        ensures
            final(self).wf(),
            !old(self)@.rounds.last().ruleset.operators.contains(op) ==> r is Ok && final(self)@
                == with_active(
                old(self)@,
                RoundView {
                    ruleset: RulesetView {
                        operators: old(self)@.rounds.last().ruleset.operators.insert(op),
                        ..old(self)@.rounds.last().ruleset
                    },
                    ..old(self)@.rounds.last()
                },
            ),
            old(self)@.rounds.last().ruleset.operators.contains(op) && old(
                self,
            )@.rounds.last().ruleset.operators.len() >= 2 ==> r is Ok && final(self)@
                == with_active(
                old(self)@,
                RoundView {
                    ruleset: RulesetView {
                        operators: old(self)@.rounds.last().ruleset.operators.remove(op),
                        ..old(self)@.rounds.last().ruleset
                    },
                    ..old(self)@.rounds.last()
                },
            ),
            old(self)@.rounds.last().ruleset.operators.contains(op) && old(
                self,
            )@.rounds.last().ruleset.operators.len() == 1 ==> r == Err::<(), EngineError>(
                EngineError::InvalidConfig,
            ) && *final(self) == *old(self),
    {
        proof {
            self.lemma_current();
        }
        let r = self.current.toggle_operator(op);
        proof {
            self.lemma_active_replaced(*old(self));
        }
        r
    }

    /// Replaces what the user has typed into the active question.
    pub fn set_input(&mut self, text: String)
        requires
            old(self).wf(),
        ensures
            final(self).wf(),
            final(self)@ == with_active(
                old(self)@,
                RoundView {
                    active_question: QuestionView {
                        current_input: text@,
                        ..old(self)@.rounds.last().active_question
                    },
                    ..old(self)@.rounds.last()
                },
            ),
    {
        proof {
            self.lemma_current();
        }
        self.current.set_input(text);
        proof {
            self.lemma_active_replaced(*old(self));
        }
    }

    /// Whether what is typed answers the active question.
    pub fn solved(&self) -> (r: bool)
        ensures
            r == solves(self@.rounds.last().active_question),
    {
        self.current.solved()
    }

    /// Generates a new active question under the active ruleset. The caller
    /// does this after a change of the ruleset. Where generation is
    /// exhausted the session stays as it was.
    pub fn regenerate(&mut self, rng: &mut StdRng) -> (r: Result<(), EngineError>)
        requires
            old(self).wf(),
        ensures
            final(self).wf(),
            match r {
                Ok(_) => generated_from(
                    final(self)@.rounds.last().active_question,
                    old(self)@.rounds.last().ruleset,
                ) && final(self)@ == with_active(
                    old(self)@,
                    RoundView {
                        active_question: final(self)@.rounds.last().active_question,
                        ..old(self)@.rounds.last()
                    },
                ),
                Err(e) => e == EngineError::GenerationExhausted && !always_generable(
                    old(self)@.rounds.last().ruleset,
                ) && *final(self) == *old(self),
            },
    {
        proof {
            self.lemma_current();
        }
        let r = self.current.regenerate(rng);
        proof {
            self.lemma_active_replaced(*old(self));
        }
        r
    }

    /// The step that follows a right answer: `next` becomes the active
    /// question and `reward` is handed in.
    pub fn award(&mut self, next: Question, reward: Animal)
        requires
            old(self).wf(),
            next.wf(),
        ensures
            final(self).wf(),
            final(self)@ == awarded(old(self)@, next@, reward),
    {
        proof {
            self.lemma_current();
        }
        self.current.replace_question(next);
        proof {
            self.lemma_active_replaced(*old(self));
            lemma_collect_keeps_distinct(self.collected@, reward);
        }
        if !contains_animal(&self.collected, reward) {
            self.collected.push(reward);
        }
    }

    /// Checks the answer that is typed in. While the active question is
    /// not solved, nothing happens. Once it is, a new question is generated
    /// under the active ruleset and one animal of the catalog is drawn and
    /// handed in, both in this one step; the animal comes back. Where
    /// generation is exhausted, the session stays as it was: no reward, no
    /// new question.
    pub fn check_answer(&mut self, rng: &mut StdRng) -> (r: Result<Option<Animal>, EngineError>)
        requires
            old(self).wf(),
        ensures
            final(self).wf(),
            !solves(old(self)@.rounds.last().active_question) ==> r == Ok::<
                Option<Animal>,
                EngineError,
            >(None) && *final(self) == *old(self),
            solves(old(self)@.rounds.last().active_question) ==> match r {
                Ok(Some(reward)) => catalog_model().contains(reward) && generated_from(
                    final(self)@.rounds.last().active_question,
                    old(self)@.rounds.last().ruleset,
                ) && final(self)@ == awarded(
                    old(self)@,
                    final(self)@.rounds.last().active_question,
                    reward,
                ),
                Ok(None) => false,
                Err(e) => e == EngineError::GenerationExhausted && !always_generable(
                    old(self)@.rounds.last().ruleset,
                ) && *final(self) == *old(self),
            },
    {
        proof {
            self.lemma_current();
        }
        if !self.current.solved() {
            return Ok(None);
        }
        match Question::generate(self.current.ruleset(), rng) {
            Ok(next) => {
                let reward = random_animal(rng);
                self.award(next, reward);
                Ok(Some(reward))
            },
            Err(e) => Err(e),
        }
    }

    /// The active round of a valid session is valid, and it is the last
    /// round of the view.
    proof fn lemma_current(&self)
        ensures
            self@.rounds.last() == self.current@,
            self.wf() ==> self.current.wf(),
    {
        assert(self@.rounds[self@.rounds.len() - 1] == self.current@);
    }

    /// A session that differs from `before` in its active round only has
    /// the view of `before` with that round replaced.
    proof fn lemma_active_replaced(&self, before: Session)
        requires
            self.history == before.history,
            self.collected == before.collected,
        ensures
            self@ == with_active(before@, self.current@),
            before@.rounds.last() == before.current@,
            before.wf() && self.current.wf() ==> self.wf(),
    {
        assert(self@.rounds =~= before@.rounds.drop_last().push(self.current@));
    }
}

impl Default for Session {
    /// A new session.
    fn default() -> (r: Session)
        ensures
            r.wf(),
            r@ == fresh_session(),
    {
        Session::new()
    }
}

/// The session after a right answer: `next` is the active question of the
/// active round and `reward` is handed in.
pub open spec fn awarded(v: SessionView, next: QuestionView, reward: Animal) -> SessionView {
    SessionView {
        rounds: v.rounds.drop_last().push(RoundView { active_question: next, ..v.rounds.last() }),
        collected: collect_model(v.collected, reward),
    }
}

/// Whether `a` occurs in `animals`.
fn contains_animal(animals: &Vec<Animal>, a: Animal) -> (r: bool)
    ensures
        r == animals@.contains(a),
{
    let mut i: usize = 0;
    while i < animals.len()
        invariant
            i <= animals@.len(),
            forall|j: int| 0 <= j < i ==> animals@[j] != a,
        decreases animals@.len() - i,
    {
        if animals[i] == a {
            return true;
        }
        i += 1;
    }
    false
}

} // verus!
