//! The state of the game between two frames, and the step that each event
//! of the window stands for.

use vstd::prelude::*;
use vstd::string::*;
use rand::rngs::StdRng;
use crate::error::EngineError;
use crate::generator::{always_generable, generated_from};
use crate::operator::Operator;
use crate::question::{solves, QuestionView};
use crate::reward::{catalog_model, Animal};
use crate::ruleset::RulesetView;
use crate::session::{awarded, fresh_session, valid_session, with_active, RoundView, Session, SessionView};

verus! {

/// For how many frames the message of a right answer stays visible.
pub const MESSAGE_FRAMES: i32 = 200;

/// What the game state holds, as mathematical values.
pub struct GameStateView {
    pub session: SessionView,
    pub settings_active: bool,
    pub message_timer: int,
    pub message: Seq<char>,
}

/// The message that a right answer shows.
pub open spec fn praise_text() -> Seq<char> {
    "RICHTIG!"@
}

/// The game state as it is when new: a fresh session, the settings panel
/// closed, an empty message with its timer running.
pub open spec fn fresh_game() -> GameStateView {
    GameStateView {
        session: fresh_session(),
        settings_active: false,
        message_timer: MESSAGE_FRAMES as int,
        message: Seq::<char>::empty(),
    }
}

/// The state with the given ruleset and question in the active round.
pub open spec fn retuned(v: GameStateView, ruleset: RulesetView, question: QuestionView) -> GameStateView {
    GameStateView {
        session: with_active(v.session, RoundView { ruleset, active_question: question }),
        ..v
    }
}

/// The state of the whole game between two frames: the session and what
/// the screen shows beside it.
#[derive(Clone, Debug)]
pub struct GameState {
    session: Session,
    settings_active: bool,
    message_timer: i32,
    message: String,
}

impl View for GameState {
    type V = GameStateView;

    closed spec fn view(&self) -> GameStateView {
        GameStateView {
            session: self.session@,
            settings_active: self.settings_active,
            message_timer: self.message_timer as int,
            message: self.message@,
        }
    }
}

impl GameState {
    /// Whether the state keeps its invariant: that of its session.
    pub open spec fn wf(&self) -> bool {
        valid_session(self@.session)
    }

    /// A new game.
    pub fn new() -> (r: GameState)
        ensures
            r.wf(),
            r@ == fresh_game(),
    {
        GameState {
            session: Session::new(),
            settings_active: false,
            message_timer: MESSAGE_FRAMES,
            message: String::new(),
        }
    }

    /// A game around a session that exists already, such as one read from
    /// a saved snapshot: the panel closed, an empty message with its timer
    /// running.
    pub fn with_session(session: Session) -> (r: GameState)
        requires
            session.wf(),
        ensures
            r.wf(),
            r@ == (GameStateView { session: session@, ..fresh_game() }),
    {
        GameState {
            session,
            settings_active: false,
            message_timer: MESSAGE_FRAMES,
            message: String::new(),
        }
    }

    /// The session.
    pub fn session(&self) -> (s: &Session)
        ensures
            s@ == self@.session,
    {
        &self.session
    }

    /// Whether the settings panel is open.
    pub fn settings_active(&self) -> (r: bool)
        ensures
            r == self@.settings_active,
    {
        self.settings_active
    }

    /// The message.
    pub fn message(&self) -> (s: &str)
        ensures
            s@ == self@.message,
    {
        self.message.as_str()
    }

    /// Whether the message is to be shown in this frame.
    pub fn message_visible(&self) -> (r: bool)
        ensures
            r == (self@.message_timer > 0),
    {
        self.message_timer > 0
    }

    /// Opens the settings panel where it is closed, and closes it where it
    /// is open.
    pub fn toggle_settings(&mut self)
        ensures
            final(self)@ == (GameStateView {
                settings_active: !old(self)@.settings_active,
                ..old(self)@
            }),
    {
        self.settings_active = !self.settings_active;
    }

    /// Ends a frame: the message timer goes down by one, and stops at the
    /// lowest number it can hold.
    pub fn end_frame(&mut self)
        ensures
            final(self)@ == (GameStateView {
                message_timer: if old(self)@.message_timer > i32::MIN {
                    old(self)@.message_timer - 1
                } else {
                    old(self)@.message_timer
                },
                ..old(self)@
            }),
    {
        if self.message_timer > i32::MIN {
            self.message_timer = self.message_timer - 1;
        }
    }

    /// Starts over: the session is reset; the panel and the message stay.
    pub fn reset(&mut self)
        ensures
            final(self).wf(),
            final(self)@ == (GameStateView { session: fresh_session(), ..old(self)@ }),
    {
        self.session.reset();
    }

    /// Takes what the user has typed into the answer field.
    pub fn set_answer(&mut self, text: String)
        requires
            old(self).wf(),
        ensures
            final(self).wf(),
            final(self)@ == retuned(
                old(self)@,
                old(self)@.session.rounds.last().ruleset,
                QuestionView {
                    current_input: text@,
                    ..old(self)@.session.rounds.last().active_question
                },
            ),
    {
        self.session.set_input(text);
    }

    /// Sets the number of operands and generates a question under the new
    /// ruleset. A number below two is refused and nothing changes. Where
    /// generation is exhausted the new ruleset stays with the old question.
    pub fn set_operand_count(&mut self, n: u8, rng: &mut StdRng) -> (r: Result<(), EngineError>)
        requires
            old(self).wf(),
        ensures
            final(self).wf(),
            n < 2 ==> r == Err::<(), EngineError>(EngineError::InvalidConfig) && *final(self)
                == *old(self),
            n >= 2 ==> tuned(
                old(self)@,
                final(self)@,
                RulesetView { operand_count: n as nat, ..old(self)@.session.rounds.last().ruleset },
                r,
            ),
    {
        match self.session.set_operand_count(n) {
            Ok(_) => self.fresh_question(Ghost(*old(self)), rng),
            Err(e) => Err(e),
        }
    }

    /// Sets the value range to `[0, highest]` and generates a question
    /// under the new ruleset. A negative `highest` is refused and nothing
    /// changes. Where generation is exhausted the new ruleset stays with
    /// the old question.
    pub fn set_highest(&mut self, highest: i32, rng: &mut StdRng) -> (r: Result<(), EngineError>)
        requires
            old(self).wf(),
        ensures
            final(self).wf(),
            highest < 0 ==> r == Err::<(), EngineError>(EngineError::InvalidConfig) && *final(self)
                == *old(self),
            highest >= 0 ==> tuned(
                old(self)@,
                final(self)@,
                RulesetView {
                    low: 0,
                    high: highest as int,
                    ..old(self)@.session.rounds.last().ruleset
                },
                r,
            ),
    {
        match self.session.set_range(0, highest) {
            Ok(_) => self.fresh_question(Ghost(*old(self)), rng),
            Err(e) => Err(e),
        }
    }

    /// Allows or disallows `op` and generates a question under the new
    /// ruleset. Taking out the last operator is refused and nothing
    /// changes. Where generation is exhausted the new ruleset stays with
    /// the old question.
    pub fn toggle_operator(&mut self, op: Operator, rng: &mut StdRng) -> (r: Result<
        (),
        EngineError,
    >)
        requires
            old(self).wf(),
        ensures
            final(self).wf(),
            ({
                let rules = old(self)@.session.rounds.last().ruleset;
                if !rules.operators.contains(op) {
                    tuned(
                        old(self)@,
                        final(self)@,
                        RulesetView { operators: rules.operators.insert(op), ..rules },
                        r,
                    )
                } else if rules.operators.len() >= 2 {
                    tuned(
                        old(self)@,
                        final(self)@,
                        RulesetView { operators: rules.operators.remove(op), ..rules },
                        r,
                    )
                } else {
                    r == Err::<(), EngineError>(EngineError::InvalidConfig) && *final(self) == *old(
                        self,
                    )
                }
            }),
    {
        match self.session.toggle_operator(op) {
            Ok(_) => self.fresh_question(Ghost(*old(self)), rng),
            Err(e) => Err(e),
        }
    }

    /// Checks the answer that is typed in, as `Session::check_answer` does.
    /// With a reward the message of a right answer is set and its timer
    /// starts anew; otherwise nothing but the session can have changed.
    pub fn check_answer(&mut self, rng: &mut StdRng) -> (r: Result<Option<Animal>, EngineError>)
        requires
            old(self).wf(),
        ensures
            final(self).wf(),
            !solves(old(self)@.session.rounds.last().active_question) ==> r == Ok::<
                Option<Animal>,
                EngineError,
            >(None) && final(self)@ == old(self)@,
            solves(old(self)@.session.rounds.last().active_question) ==> match r {
                Ok(Some(reward)) => catalog_model().contains(reward) && generated_from(
                    final(self)@.session.rounds.last().active_question,
                    old(self)@.session.rounds.last().ruleset,
                ) && final(self)@ == (GameStateView {
                    session: awarded(
                        old(self)@.session,
                        final(self)@.session.rounds.last().active_question,
                        reward,
                    ),
                    message_timer: MESSAGE_FRAMES as int,
                    message: praise_text(),
                    ..old(self)@
                }),
                Ok(None) => false,
                Err(e) => e == EngineError::GenerationExhausted && !always_generable(
                    old(self)@.session.rounds.last().ruleset,
                ) && final(self)@ == old(self)@,
            },
    {
        match self.session.check_answer(rng) {
            Ok(Some(reward)) => {
                self.message_timer = MESSAGE_FRAMES;
                self.message = String::from_str("RICHTIG!");
                Ok(Some(reward))
            },
            Ok(None) => Ok(None),
            Err(e) => Err(e),
        }
    }

    /// Generates the question that follows a change of the ruleset.
    fn fresh_question(&mut self, Ghost(before): Ghost<GameState>, rng: &mut StdRng) -> (r: Result<
        (),
        EngineError,
    >)
        requires
            old(self).wf(),
            before.wf(),
            old(self)@ == retuned(
                before@,
                old(self)@.session.rounds.last().ruleset,
                before@.session.rounds.last().active_question,
            ),
        ensures
            final(self).wf(),
            tuned(before@, final(self)@, old(self)@.session.rounds.last().ruleset, r),
    {
        let r = self.session.regenerate(rng);
        proof {
            let rules = old(self)@.session.rounds.last().ruleset;
            let question = self@.session.rounds.last().active_question;
            assert(self@.session.rounds =~= before@.session.rounds.drop_last().push(
                RoundView { ruleset: rules, active_question: question },
            ));
        }
        r
    }
}

/// What a change of the ruleset with a new question leaves behind. The
/// active round has the ruleset `rules`, and nothing else but its question
/// differs from `before`. On success the question is one generated under
/// `rules`. The only failure is `GenerationExhausted`; then the question is
/// the one of `before`, and not every sample under `rules` is valid.
pub open spec fn tuned(
    before: GameStateView,
    after: GameStateView,
    rules: RulesetView,
    r: Result<(), EngineError>,
) -> bool {
    let question = after.session.rounds.last().active_question;
    &&& after == retuned(before, rules, question)
    &&& match r {
        Ok(_) => generated_from(question, rules),
        Err(e) => e == EngineError::GenerationExhausted && !always_generable(rules) && question
            == before.session.rounds.last().active_question,
    }
}

impl Default for GameState {
    /// A new game.
    fn default() -> (r: GameState)
        ensures
            r.wf(),
            r@ == fresh_game(),
    {
        GameState::new()
    }
}

} // verus!
