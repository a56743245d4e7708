//! The review session state machine. All session state lives in a few named
//! client tokens; the state is read back from them on every request and the
//! next state is written to them after each user action.
use vstd::prelude::*;
use crate::decimal::{decimal_digits, format_index, index_of_token, lemma_index_round_trip, parse_index};
use crate::text::str_eq;

verus! {

/// The review stage that the current flashcard is in.
#[derive(Debug, Clone, Copy, PartialEq, Eq, Structural)]
pub enum ReviewPhase {
    /// The word is shown; the user reports whether they know it.
    Answering,
    /// The answer is shown; the user confirms whether their report was right.
    Checking,
    /// The card is about to be left behind (skip wording); never stored.
    Advancing,
}

/// The four actions that a user can take on a card.
#[derive(Debug, Clone, Copy, PartialEq, Eq, Structural)]
pub enum UserAction {
    IKnow,
    IDontKnow,
    IAmRight,
    IAmWrong,
}

/// The state of a review session.
#[derive(Debug, Clone, Copy, PartialEq, Eq, Structural)]
pub struct SessionState {
    pub phase: ReviewPhase,
    pub word_index: u64,
    /// Set when the user said they did not know the word; shown as `Checking`.
    pub to_remember: bool,
}

#[derive(Debug, Clone, Copy, PartialEq, Eq, Structural)]
pub enum SessionError {
    /// The action name is none of the four actions.
    InvalidAction,
}

/// The client-held tokens (cookie values) of one session. Each is absent until
/// written, and each is overwritten on its own.
#[derive(Debug)]
pub struct SessionTokens {
    /// The stored phase label.
    pub user_action_type: Option<String>,
    /// The word index as decimal text.
    pub vocab_idx: Option<String>,
    /// The chosen interface language.
    pub state_choosen_lang: Option<String>,
    /// The chosen ranking of the word panel.
    pub state_choosen_rank: Option<String>,
    /// A one-shot notice message.
    pub flash: Option<String>,
}

pub open spec fn text_of(o: Option<String>) -> Option<Seq<char>> {
    match o {
        Some(s) => Some(s@),
        None => None,
    }
}

pub open spec fn answer_label() -> Seq<char> {
    "to_answer"@
}

pub open spec fn check_label() -> Seq<char> {
    "to_check"@
}

pub open spec fn remember_label() -> Seq<char> {
    "to_remember"@
}

/// The phase that a stored label stands for: none means a first visit.
pub open spec fn phase_of_label(label: Option<Seq<char>>) -> ReviewPhase {
    match label {
        None => ReviewPhase::Answering,
        Some(l) => if l == answer_label() {
            ReviewPhase::Answering
        } else if l == check_label() || l == remember_label() {
            ReviewPhase::Checking
        } else {
            ReviewPhase::Advancing
        },
    }
}

/// The state that a label token and an index token stand for.
pub open spec fn state_of(label: Option<Seq<char>>, idx: Option<Seq<char>>) -> SessionState {
    SessionState {
        phase: phase_of_label(label),
        word_index: match idx {
            Some(t) => index_of_token(t) as u64,
            None => 0,
        },
        to_remember: label == Some(remember_label()),
    }
}

/// The state that a token set stands for.
pub open spec fn tokens_state(t: SessionTokens) -> SessionState {
    state_of(text_of(t.user_action_type), text_of(t.vocab_idx))
}

/// The label under which a state is stored; `Advancing` is not stored.
pub open spec fn label_of(s: SessionState) -> Option<Seq<char>> {
    match s.phase {
        ReviewPhase::Answering => Some(answer_label()),
        ReviewPhase::Checking => if s.to_remember {
            Some(remember_label())
        } else {
            Some(check_label())
        },
        ReviewPhase::Advancing => None,
    }
}

/// A state that its tokens hold exactly: a stored phase, and the review hint
/// only while checking.
pub open spec fn is_storable(s: SessionState) -> bool {
    s.phase != ReviewPhase::Advancing && (s.to_remember ==> s.phase == ReviewPhase::Checking)
}

/// The action that an action name stands for.
pub open spec fn action_of(name: Seq<char>) -> Option<UserAction> {
    if name == "iknow"@ {
        Some(UserAction::IKnow)
    } else if name == "idontknow"@ {
        Some(UserAction::IDontKnow)
    } else if name == "iamright"@ {
        Some(UserAction::IAmRight)
    } else if name == "iamwrong"@ {
        Some(UserAction::IAmWrong)
    } else {
        None
    }
}

/// The transition table. Reporting moves to `Checking` at the same word;
/// confirming moves to `Answering` at the next word (the index saturates at
/// its largest value).
pub open spec fn next_state(s: SessionState, a: UserAction) -> SessionState {
    match a {
        UserAction::IKnow => SessionState {
            phase: ReviewPhase::Checking,
            word_index: s.word_index,
            to_remember: false,
        },
        UserAction::IDontKnow => SessionState {
            phase: ReviewPhase::Checking,
            word_index: s.word_index,
            to_remember: true,
        },
        UserAction::IAmRight | UserAction::IAmWrong => SessionState {
            phase: ReviewPhase::Answering,
            word_index: if s.word_index < u64::MAX {
                (s.word_index + 1) as u64
            } else {
                s.word_index
            },
            to_remember: false,
        },
    }
}

/// The session tokens other than the phase label and the index.
pub open spec fn same_other_tokens(a: SessionTokens, b: SessionTokens) -> bool {
    a.state_choosen_lang == b.state_choosen_lang && a.state_choosen_rank == b.state_choosen_rank
        && a.flash == b.flash
}

impl UserAction {
    /// Reads an action name; anything but the four names is refused.
    pub fn parse(name: &str) -> (r: Result<UserAction, SessionError>)
        ensures
            match action_of(name@) {
                Some(a) => r == Ok::<UserAction, SessionError>(a),
                None => r == Err::<UserAction, SessionError>(SessionError::InvalidAction),
            },
    {
        if str_eq(name, "iknow") {
            Ok(UserAction::IKnow)
        } else if str_eq(name, "idontknow") {
            Ok(UserAction::IDontKnow)
        } else if str_eq(name, "iamright") {
            Ok(UserAction::IAmRight)
        } else if str_eq(name, "iamwrong") {
            Ok(UserAction::IAmWrong)
        } else {
            Err(SessionError::InvalidAction)
        }
    }
}

impl SessionState {
    /// The state on a first visit: answering the first word.
    pub fn initial() -> (r: SessionState)
        ensures
            r == state_of(None, None),
    {
        SessionState { phase: ReviewPhase::Answering, word_index: 0, to_remember: false }
    }

    /// The state after `action`.
    pub fn after(&self, action: UserAction) -> (r: SessionState)
        ensures
            r == next_state(*self, action),
    {
        match action {
            UserAction::IKnow => SessionState {
                phase: ReviewPhase::Checking,
                word_index: self.word_index,
                to_remember: false,
            },
            UserAction::IDontKnow => SessionState {
                phase: ReviewPhase::Checking,
                word_index: self.word_index,
                to_remember: true,
            },
            UserAction::IAmRight | UserAction::IAmWrong => SessionState {
                phase: ReviewPhase::Answering,
                word_index: self.word_index.saturating_add(1),
                to_remember: false,
            },
        }
    }
}

/// Reads the phase from a stored label.
fn read_phase(label: &Option<String>) -> (r: (ReviewPhase, bool))
    ensures
        r.0 == phase_of_label(text_of(*label)),
        r.1 == (text_of(*label) == Some(remember_label())),
{
    match label {
        None => {
            assert(text_of(*label) != Some(remember_label()));
            (ReviewPhase::Answering, false)
        },
        Some(l) => {
            if str_eq(l.as_str(), "to_answer") {
                proof {
                    reveal_strlit("to_answer");
                    reveal_strlit("to_remember");
                    assert(answer_label()[3] != remember_label()[3]);
                }
                (ReviewPhase::Answering, false)
            } else if str_eq(l.as_str(), "to_check") {
                proof {
                    reveal_strlit("to_check");
                    reveal_strlit("to_remember");
                    assert(check_label()[3] != remember_label()[3]);
                }
                (ReviewPhase::Checking, false)
            } else if str_eq(l.as_str(), "to_remember") {
                (ReviewPhase::Checking, true)
            } else {
                (ReviewPhase::Advancing, false)
            }
        },
    }
}

/// The session state that the tokens stand for. Never fails: an absent label
/// is a first visit, and an absent or malformed index reads as 0.
pub fn derive_state(tokens: &SessionTokens) -> (r: SessionState)
    ensures
        r == tokens_state(*tokens),
{
    let (phase, to_remember) = read_phase(&tokens.user_action_type);
    let word_index = match &tokens.vocab_idx {
        Some(t) => parse_index(t.as_str()),
        None => 0,
    };
    SessionState { phase, word_index, to_remember }
}

/// The state after the named action, from the state that the tokens stand for.
pub fn apply_action(tokens: &SessionTokens, action: &str) -> (r: Result<SessionState, SessionError>)
    ensures
        match action_of(action@) {
            Some(a) => r == Ok::<SessionState, SessionError>(next_state(tokens_state(*tokens), a)),
            None => r == Err::<SessionState, SessionError>(SessionError::InvalidAction),
        },
{
    let a = UserAction::parse(action)?;
    let s = derive_state(tokens);
    Ok(s.after(a))
}

/// Writes a state to the phase-label and index tokens, leaving the others.
pub fn store_state(tokens: &mut SessionTokens, state: &SessionState)
    ensures
        text_of(final(tokens).user_action_type) == label_of(*state),
        text_of(final(tokens).vocab_idx) == Some(decimal_digits(state.word_index as nat)),
        same_other_tokens(*final(tokens), *old(tokens)),
{
    tokens.user_action_type = match state.phase {
        ReviewPhase::Answering => Some(String::from_str("to_answer")),
        ReviewPhase::Checking => if state.to_remember {
            Some(String::from_str("to_remember"))
        } else {
            Some(String::from_str("to_check"))
        },
        ReviewPhase::Advancing => None,
    };
    tokens.vocab_idx = Some(format_index(state.word_index));
}

/// Records a self-report: only the phase label is written, and the index
/// token is left as it was.
fn report(tokens: &mut SessionTokens, action: UserAction)
    requires
        action == UserAction::IKnow || action == UserAction::IDontKnow,
    ensures
        text_of(final(tokens).user_action_type) == label_of(
            next_state(tokens_state(*old(tokens)), action),
        ),
        final(tokens).vocab_idx == old(tokens).vocab_idx,
        tokens_state(*final(tokens)) == next_state(tokens_state(*old(tokens)), action),
        same_other_tokens(*final(tokens), *old(tokens)),
{
    tokens.user_action_type = match action {
        UserAction::IDontKnow => Some(String::from_str("to_remember")),
        _ => Some(String::from_str("to_check")),
    };
    proof {
        reveal_strlit("to_answer");
        reveal_strlit("to_check");
        reveal_strlit("to_remember");
        assert(answer_label()[3] != check_label()[3]);
        assert(answer_label()[3] != remember_label()[3]);
        assert(check_label()[3] != remember_label()[3]);
    }
}

/// Records a confirmation: the phase label and the index token are written
/// for the next state.
fn confirm(tokens: &mut SessionTokens, action: UserAction)
    ensures
        text_of(final(tokens).user_action_type) == label_of(
            next_state(tokens_state(*old(tokens)), action),
        ),
        text_of(final(tokens).vocab_idx) == Some(
            decimal_digits(next_state(tokens_state(*old(tokens)), action).word_index as nat),
        ),
        tokens_state(*final(tokens)) == next_state(tokens_state(*old(tokens)), action),
        same_other_tokens(*final(tokens), *old(tokens)),
{
    let next = derive_state(tokens).after(action);
    store_state(tokens, &next);
    proof {
        lemma_action_round_trip(tokens_state(*old(tokens)), action);
    }
}

/// The user reports knowing the word: the label becomes `to_check`; the index
/// token is kept as it was.
pub fn check_answer_when_know(tokens: &mut SessionTokens)
    ensures
        text_of(final(tokens).user_action_type) == Some(check_label()),
        final(tokens).vocab_idx == old(tokens).vocab_idx,
        tokens_state(*final(tokens)) == next_state(tokens_state(*old(tokens)), UserAction::IKnow),
        same_other_tokens(*final(tokens), *old(tokens)),
{
    report(tokens, UserAction::IKnow);
}

/// The user reports not knowing the word: the label becomes `to_remember`;
/// the index token is kept as it was.
pub fn check_answer_when_dontknow(tokens: &mut SessionTokens)
    ensures
        text_of(final(tokens).user_action_type) == Some(remember_label()),
        final(tokens).vocab_idx == old(tokens).vocab_idx,
        tokens_state(*final(tokens)) == next_state(
            tokens_state(*old(tokens)),
            UserAction::IDontKnow,
        ),
        same_other_tokens(*final(tokens), *old(tokens)),
{
    report(tokens, UserAction::IDontKnow);
}

/// The user confirms that their report was right: the label becomes
/// `to_answer` and the index token holds the next index in decimal.
pub fn get_next_question_when_right(tokens: &mut SessionTokens)
    ensures
        text_of(final(tokens).user_action_type) == Some(answer_label()),
        text_of(final(tokens).vocab_idx) == Some(
            decimal_digits(
                next_state(tokens_state(*old(tokens)), UserAction::IAmRight).word_index as nat,
            ),
        ),
        tokens_state(*final(tokens)) == next_state(
            tokens_state(*old(tokens)),
            UserAction::IAmRight,
        ),
        same_other_tokens(*final(tokens), *old(tokens)),
{
    confirm(tokens, UserAction::IAmRight);
}

/// The user confirms that their report was wrong: the label becomes
/// `to_answer` and the index token holds the next index in decimal.
pub fn get_next_question_when_wrong(tokens: &mut SessionTokens)
    ensures
        text_of(final(tokens).user_action_type) == Some(answer_label()),
        text_of(final(tokens).vocab_idx) == Some(
            decimal_digits(
                next_state(tokens_state(*old(tokens)), UserAction::IAmWrong).word_index as nat,
            ),
        ),
        tokens_state(*final(tokens)) == next_state(
            tokens_state(*old(tokens)),
            UserAction::IAmWrong,
        ),
        same_other_tokens(*final(tokens), *old(tokens)),
{
    confirm(tokens, UserAction::IAmWrong);
}

/// The four action names and the actions they stand for.
pub proof fn lemma_action_names()
    ensures
        action_of("iknow"@) == Some(UserAction::IKnow),
        action_of("idontknow"@) == Some(UserAction::IDontKnow),
        action_of("iamright"@) == Some(UserAction::IAmRight),
        action_of("iamwrong"@) == Some(UserAction::IAmWrong),
{
    reveal_strlit("iknow");
    reveal_strlit("idontknow");
    reveal_strlit("iamright");
    reveal_strlit("iamwrong");
    assert("idontknow"@[1] != "iknow"@[1]);
    assert("iamright"@[3] != "iknow"@[3]);
    assert("iamright"@[3] != "idontknow"@[3]);
    assert("iamwrong"@[3] != "iknow"@[3]);
    assert("iamwrong"@[3] != "idontknow"@[3]);
    assert("iamwrong"@[4] != "iamright"@[4]);
}

/// Whatever the state and the action, storing the next state in the tokens and
/// reading the tokens back gives that next state again.
pub proof fn lemma_action_round_trip(s: SessionState, a: UserAction)
    ensures
        state_of(
            label_of(next_state(s, a)),
            Some(decimal_digits(next_state(s, a).word_index as nat)),
        ) == next_state(s, a),
{
    lemma_store_round_trip(next_state(s, a));
}

/// Confirming a report, right or wrong, moves to answering the next word.
pub proof fn lemma_confirm_advances(s: SessionState, a: UserAction)
    requires
        a == UserAction::IAmRight || a == UserAction::IAmWrong,
        s.word_index < u64::MAX,
    ensures
        next_state(s, a).phase == ReviewPhase::Answering,
        next_state(s, a).word_index == s.word_index + 1,
{
}

/// Reporting, known or not, moves to checking the same word.
pub proof fn lemma_report_checks(s: SessionState, a: UserAction)
    requires
        a == UserAction::IKnow || a == UserAction::IDontKnow,
    ensures
        next_state(s, a).phase == ReviewPhase::Checking,
        next_state(s, a).word_index == s.word_index,
{
}

/// Writing a storable state to tokens and reading them back gives that state.
pub proof fn lemma_store_round_trip(s: SessionState)
    requires
        is_storable(s),
    ensures
        state_of(label_of(s), Some(decimal_digits(s.word_index as nat))) == s,
{
    reveal_strlit("to_answer");
    reveal_strlit("to_check");
    reveal_strlit("to_remember");
    lemma_index_round_trip(s.word_index);
    assert(answer_label()[3] != check_label()[3]);
    assert(answer_label()[3] != remember_label()[3]);
    assert(check_label()[3] != remember_label()[3]);
    assert(phase_of_label(label_of(s)) == s.phase);
    assert((label_of(s) == Some(remember_label())) == s.to_remember);
}

} // verus!
