//! The login script as a state machine: what each state asks of the browser,
//! and where the outcome of that leads.

use vstd::prelude::*;
use vstd::string::StringExecFns;
use crate::credentials::LoginCredentials;

verus! {

/// The states of the login script, in the order in which a run passes them.
#[derive(Clone, Copy, Debug, PartialEq, Eq, Structural)]
pub enum FlowState {
    Start,
    NavigateToProvider,
    EnterIdentifier,
    AdvancePastIdentifier,
    EnterSecret,
    AdvancePastSecret,
    EnterRecoveryIdentifier,
    AdvancePastRecovery,
    Settle,
    NavigateToTargetLogin,
    Done,
}

/// What a state asks of the browser.
#[derive(Clone, Debug)]
pub enum Action {
    /// Nothing.
    Idle,
    /// Load the page at `url`.
    Navigate { url: String },
    /// Find the element at `selector`, click it and type `text` into it.
    Fill { selector: String, text: String },
    /// Find the element at `selector` and click it.
    Click { selector: String },
    /// Only wait.
    Pause,
    /// The script is over.
    Finish,
}

/// How the browser answered an action.
#[derive(Clone, Debug)]
pub enum StepOutcome {
    /// The action was carried out.
    Completed,
    /// The page has no element at the selector.
    ElementNotFound,
    /// Loading, clicking or typing failed; the text says how.
    Failed(String),
}

/// Where an outcome leads.
#[derive(Clone, Debug)]
pub enum Transition {
    /// On to `next`, after waiting `wait_seconds`.
    Proceed { next: FlowState, wait_seconds: u64 },
    /// The attempt ends with `error`.
    Abort { error: String },
}

/// An `Action` with its texts as sequences.
pub enum ActionText {
    Idle,
    Navigate { url: Seq<char> },
    Fill { selector: Seq<char>, text: Seq<char> },
    Click { selector: Seq<char> },
    Pause,
    Finish,
}

/// A `StepOutcome` with its text as a sequence.
pub enum OutcomeText {
    Completed,
    ElementNotFound,
    Failed(Seq<char>),
}

/// A `Transition` with its text as a sequence.
pub enum TransitionText {
    Proceed { next: FlowState, wait_seconds: u64 },
    Abort { error: Seq<char> },
}

impl View for Action {
    type V = ActionText;

    open spec fn view(&self) -> ActionText {
        match *self {
            Action::Idle => ActionText::Idle,
            Action::Navigate { url } => ActionText::Navigate { url: url@ },
            Action::Fill { selector, text } => ActionText::Fill { selector: selector@, text: text@ },
            Action::Click { selector } => ActionText::Click { selector: selector@ },
            Action::Pause => ActionText::Pause,
            Action::Finish => ActionText::Finish,
        }
    }
}

impl View for StepOutcome {
    type V = OutcomeText;

    open spec fn view(&self) -> OutcomeText {
        match *self {
            StepOutcome::Completed => OutcomeText::Completed,
            StepOutcome::ElementNotFound => OutcomeText::ElementNotFound,
            StepOutcome::Failed(detail) => OutcomeText::Failed(detail@),
        }
    }
}

impl View for Transition {
    type V = TransitionText;

    open spec fn view(&self) -> TransitionText {
        match *self {
            Transition::Proceed { next, wait_seconds } => TransitionText::Proceed {
                next,
                wait_seconds,
            },
            Transition::Abort { error } => TransitionText::Abort { error: error@ },
        }
    }
}

/// The page on which the provider asks for the identifier.
pub open spec fn provider_url() -> Seq<char> {
    "https://accounts.google.com/signin/v2/identifier"@
}

/// The page whose loading sends the request that carries the token.
pub open spec fn target_login_url() -> Seq<char> {
    "https://www.growtopiagame.com/google/login"@
}

/// A step whose failure ends the attempt.
pub open spec fn is_required(state: FlowState) -> bool {
    match state {
        FlowState::NavigateToProvider => true,
        FlowState::EnterIdentifier => true,
        FlowState::EnterSecret => true,
        FlowState::NavigateToTargetLogin => true,
        _ => false,
    }
}

/// The state that follows `state`. The two recovery states are passed over
/// where no recovery identifier is given.
pub open spec fn successor(state: FlowState, has_recovery: bool) -> FlowState {
    match state {
        FlowState::Start => FlowState::NavigateToProvider,
        FlowState::NavigateToProvider => FlowState::EnterIdentifier,
        FlowState::EnterIdentifier => FlowState::AdvancePastIdentifier,
        FlowState::AdvancePastIdentifier => FlowState::EnterSecret,
        FlowState::EnterSecret => FlowState::AdvancePastSecret,
        FlowState::AdvancePastSecret => if has_recovery {
            FlowState::EnterRecoveryIdentifier
        } else {
            FlowState::Settle
        },
        FlowState::EnterRecoveryIdentifier => FlowState::AdvancePastRecovery,
        FlowState::AdvancePastRecovery => FlowState::Settle,
        FlowState::Settle => FlowState::NavigateToTargetLogin,
        FlowState::NavigateToTargetLogin => FlowState::Done,
        FlowState::Done => FlowState::Done,
    }
}

/// How many states a run still has before it from `state`, at most.
pub open spec fn states_left(state: FlowState) -> nat {
    match state {
        FlowState::Start => 10,
        FlowState::NavigateToProvider => 9,
        FlowState::EnterIdentifier => 8,
        FlowState::AdvancePastIdentifier => 7,
        FlowState::EnterSecret => 6,
        FlowState::AdvancePastSecret => 5,
        FlowState::EnterRecoveryIdentifier => 4,
        FlowState::AdvancePastRecovery => 3,
        FlowState::Settle => 2,
        FlowState::NavigateToTargetLogin => 1,
        FlowState::Done => 0,
    }
}

/// What `state` asks of the browser, for an account with these texts.
pub open spec fn planned_action(
    state: FlowState,
    email: Seq<char>,
    password: Seq<char>,
    recovery: Option<Seq<char>>,
) -> ActionText {
    match state {
        FlowState::Start => ActionText::Idle,
        FlowState::NavigateToProvider => ActionText::Navigate { url: provider_url() },
        FlowState::EnterIdentifier => ActionText::Fill { selector: "#identifierId"@, text: email },
        FlowState::AdvancePastIdentifier => ActionText::Click { selector: "#identifierNext"@ },
        FlowState::EnterSecret => ActionText::Fill {
            selector: "input[name='password']"@,
            text: password,
        },
        FlowState::AdvancePastSecret => ActionText::Click { selector: "#passwordNext"@ },
        FlowState::EnterRecoveryIdentifier => ActionText::Fill {
            selector: "input[name='knowledgePreregisteredEmailResponse']"@,
            text: match recovery {
                Some(address) => address,
                None => Seq::empty(),
            },
        },
        FlowState::AdvancePastRecovery => ActionText::Click {
            selector: "//button/span[text()='Next']"@,
        },
        FlowState::Settle => ActionText::Pause,
        FlowState::NavigateToTargetLogin => ActionText::Navigate { url: target_login_url() },
        FlowState::Done => ActionText::Finish,
    }
}

/// The seconds to wait after `state` was answered with `outcome`, so that the
/// page can settle. After a click on a button that may be absent, the wait is
/// kept only where the button was there.
pub open spec fn wait_after(state: FlowState, outcome: OutcomeText) -> u64 {
    match state {
        FlowState::NavigateToProvider => 3,
        FlowState::AdvancePastIdentifier | FlowState::AdvancePastSecret | FlowState::AdvancePastRecovery => if outcome is ElementNotFound {
            0
        } else {
            3
        },
        FlowState::Settle => 5,
        FlowState::NavigateToTargetLogin => 5,
        _ => 0,
    }
}

/// How the description of a failure in `state` begins.
pub open spec fn failure_prefix(state: FlowState) -> Seq<char> {
    match state {
        FlowState::NavigateToProvider => "[Google Login] Failed to open login page: "@,
        FlowState::EnterIdentifier => "[Google Login] Failed to enter email: "@,
        FlowState::AdvancePastIdentifier => "[Google Login] Failed to click next button: "@,
        FlowState::EnterSecret => "[Google Login] Failed to enter password: "@,
        FlowState::AdvancePastSecret => "[Google Login] Failed to click password next button: "@,
        FlowState::EnterRecoveryIdentifier => "[Google Login] Failed to enter recovery email: "@,
        FlowState::AdvancePastRecovery => "[Google Login] Failed to click recovery next button: "@,
        FlowState::NavigateToTargetLogin => "[Growtopia] Failed to navigate to Growtopia login: "@,
        _ => "[Google Login] Failed: "@,
    }
}

/// The description of a missing element in `state`.
pub open spec fn missing_message(state: FlowState) -> Seq<char> {
    match state {
        FlowState::EnterIdentifier => "[Google Login] Email input not found"@,
        FlowState::EnterSecret => "[Google Login] Password input not found"@,
        _ => failure_prefix(state) + "element not found"@,
    }
}

/// The description of an outcome of `state` that is no success.
pub open spec fn failure_message(state: FlowState, outcome: OutcomeText) -> Seq<char> {
    match outcome {
        OutcomeText::Failed(detail) => failure_prefix(state) + detail,
        _ => missing_message(state),
    }
}

/// Where `outcome` leads from `state`: a required step that did not complete
/// ends the attempt with its description; anything else leads on.
pub open spec fn transition(state: FlowState, outcome: OutcomeText, has_recovery: bool) -> TransitionText {
    if is_required(state) && !(outcome is Completed) {
        TransitionText::Abort { error: failure_message(state, outcome) }
    } else {
        TransitionText::Proceed {
            next: successor(state, has_recovery),
            wait_seconds: wait_after(state, outcome),
        }
    }
}

/// How a run from `state` ends, where `outcomes` says how the browser answers
/// in each state: with success at `Done`, or with the description of the first
/// required step that did not complete.
pub open spec fn run_from(
    state: FlowState,
    has_recovery: bool,
    outcomes: spec_fn(FlowState) -> OutcomeText,
) -> Result<(), Seq<char>>
    decreases states_left(state),
{
    if state is Done {
        Ok(())
    } else {
        match transition(state, outcomes(state), has_recovery) {
            TransitionText::Abort { error } => Err(error),
            TransitionText::Proceed { next, wait_seconds } => run_from(next, has_recovery, outcomes),
        }
    }
}

/// Whether a failure in `state` ends the attempt.
pub fn required(state: FlowState) -> (needed: bool)
    ensures
        needed == is_required(state),
{
    match state {
        FlowState::NavigateToProvider => true,
        FlowState::EnterIdentifier => true,
        FlowState::EnterSecret => true,
        FlowState::NavigateToTargetLogin => true,
        _ => false,
    }
}

/// The state that follows `state`.
pub fn next_state(state: FlowState, has_recovery: bool) -> (next: FlowState)
    ensures
        next == successor(state, has_recovery),
{
    match state {
        FlowState::Start => FlowState::NavigateToProvider,
        FlowState::NavigateToProvider => FlowState::EnterIdentifier,
        FlowState::EnterIdentifier => FlowState::AdvancePastIdentifier,
        FlowState::AdvancePastIdentifier => FlowState::EnterSecret,
        FlowState::EnterSecret => FlowState::AdvancePastSecret,
        FlowState::AdvancePastSecret => if has_recovery {
            FlowState::EnterRecoveryIdentifier
        } else {
            FlowState::Settle
        },
        FlowState::EnterRecoveryIdentifier => FlowState::AdvancePastRecovery,
        FlowState::AdvancePastRecovery => FlowState::Settle,
        FlowState::Settle => FlowState::NavigateToTargetLogin,
        FlowState::NavigateToTargetLogin => FlowState::Done,
        FlowState::Done => FlowState::Done,
    }
}

/// What `state` asks of the browser for these credentials.
pub fn action_for(state: FlowState, credentials: &LoginCredentials) -> (action: Action)
    ensures
        action@ == planned_action(
            state,
            credentials.email@,
            credentials.password@,
            credentials.recovery_text(),
        ),
{
    match state {
        FlowState::Start => Action::Idle,
        FlowState::NavigateToProvider => Action::Navigate {
            url: "https://accounts.google.com/signin/v2/identifier".to_owned(),
        },
        FlowState::EnterIdentifier => Action::Fill {
            selector: "#identifierId".to_owned(),
            text: credentials.email.clone(),
        },
        FlowState::AdvancePastIdentifier => Action::Click { selector: "#identifierNext".to_owned() },
        FlowState::EnterSecret => Action::Fill {
            selector: "input[name='password']".to_owned(),
            text: credentials.password.clone(),
        },
        FlowState::AdvancePastSecret => Action::Click { selector: "#passwordNext".to_owned() },
        FlowState::EnterRecoveryIdentifier => {
            let text = match &credentials.recovery_email {
                Some(address) => address.clone(),
                None => String::new(),
            };
            assert(text@.len() == 0 ==> text@ =~= Seq::<char>::empty());
            Action::Fill {
                selector: "input[name='knowledgePreregisteredEmailResponse']".to_owned(),
                text,
            }
        },
        FlowState::AdvancePastRecovery => Action::Click {
            selector: "//button/span[text()='Next']".to_owned(),
        },
        FlowState::Settle => Action::Pause,
        FlowState::NavigateToTargetLogin => Action::Navigate {
            url: "https://www.growtopiagame.com/google/login".to_owned(),
        },
        FlowState::Done => Action::Finish,
    }
}

/// The seconds to wait after `state` was answered with `outcome`.
pub fn settle_seconds(state: FlowState, outcome: &StepOutcome) -> (seconds: u64)
    ensures
        seconds == wait_after(state, outcome@),
{
    let missing = match outcome {
        StepOutcome::ElementNotFound => true,
        _ => false,
    };
    match state {
        FlowState::NavigateToProvider => 3,
        FlowState::AdvancePastIdentifier => if missing {
            0
        } else {
            3
        },
        FlowState::AdvancePastSecret => if missing {
            0
        } else {
            3
        },
        FlowState::AdvancePastRecovery => if missing {
            0
        } else {
            3
        },
        FlowState::Settle => 5,
        FlowState::NavigateToTargetLogin => 5,
        _ => 0,
    }
}

/// How the description of a failure in `state` begins.
pub fn failure_prefix_of(state: FlowState) -> (prefix: &'static str)
    ensures
        prefix@ == failure_prefix(state),
{
    match state {
        FlowState::NavigateToProvider => "[Google Login] Failed to open login page: ",
        FlowState::EnterIdentifier => "[Google Login] Failed to enter email: ",
        FlowState::AdvancePastIdentifier => "[Google Login] Failed to click next button: ",
        FlowState::EnterSecret => "[Google Login] Failed to enter password: ",
        FlowState::AdvancePastSecret => "[Google Login] Failed to click password next button: ",
        FlowState::EnterRecoveryIdentifier => "[Google Login] Failed to enter recovery email: ",
        FlowState::AdvancePastRecovery => "[Google Login] Failed to click recovery next button: ",
        FlowState::NavigateToTargetLogin => "[Growtopia] Failed to navigate to Growtopia login: ",
        _ => "[Google Login] Failed: ",
    }
}

/// The description of an outcome of `state` that is no success.
pub fn describe_failure(state: FlowState, outcome: &StepOutcome) -> (message: String)
    ensures
        message@ == failure_message(state, outcome@),
{
    match outcome {
        StepOutcome::Failed(detail) => failure_prefix_of(state).to_owned().concat(detail.as_str()),
        _ => match state {
            FlowState::EnterIdentifier => "[Google Login] Email input not found".to_owned(),
            FlowState::EnterSecret => "[Google Login] Password input not found".to_owned(),
            _ => failure_prefix_of(state).to_owned().concat("element not found"),
        },
    }
}

/// Where `outcome` leads from `state`.
pub fn advance(state: FlowState, outcome: &StepOutcome, has_recovery: bool) -> (step: Transition)
    ensures
        step@ == transition(state, outcome@, has_recovery),
{
    let completed = match outcome {
        StepOutcome::Completed => true,
        _ => false,
    };
    if required(state) && !completed {
        Transition::Abort { error: describe_failure(state, outcome) }
    } else {
        Transition::Proceed {
            next: next_state(state, has_recovery),
            wait_seconds: settle_seconds(state, outcome),
        }
    }
}

/// Every state but the last leads to one with fewer states left, so a run
/// ends after at most ten steps.
pub proof fn lemma_run_shortens(state: FlowState, has_recovery: bool)
    requires
        !(state is Done),
    ensures
        states_left(successor(state, has_recovery)) < states_left(state),
{
}

/// A step that is not required never ends the attempt, whatever its outcome.
pub proof fn lemma_optional_step_proceeds(state: FlowState, outcome: OutcomeText, has_recovery: bool)
    requires
        !is_required(state),
    ensures
        transition(state, outcome, has_recovery) is Proceed,
{
}

/// Where the provider's page loads and the identifier's input is missing, the
/// run ends with the description of that step, whatever else would happen.
pub proof fn lemma_missing_identifier_ends_run(
    has_recovery: bool,
    outcomes: spec_fn(FlowState) -> OutcomeText,
)
    requires
        outcomes(FlowState::NavigateToProvider) is Completed,
        outcomes(FlowState::EnterIdentifier) is ElementNotFound,
    ensures
        run_from(FlowState::Start, has_recovery, outcomes) == Err::<(), Seq<char>>(
            "[Google Login] Email input not found"@,
        ),
{
    reveal_with_fuel(run_from, 4);
}

/// Where every required step completes, the run ends with success, whatever
/// becomes of the steps that are not required.
pub proof fn lemma_required_steps_suffice(
    has_recovery: bool,
    outcomes: spec_fn(FlowState) -> OutcomeText,
)
    requires
        forall|state: FlowState| is_required(state) ==> #[trigger] outcomes(state) is Completed,
    ensures
        run_from(FlowState::Start, has_recovery, outcomes) == Ok::<(), Seq<char>>(()),
{
    reveal_with_fuel(run_from, 12);
}

} // verus!
