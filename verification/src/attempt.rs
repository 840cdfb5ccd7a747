//! How one login attempt is summed up once the script has run and the
//! background work has been stopped.

use vstd::prelude::*;
use crate::flow::{is_required, lemma_missing_identifier_ends_run, lemma_required_steps_suffice, run_from, FlowState, OutcomeText};
use crate::text::text_of;
use crate::identifiers::{generate_random_mac_address, generate_random_user_agent, is_mac_style, is_user_agent};

verus! {

/// The size of the queue between the browser's request announcements and
/// their reader. An announcement that finds the queue full is dropped.
pub const EVENT_QUEUE_CAPACITY: usize = 100;

/// The seconds that an attempt waits after the script, so that a late request
/// can still be read, before the background work is stopped.
pub const FINAL_SETTLE_SECONDS: u64 = 5;

/// What one login attempt ended with.
#[derive(Debug, Clone)]
pub struct LoginResult {
    pub success: bool,
    pub token: Option<String>,
    pub user_agent: Option<String>,
    pub mac_address: Option<String>,
    pub error: Option<String>,
}

/// A `LoginResult` with its texts as sequences.
pub struct ResultText {
    pub success: bool,
    pub token: Option<Seq<char>>,
    pub user_agent: Option<Seq<char>>,
    pub mac_address: Option<Seq<char>>,
    pub error: Option<Seq<char>>,
}

/// The text of what a script run reported.
pub open spec fn report_of(report: Result<(), String>) -> Result<(), Seq<char>> {
    match report {
        Ok(_) => Ok(()),
        Err(description) => Err(description@),
    }
}

impl View for LoginResult {
    type V = ResultText;

    open spec fn view(&self) -> ResultText {
        ResultText {
            success: self.success,
            token: text_of(self.token),
            user_agent: text_of(self.user_agent),
            mac_address: text_of(self.mac_address),
            error: text_of(self.error),
        }
    }
}

/// The error of an attempt whose script ran through without a token being
/// captured.
pub open spec fn no_token_message() -> Seq<char> {
    "Login successful but no token captured"@
}

/// The result with this error and nothing else.
pub open spec fn failure(error: Seq<char>) -> ResultText {
    ResultText { success: false, token: None, user_agent: None, mac_address: None, error: Some(error) }
}

/// The result of an attempt. A captured token makes it a success, with the
/// given browser signature and device identifier, whatever the script
/// reported. Without one, the script's failure is handed on as it is; where
/// the script reported none, the error says that no token was captured.
pub open spec fn verdict(
    captured: Option<Seq<char>>,
    report: Result<(), Seq<char>>,
    user_agent: Seq<char>,
    mac_address: Seq<char>,
) -> ResultText {
    match captured {
        Some(token) => ResultText {
            success: true,
            token: Some(token),
            user_agent: Some(user_agent),
            mac_address: Some(mac_address),
            error: None,
        },
        None => match report {
            Err(description) => failure(description),
            Ok(_) => failure(no_token_message()),
        },
    }
}

/// One of the three shapes that a result can have: a success with token,
/// signature and identifier and without error, or a failure with an error
/// and nothing else.
pub open spec fn is_well_formed(result: ResultText) -> bool {
    if result.success {
        result.token is Some && result.user_agent is Some && result.mac_address is Some
            && result.error is None
    } else {
        result.token is None && result.user_agent is None && result.mac_address is None
            && result.error is Some
    }
}

/// The result of an attempt that captured `captured`, whose script reported
/// `report`, with this browser signature and device identifier for a
/// success.
pub fn assemble_result(
    captured: Option<String>,
    report: Result<(), String>,
    user_agent: String,
    mac_address: String,
) -> (result: LoginResult)
    ensures
        result@ == verdict(text_of(captured), report_of(report), user_agent@, mac_address@),
{
    match captured {
        Some(token) => LoginResult {
            success: true,
            token: Some(token),
            user_agent: Some(user_agent),
            mac_address: Some(mac_address),
            error: None,
        },
        None => match report {
            Err(description) => failed_with(description),
            Ok(_) => failed_with("Login successful but no token captured".to_owned()),
        },
    }
}

/// The result with this error and nothing else.
pub fn failed_with(error: String) -> (result: LoginResult)
    ensures
        result@ == failure(error@),
{
    LoginResult { success: false, token: None, user_agent: None, mac_address: None, error: Some(error) }
}

/// The result of an attempt that captured `captured` and whose script
/// reported `report`. A success carries a browser signature and a MAC-style
/// device identifier that are drawn at random; a failure is the one that
/// `verdict` gives.
pub fn conclude(captured: Option<String>, report: Result<(), String>) -> (result: LoginResult)
    ensures
        is_well_formed(result@),
        match captured {
            Some(token) => {
                &&& result.success
                &&& result@.token == Some(token@)
                &&& result@.user_agent is Some && is_user_agent(result@.user_agent->0)
                &&& result@.mac_address is Some && is_mac_style(result@.mac_address->0)
                &&& result@.error is None
            },
            None => result@ == failure(
                match report {
                    Err(description) => description@,
                    Ok(_) => no_token_message(),
                },
            ),
        },
{
    match captured {
        Some(token) => {
            let user_agent = generate_random_user_agent();
            let mac_address = generate_random_mac_address();
            assemble_result(Some(token), report, user_agent, mac_address)
        },
        None => match report {
            Err(description) => failed_with(description),
            Ok(_) => failed_with("Login successful but no token captured".to_owned()),
        },
    }
}

/// Every result that `verdict` gives has one of the three shapes.
pub proof fn lemma_verdict_is_well_formed(
    captured: Option<Seq<char>>,
    report: Result<(), Seq<char>>,
    user_agent: Seq<char>,
    mac_address: Seq<char>,
)
    ensures
        is_well_formed(verdict(captured, report, user_agent, mac_address)),
        verdict(captured, report, user_agent, mac_address).success == captured.is_some(),
{
}

/// Without a captured token the result is a failure: the script's own where
/// it reported one, and the error that no token was captured where it did
/// not.
pub proof fn lemma_no_token_fails(
    report: Result<(), Seq<char>>,
    user_agent: Seq<char>,
    mac_address: Seq<char>,
)
    ensures
        !verdict(None, report, user_agent, mac_address).success,
        verdict(None, report, user_agent, mac_address).error == Some(
            match report {
                Err(description) => description,
                Ok(_) => no_token_message(),
            },
        ),
{
}

/// Where the provider's page loads and the identifier's input is missing,
/// and no token was captured, the attempt fails with the description of that
/// step.
pub proof fn lemma_missing_identifier_fails_attempt(
    has_recovery: bool,
    outcomes: spec_fn(FlowState) -> OutcomeText,
    user_agent: Seq<char>,
    mac_address: Seq<char>,
)
    requires
        outcomes(FlowState::NavigateToProvider) is Completed,
        outcomes(FlowState::EnterIdentifier) is ElementNotFound,
    ensures
        verdict(
            None,
            run_from(FlowState::Start, has_recovery, outcomes),
            user_agent,
            mac_address,
        ) == failure("[Google Login] Email input not found"@),
{
    lemma_missing_identifier_ends_run(has_recovery, outcomes);
}

/// Where every required step completes and no token was captured, the
/// attempt fails with the error that no token was captured, whatever becomes
/// of the steps that are not required.
pub proof fn lemma_complete_run_without_token_fails(
    has_recovery: bool,
    outcomes: spec_fn(FlowState) -> OutcomeText,
    user_agent: Seq<char>,
    mac_address: Seq<char>,
)
    requires
        forall|state: FlowState| is_required(state) ==> #[trigger] outcomes(state) is Completed,
    ensures
        verdict(
            None,
            run_from(FlowState::Start, has_recovery, outcomes),
            user_agent,
            mac_address,
        ) == failure(no_token_message()),
{
    lemma_required_steps_suffice(has_recovery, outcomes);
}

} // verus!
