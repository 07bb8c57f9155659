//! The login state machine. It decides, from the current state and what just
//! happened, the next state and what must be done next; whoever drives it
//! performs that action and reports back with the next event.
use vstd::prelude::*;
use vstd::string::StringExecFns;

verus! {

/// Where a login stands.
#[derive(Debug, Clone, Copy, PartialEq, Eq, Structural)]
pub enum AuthState {
    Unauthenticated,
    AwaitingCode,
    AwaitingPassword,
    Authenticated,
    Failed,
}

/// What happened since the last action.
pub enum AuthEvent {
    /// The stored session was probed; `authorized` if it is already signed in.
    SessionProbed { authorized: bool },
    /// The operator gave a phone number.
    PhoneEntered(String),
    /// The service sent a login code.
    CodeSent,
    /// The service refused to send a login code.
    CodeRequestFailed,
    /// The operator gave the code received.
    CodeEntered(String),
    /// The service accepted the code.
    SignedIn,
    /// The service accepted the code and asks for the account's password.
    PasswordRequired { hint: Option<String> },
    /// The service refused the code.
    SignInRejected,
    /// The operator gave a password, as typed.
    PasswordEntered(String),
    /// The service accepted the password.
    PasswordAccepted,
    /// The service refused the password.
    PasswordRejected,
    /// The new session was written to the session store, or could not be.
    SessionSaved { ok: bool },
}

/// What must be done next.
pub enum AuthAction {
    /// Ask the operator for a phone number.
    AskPhone,
    /// Ask the service to send a login code to this phone number.
    RequestCode(String),
    /// Ask the operator for the code received.
    AskCode,
    /// Submit this code to the service.
    SubmitCode(String),
    /// Ask the operator for the password, showing this hint.
    AskPassword { hint: String },
    /// Submit this password to the service.
    SubmitPassword(String),
    /// Write the session to the session store.
    SaveSession,
    /// The login is done: go on with the run.
    Proceed,
    /// The login failed: the run ends.
    Abort,
}

/// The hint shown when the service gives none.
pub const NO_HINT: &'static str = "None";

/// The text with the whitespace at both ends removed.
pub uninterp spec fn trimmed_of(s: Seq<char>) -> Seq<char>;

/// Relies on `str::trim`, which removes leading and trailing whitespace.
#[verifier::external_body]
fn trim_text(s: &str) -> (r: String)
    ensures
        r@ == trimmed_of(s@),
{
    s.trim().to_string()
}

/// The hint to show for the password: the service's, else the placeholder.
pub open spec fn hint_text(hint: Option<String>) -> Seq<char> {
    match hint {
        Some(h) => h@,
        None => NO_HINT@,
    }
}

/// The state after `e` in state `s`. An event that does not fit the state is
/// a failure.
pub open spec fn next_state(s: AuthState, e: AuthEvent) -> AuthState {
    match (s, e) {
        (AuthState::Unauthenticated, AuthEvent::SessionProbed { authorized }) => if authorized {
            AuthState::Authenticated
        } else {
            AuthState::Unauthenticated
        },
        (AuthState::Unauthenticated, AuthEvent::PhoneEntered(_)) => AuthState::Unauthenticated,
        (AuthState::Unauthenticated, AuthEvent::CodeSent) => AuthState::AwaitingCode,
        (AuthState::AwaitingCode, AuthEvent::CodeEntered(_)) => AuthState::AwaitingCode,
        (AuthState::AwaitingCode, AuthEvent::SignedIn) => AuthState::Authenticated,
        (AuthState::AwaitingCode, AuthEvent::PasswordRequired { .. }) => AuthState::AwaitingPassword,
        (AuthState::AwaitingPassword, AuthEvent::PasswordEntered(_)) => AuthState::AwaitingPassword,
        (AuthState::AwaitingPassword, AuthEvent::PasswordAccepted) => AuthState::Authenticated,
        (AuthState::Authenticated, AuthEvent::SessionSaved { .. }) => AuthState::Authenticated,
        _ => AuthState::Failed,
    }
}

/// Whether `a` is the action that follows `e` in state `s`.
pub open spec fn action_for(s: AuthState, e: AuthEvent, a: AuthAction) -> bool {
    match (s, e) {
        (AuthState::Unauthenticated, AuthEvent::SessionProbed { authorized }) => if authorized {
            a is Proceed
        } else {
            a is AskPhone
        },
        (AuthState::Unauthenticated, AuthEvent::PhoneEntered(p)) => a matches AuthAction::RequestCode(q)
            && q@ == p@,
        (AuthState::Unauthenticated, AuthEvent::CodeSent) => a is AskCode,
        (AuthState::AwaitingCode, AuthEvent::CodeEntered(c)) => a matches AuthAction::SubmitCode(q)
            && q@ == c@,
        (AuthState::AwaitingCode, AuthEvent::SignedIn) => a is SaveSession,
        (AuthState::AwaitingCode, AuthEvent::PasswordRequired { hint }) => a matches AuthAction::AskPassword {
            hint: h,
        } && h@ == hint_text(hint),
        (AuthState::AwaitingPassword, AuthEvent::PasswordEntered(p)) => a matches AuthAction::SubmitPassword(
            q,
        ) && q@ == trimmed_of(p@),
        (AuthState::AwaitingPassword, AuthEvent::PasswordAccepted) => a is SaveSession,
        (AuthState::Authenticated, AuthEvent::SessionSaved { .. }) => a is Proceed,
        _ => a is Abort,
    }
}

/// A login in progress, and whether the session must be signed out at the
/// end of the run because it could not be saved.
pub struct AuthMachine {
    pub state: AuthState,
    pub sign_out_at_end: bool,
}

impl AuthMachine {
    /// A login that starts by probing the stored session.
    pub fn new() -> (r: AuthMachine)
        ensures
            r.state == AuthState::Unauthenticated,
            !r.sign_out_at_end,
    {
        AuthMachine { state: AuthState::Unauthenticated, sign_out_at_end: false }
    }

    /// Takes in what happened and returns what must be done next. A session
    /// that could not be saved is marked to be signed out at the end of the
    /// run; nothing else changes that mark.
    pub fn step(&mut self, event: AuthEvent) -> (a: AuthAction)
        ensures
            final(self).state == next_state(old(self).state, event),
            action_for(old(self).state, event, a),
            final(self).sign_out_at_end == (match (old(self).state, event) {
                (AuthState::Authenticated, AuthEvent::SessionSaved { ok }) => !ok,
                _ => old(self).sign_out_at_end,
            }),
    {
        match (self.state, event) {
            (AuthState::Unauthenticated, AuthEvent::SessionProbed { authorized }) => {
                if authorized {
                    self.state = AuthState::Authenticated;
                    AuthAction::Proceed
                } else {
                    AuthAction::AskPhone
                }
            },
            (AuthState::Unauthenticated, AuthEvent::PhoneEntered(p)) => AuthAction::RequestCode(p),
            (AuthState::Unauthenticated, AuthEvent::CodeSent) => {
                self.state = AuthState::AwaitingCode;
                AuthAction::AskCode
            },
            (AuthState::AwaitingCode, AuthEvent::CodeEntered(c)) => AuthAction::SubmitCode(c),
            (AuthState::AwaitingCode, AuthEvent::SignedIn) => {
                self.state = AuthState::Authenticated;
                AuthAction::SaveSession
            },
            (AuthState::AwaitingCode, AuthEvent::PasswordRequired { hint }) => {
                self.state = AuthState::AwaitingPassword;
                let h = match hint {
                    Some(h) => h,
                    None => String::from_str(NO_HINT),
                };
                AuthAction::AskPassword { hint: h }
            },
            (AuthState::AwaitingPassword, AuthEvent::PasswordEntered(p)) => {
                AuthAction::SubmitPassword(trim_text(p.as_str()))
            },
            (AuthState::AwaitingPassword, AuthEvent::PasswordAccepted) => {
                self.state = AuthState::Authenticated;
                AuthAction::SaveSession
            },
            (AuthState::Authenticated, AuthEvent::SessionSaved { ok }) => {
                self.sign_out_at_end = !ok;
                AuthAction::Proceed
            },
            _ => {
                self.state = AuthState::Failed;
                AuthAction::Abort
            },
        }
    }

    /// Whether the session must be signed out at the end of the run.
    pub fn needs_sign_out(&self) -> (r: bool)
        ensures
            r == self.sign_out_at_end,
    {
        self.sign_out_at_end
    }
}

} // verus!
