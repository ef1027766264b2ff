//! Beta codes by e-mail.
//!
//! Anyone may ask for a beta code. The address they give is never stored: the
//! store sees only its digest, which is enough to hand out one code per
//! address. The answer is the same whether a code was sent or not, so that it
//! tells nothing about who asked before. The handler is a session like the
//! others: [`request_beta_code`] is told what the store answered and names the
//! next operation; what it decides is given by [`beta_transition`].

use vstd::prelude::*;
use vstd::string::*;
use vstd::utf8::encode_utf8;
use crate::errors::{AppError, ErrorKind};

verus! {

/// The longest address that is taken, in bytes.
pub const MAX_EMAIL_BYTES: usize = 254;

/// What every request that is not refused is answered with.
pub const GENERIC_ANSWER: &'static str = "If slots are available, you'll receive a code shortly.";

/// The subject of the mail that carries a code.
pub const MAIL_SUBJECT: &'static str = "Your Haven Beta Code";

/// The mail that carries a code, up to the code.
pub const MAIL_HEAD: &'static str =
    "<!DOCTYPE html>\n<html>\n<body style=\"font-family: -apple-system, BlinkMacSystemFont, 'Segoe UI', sans-serif; background: #F5F0E8; padding: 40px 20px;\">\n  <div style=\"max-width: 480px; margin: 0 auto; background: #fff; border-radius: 12px; padding: 40px; box-shadow: 0 2px 8px rgba(0,0,0,0.06);\">\n    <h1 style=\"color: #1A1310; font-size: 24px; margin: 0 0 8px;\">Welcome to Haven</h1>\n    <p style=\"color: #6F6358; margin: 0 0 24px;\">Your beta access code is below. Use it when registering at Haven.</p>\n    <div style=\"background: #F5F0E8; border: 1px solid #D1C8BA; border-radius: 8px; padding: 16px; text-align: center; margin: 0 0 24px;\">\n      <code style=\"font-size: 28px; font-weight: 700; color: #C2410C; letter-spacing: 2px;\">";

/// The mail that carries a code, between the code and the number of days.
pub const MAIL_MIDDLE: &'static str =
    "</code>\n    </div>\n    <p style=\"color: #8A7E73; font-size: 14px; margin: 0;\">This code expires in ";

/// The mail that carries a code, after the number of days.
pub const MAIL_TAIL: &'static str =
    " days and can only be used once.</p>\n    <hr style=\"border: none; border-top: 1px solid #D1C8BA; margin: 24px 0;\" />\n    <p style=\"color: #8A7E73; font-size: 12px; margin: 0;\">Haven &mdash; Privacy-first communication.<br/>This email was sent because someone requested a beta code. Your email is not stored.</p>\n  </div>\n</body>\n</html>";

/// A text without the white space around it, as `str::trim` of the standard
/// library cuts it.
pub uninterp spec fn trimmed(text: Seq<char>) -> Seq<char>;

/// A text in lower case, as `str::to_lowercase` of the standard library turns it.
pub uninterp spec fn lowercased(text: Seq<char>) -> Seq<char>;

/// A text without the given character at its ends, as `str::trim_matches` of
/// the standard library cuts it.
pub uninterp spec fn stripped(text: Seq<char>, c: char) -> Seq<char>;

/// The SHA-256 digest of a text's UTF-8 bytes in lower-case hexadecimal, as the
/// `sha2` crate computes it.
pub uninterp spec fn sha256_hex(text: Seq<char>) -> Seq<char>;

/// `str::trim` of the standard library: the text without leading and trailing
/// white space.
#[verifier::external_body]
fn trim_text(text: &str) -> (r: &str)
    ensures
        r@ == trimmed(text@),
{
    text.trim()
}

/// `str::to_lowercase` of the standard library: the text in lower case.
#[verifier::external_body]
fn lowercase_text(text: &str) -> (r: String)
    ensures
        r@ == lowercased(text@),
{
    text.to_lowercase()
}

/// `str::trim_matches` of the standard library with a character: the text
/// without that character at its ends.
#[verifier::external_body]
fn strip_text(text: &str, c: char) -> (r: &str)
    ensures
        r@ == stripped(text@, c),
{
    text.trim_matches(c)
}

/// `str::contains` of the standard library with a character: whether the
/// character occurs in the text.
#[verifier::external_body]
fn has_char(text: &str, c: char) -> (r: bool)
    ensures
        r == text@.contains(c),
{
    text.contains(c)
}

/// The `sha2` crate's `Sha256::digest` on the bytes of a text, written in
/// lower-case hexadecimal: 64 digits that depend on nothing but the text.
#[verifier::external_body]
fn hash_email(email: &str) -> (r: String)
    ensures
        r@ == sha256_hex(email@),
        r@.len() == 64,
{
    format!("{:x}", <sha2::Sha256 as sha2::Digest>::digest(email.as_bytes()))
}

/// The address that a request means: what was sent, without the white space
/// around it, in lower case.
pub open spec fn normalized(raw: Seq<char>) -> Seq<char> {
    lowercased(trimmed(raw))
}

/// Whether an address is taken: it is not empty, has an `@` in it, and is at
/// most 254 bytes long. No more is asked; the mail will tell.
pub open spec fn acceptable(email: Seq<char>) -> bool {
    &&& email.len() > 0
    &&& email.contains('@')
    &&& encode_utf8(email).len() <= MAX_EMAIL_BYTES
}

/// The address that a request means.
pub fn normalize_email(raw: &str) -> (r: String)
    ensures
        r@ == normalized(raw@),
{
    lowercase_text(trim_text(raw))
}

/// Whether an address is taken.
pub fn is_acceptable(email: &str) -> (r: bool)
    ensures
        r == acceptable(email@),
{
    !email.is_empty() && has_char(email, '@') && email.as_bytes().len() <= MAX_EMAIL_BYTES
}

/// The address that mail is sent from: the configured one without the white
/// space and the double quotes around it.
pub fn sender_address(configured: &str) -> (r: &str)
    ensures
        r@ == stripped(trimmed(configured@), '"'),
{
    strip_text(trim_text(configured), '"')
}

/// The body of the mail that carries `code`: the page around the code and the
/// number of days that the code is good for, written as the standard library
/// writes a number.
pub fn mail_body(code: &str, expiry_days: i64) -> (r: String)
    ensures
        exists|days: String| #[trigger]
            to_string_from_display_ensures::<i64>(&expiry_days, days) && r@ == MAIL_HEAD@ + code@
                + MAIL_MIDDLE@ + days@ + MAIL_TAIL@,
{
    let days = expiry_days.to_string();
    let body = String::from_str(MAIL_HEAD).concat(code).concat(MAIL_MIDDLE).concat(
        days.as_str(),
    ).concat(MAIL_TAIL);
    body
}

/// What the deployment allows.
#[derive(Clone, Copy, PartialEq, Eq, Structural, Debug)]
pub struct BetaConfig {
    /// Whether mail can be sent at all.
    pub smtp_enabled: bool,
    /// How many codes may be handed out in all.
    pub beta_code_limit: i64,
    /// For how many days a code is good.
    pub beta_code_expiry_days: i64,
}

/// A request for a beta code.
pub struct BetaCodeRequest {
    pub email: String,
}

/// The answer to a request for a beta code.
pub struct BetaCodeResponse {
    pub success: bool,
    pub message: String,
}

/// What a session is waiting for: the answer to the operation it named last.
#[derive(Clone, Copy, PartialEq, Eq, Structural, Debug)]
pub enum BetaPhase {
    /// Nothing was asked of the store yet.
    Idle,
    Duplicate,
    Count,
    Invite,
    Send,
    /// The result was handed out.
    Closed,
}

/// An operation for the persistent store or the mailer.
pub enum BetaOp {
    /// Was a code handed out for this digest before? Answered by `Exists`.
    CheckDuplicate { email_hash: String },
    /// How many codes were handed out? Answered by `Count`.
    CountCodes,
    /// Create an invite for this digest. Answered by `Invite` with its code.
    CreateInvite { expiry_days: i64, email_hash: String },
    /// Send the code to the address; not waited for, and failure is not told.
    SendEmail { to: String, code: String, expiry_days: i64 },
}

/// An operation for the persistent store or the mailer, as plain values.
pub enum BetaAction {
    CheckDuplicate { email_hash: Seq<char> },
    CountCodes,
    CreateInvite { expiry_days: i64, email_hash: Seq<char> },
    SendEmail { to: Seq<char>, code: Seq<char>, expiry_days: i64 },
}

impl View for BetaOp {
    type V = BetaAction;

    open spec fn view(&self) -> BetaAction {
        match *self {
            BetaOp::CheckDuplicate { email_hash } => BetaAction::CheckDuplicate {
                email_hash: email_hash@,
            },
            BetaOp::CountCodes => BetaAction::CountCodes,
            BetaOp::CreateInvite { expiry_days, email_hash } => BetaAction::CreateInvite {
                expiry_days,
                email_hash: email_hash@,
            },
            BetaOp::SendEmail { to, code, expiry_days } => BetaAction::SendEmail {
                to: to@,
                code: code@,
                expiry_days,
            },
        }
    }
}

/// What the store answered to the last operation.
pub enum BetaReply {
    /// The store is ready; starts the session.
    Ready,
    /// Whether a code was handed out for the digest before.
    Exists(bool),
    /// How many codes were handed out.
    Count(i64),
    /// The code of the invite that was created.
    Invite(String),
    /// The operation was carried out, or handed on.
    Done,
    /// The operation failed.
    Failed,
}

/// One move of a session.
pub enum BetaStep {
    /// The operation is to be carried out and reported back.
    Perform(BetaOp),
    /// The request is answered.
    Finish(Result<BetaCodeResponse, AppError>),
}

/// One move of a session, as plain values.
pub enum BetaOutcome {
    Perform(BetaAction),
    Answered { success: bool, message: Seq<char> },
    Failed(ErrorKind),
}

impl BetaStep {
    /// The move with its operation, response and error reduced to plain values.
    pub open spec fn outcome(self) -> BetaOutcome {
        match self {
            BetaStep::Perform(op) => BetaOutcome::Perform(op@),
            BetaStep::Finish(Ok(response)) => BetaOutcome::Answered {
                success: response.success,
                message: response.message@,
            },
            BetaStep::Finish(Err(e)) => BetaOutcome::Failed(e.kind_of()),
        }
    }
}

/// The state of a session, as plain values.
pub struct BetaState {
    pub config: BetaConfig,
    /// The address that the request means.
    pub email: Seq<char>,
    /// The digest of the address.
    pub email_hash: Seq<char>,
    pub phase: BetaPhase,
}

/// Whether `reply` is the answer that `phase` waits for.
pub open spec fn beta_accepts(phase: BetaPhase, reply: BetaReply) -> bool {
    match phase {
        BetaPhase::Idle => reply is Ready,
        BetaPhase::Duplicate => reply is Exists,
        BetaPhase::Count => reply is Count,
        BetaPhase::Invite => reply is Invite,
        BetaPhase::Send => true,
        BetaPhase::Closed => false,
    }
}

/// The session closes with an error.
pub open spec fn beta_fail(s: BetaState, kind: ErrorKind) -> (BetaState, BetaOutcome) {
    (BetaState { phase: BetaPhase::Closed, ..s }, BetaOutcome::Failed(kind))
}

/// The session closes with the one answer there is.
pub open spec fn beta_answer(s: BetaState) -> (BetaState, BetaOutcome) {
    (
        BetaState { phase: BetaPhase::Closed, ..s },
        BetaOutcome::Answered { success: true, message: GENERIC_ANSWER@ },
    )
}

/// What a session in state `s` does when the store answers `reply`.
pub open spec fn beta_transition(s: BetaState, reply: BetaReply) -> (BetaState, BetaOutcome) {
    if !beta_accepts(s.phase, reply) {
        beta_fail(s, ErrorKind::Internal)
    } else {
        match s.phase {
            BetaPhase::Idle => if !s.config.smtp_enabled {
                beta_fail(s, ErrorKind::BadRequest)
            } else if !acceptable(s.email) {
                beta_fail(s, ErrorKind::Validation)
            } else {
                (
                    BetaState { phase: BetaPhase::Duplicate, ..s },
                    BetaOutcome::Perform(BetaAction::CheckDuplicate { email_hash: s.email_hash }),
                )
            },
            BetaPhase::Duplicate => if reply->Exists_0 {
                beta_answer(s)
            } else {
                (
                    BetaState { phase: BetaPhase::Count, ..s },
                    BetaOutcome::Perform(BetaAction::CountCodes),
                )
            },
            BetaPhase::Count => if reply->Count_0 >= s.config.beta_code_limit {
                beta_answer(s)
            } else {
                (
                    BetaState { phase: BetaPhase::Invite, ..s },
                    BetaOutcome::Perform(
                        BetaAction::CreateInvite {
                            expiry_days: s.config.beta_code_expiry_days,
                            email_hash: s.email_hash,
                        },
                    ),
                )
            },
            BetaPhase::Invite => (
                BetaState { phase: BetaPhase::Send, ..s },
                BetaOutcome::Perform(
                    BetaAction::SendEmail {
                        to: s.email,
                        code: reply->Invite_0@,
                        expiry_days: s.config.beta_code_expiry_days,
                    },
                ),
            ),
            BetaPhase::Send => beta_answer(s),
            BetaPhase::Closed => beta_fail(s, ErrorKind::Internal),
        }
    }
}

/// The state of a session that has not asked anything yet.
pub open spec fn beta_initial(config: BetaConfig, request: BetaCodeRequest) -> BetaState {
    BetaState {
        config,
        email: normalized(request.email@),
        email_hash: sha256_hex(normalized(request.email@)),
        phase: BetaPhase::Idle,
    }
}

/// A request for a beta code under way.
pub struct BetaSession {
    config: BetaConfig,
    email: String,
    email_hash: String,
    phase: BetaPhase,
}

impl View for BetaSession {
    type V = BetaState;

    closed spec fn view(&self) -> BetaState {
        BetaState {
            config: self.config,
            email: self.email@,
            email_hash: self.email_hash@,
            phase: self.phase,
        }
    }
}

impl BetaSession {
    /// A session for `request` under `config`. The address is brought into its
    /// normal form and digested; nothing is asked of the store yet.
    pub fn new(config: BetaConfig, request: &BetaCodeRequest) -> (session: BetaSession)
        ensures
            session@ == beta_initial(config, *request),
    {
        let email = normalize_email(request.email.as_str());
        let email_hash = hash_email(email.as_str());
        BetaSession { config, email, email_hash, phase: BetaPhase::Idle }
    }

    /// What the session is waiting for.
    pub fn phase(&self) -> (phase: BetaPhase)
        ensures
            phase == self@.phase,
    {
        self.phase
    }

    /// Ends the session with an error.
    fn close(self, error: AppError) -> (r: (BetaSession, BetaStep))
        ensures
            (r.0@, r.1.outcome()) == beta_fail(self@, error.kind_of()),
    {
        let mut session = self;
        session.phase = BetaPhase::Closed;
        (session, BetaStep::Finish(Err(error)))
    }

    /// Ends the session with the one answer there is.
    fn answer(self) -> (r: (BetaSession, BetaStep))
        ensures
            (r.0@, r.1.outcome()) == beta_answer(self@),
    {
        let mut session = self;
        session.phase = BetaPhase::Closed;
        let response = BetaCodeResponse {
            success: true,
            message: String::from_str(GENERIC_ANSWER),
        };
        (session, BetaStep::Finish(Ok(response)))
    }
}

/// One move of a request for a beta code.
///
/// The session takes the store's answer to the operation it named last and
/// names the next one, or hands out the result: exactly what
/// [`beta_transition`] says for its state.
pub fn request_beta_code(session: BetaSession, reply: BetaReply) -> (r: (BetaSession, BetaStep))
    ensures
        (r.0@, r.1.outcome()) == beta_transition(session@, reply),
{
    let mut session = session;
    match (session.phase, reply) {
        (BetaPhase::Idle, BetaReply::Ready) => {
            if !session.config.smtp_enabled {
                session.close(AppError::bad_request("Beta signups are not currently available"))
            } else if !is_acceptable(session.email.as_str()) {
                session.close(AppError::validation("Invalid email address"))
            } else {
                let op = BetaOp::CheckDuplicate { email_hash: session.email_hash.clone() };
                session.phase = BetaPhase::Duplicate;
                (session, BetaStep::Perform(op))
            }
        },
        (BetaPhase::Duplicate, BetaReply::Exists(known)) => {
            if known {
                session.answer()
            } else {
                session.phase = BetaPhase::Count;
                (session, BetaStep::Perform(BetaOp::CountCodes))
            }
        },
        (BetaPhase::Count, BetaReply::Count(issued)) => {
            if issued >= session.config.beta_code_limit {
                session.answer()
            } else {
                let op = BetaOp::CreateInvite {
                    expiry_days: session.config.beta_code_expiry_days,
                    email_hash: session.email_hash.clone(),
                };
                session.phase = BetaPhase::Invite;
                (session, BetaStep::Perform(op))
            }
        },
        (BetaPhase::Invite, BetaReply::Invite(code)) => {
            let op = BetaOp::SendEmail {
                to: session.email.clone(),
                code,
                expiry_days: session.config.beta_code_expiry_days,
            };
            session.phase = BetaPhase::Send;
            (session, BetaStep::Perform(op))
        },
        (BetaPhase::Send, _) => session.answer(),
        (_, _) => session.close(AppError::internal("The store did not answer as expected")),
    }
}

/// The answer tells nothing. Whether the address was known, whether a slot was
/// left, whether the mail went out: every request that is answered at all is
/// answered with the same words.
pub proof fn law_one_answer(s: BetaState, reply: BetaReply)
    requires
        beta_transition(s, reply).1 is Answered,
    ensures
        beta_transition(s, reply).1 == (BetaOutcome::Answered {
            success: true,
            message: GENERIC_ANSWER@,
        }),
{
}

/// The mailer cannot fail a request: once the invite exists, the request is
/// answered whatever becomes of the mail.
pub proof fn law_mail_is_best_effort(s: BetaState, reply: BetaReply)
    requires
        s.phase is Send,
    ensures
        beta_transition(s, reply).1 is Answered,
{
}

/// The address goes nowhere but to the mailer: the store is asked about the
/// digest only, and only for an address that is taken.
pub proof fn law_store_sees_the_digest_only(s: BetaState, reply: BetaReply)
    ensures
        match beta_transition(s, reply).1 {
            BetaOutcome::Perform(BetaAction::CheckDuplicate { email_hash }) => {
                &&& email_hash == s.email_hash
                &&& acceptable(s.email)
                &&& s.config.smtp_enabled
            },
            BetaOutcome::Perform(BetaAction::CreateInvite { email_hash, expiry_days }) => {
                &&& email_hash == s.email_hash
                &&& expiry_days == s.config.beta_code_expiry_days
                &&& reply matches BetaReply::Count(issued)
                &&& issued < s.config.beta_code_limit
            },
            BetaOutcome::Perform(BetaAction::SendEmail { to, code, .. }) => {
                &&& to == s.email
                &&& reply matches BetaReply::Invite(sent)
                &&& code == sent@
            },
            _ => true,
        },
{
}

} // verus!
