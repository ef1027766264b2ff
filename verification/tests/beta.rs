use haven_api::beta::{
    is_acceptable, mail_body, normalize_email, request_beta_code, sender_address,
    BetaCodeRequest, BetaConfig, BetaOp, BetaPhase, BetaReply, BetaSession, BetaStep,
    GENERIC_ANSWER, MAIL_HEAD, MAIL_MIDDLE, MAIL_SUBJECT, MAIL_TAIL, MAX_EMAIL_BYTES,
};
use haven_api::errors::{AppError, ErrorKind};

const A_AT_B_DIGEST: &str = "7508d8b5018ea640b85269861a101203f0c26900555268e930025dac844b0f35";

fn beta_config() -> BetaConfig {
    BetaConfig { smtp_enabled: true, beta_code_limit: 100, beta_code_expiry_days: 14 }
}

struct BetaWorld {
    known: bool,
    issued: i64,
    fail_at: Option<usize>,
}

struct BetaTrace {
    ops: Vec<BetaOp>,
    result: Result<(bool, String), AppError>,
}

fn drive_beta(config: BetaConfig, world: &BetaWorld, email: &str) -> BetaTrace {
    let mut session = BetaSession::new(config, &BetaCodeRequest { email: email.to_string() });
    let mut reply = BetaReply::Ready;
    let mut ops: Vec<BetaOp> = Vec::new();
    loop {
        let (next, step) = request_beta_code(session, reply);
        session = next;
        match step {
            BetaStep::Perform(op) => {
                reply = if world.fail_at == Some(ops.len()) {
                    BetaReply::Failed
                } else {
                    match &op {
                        BetaOp::CheckDuplicate { .. } => BetaReply::Exists(world.known),
                        BetaOp::CountCodes => BetaReply::Count(world.issued),
                        BetaOp::CreateInvite { .. } => BetaReply::Invite("HAVEN-1234".to_string()),
                        BetaOp::SendEmail { .. } => BetaReply::Done,
                    }
                };
                ops.push(op);
            }
            BetaStep::Finish(result) => {
                assert_eq!(session.phase(), BetaPhase::Closed);
                return BetaTrace { ops, result: result.map(|r| (r.success, r.message)) };
            }
        }
        assert!(ops.len() < 100);
    }
}

fn fresh_world() -> BetaWorld {
    BetaWorld { known: false, issued: 3, fail_at: None }
}

fn generic() -> Option<(bool, String)> {
    Some((true, GENERIC_ANSWER.to_string()))
}

#[test]
fn beta_normalizes_addresses() {
    assert_eq!(normalize_email("  Ada@Example.COM \n"), "ada@example.com");
    assert_eq!(normalize_email("\tÄ@B.de"), "ä@b.de");
    assert_eq!(normalize_email("   "), "");
    assert_eq!(normalize_email("a b@c"), "a b@c");
}

#[test]
fn beta_accepts_plausible_addresses_only() {
    assert_eq!(MAX_EMAIL_BYTES, 254);
    assert!(is_acceptable("a@b"));
    assert!(is_acceptable("@"));
    assert!(!is_acceptable(""));
    assert!(!is_acceptable("ab.example"));
    let local = "a".repeat(252);
    assert!(is_acceptable(&format!("{}@b", local)));
    assert!(!is_acceptable(&format!("{}@bc", local)));
    let wide = "ä".repeat(126);
    assert!(is_acceptable(&format!("{}@b", wide)));
    assert!(!is_acceptable(&format!("{}@bc", wide)));
}

#[test]
fn beta_sends_a_code_to_a_new_address() {
    let trace = drive_beta(beta_config(), &fresh_world(), " ABC@example.org ");
    assert_eq!(trace.result.ok(), generic());
    assert_eq!(trace.ops.len(), 4);
    let digest = match &trace.ops[0] {
        BetaOp::CheckDuplicate { email_hash } => email_hash.clone(),
        _ => panic!("the duplicate check comes first"),
    };
    assert_eq!(digest.len(), 64);
    assert!(digest.chars().all(|c| c.is_ascii_digit() || ('a'..='f').contains(&c)));
    assert!(matches!(trace.ops[1], BetaOp::CountCodes));
    match &trace.ops[2] {
        BetaOp::CreateInvite { expiry_days, email_hash } => {
            assert_eq!(*expiry_days, 14);
            assert_eq!(email_hash, &digest);
        }
        _ => panic!("the invite comes third"),
    }
    match &trace.ops[3] {
        BetaOp::SendEmail { to, code, expiry_days } => {
            assert_eq!(to, "abc@example.org");
            assert_eq!(code, "HAVEN-1234");
            assert_eq!(*expiry_days, 14);
        }
        _ => panic!("the mail comes last"),
    }
}

#[test]
fn beta_digest_is_sha256_of_the_normalized_address() {
    let digest_of = |email: &str| -> String {
        let trace = drive_beta(beta_config(), &fresh_world(), email);
        match &trace.ops[0] {
            BetaOp::CheckDuplicate { email_hash } => email_hash.clone(),
            _ => panic!("the duplicate check comes first"),
        }
    };
    assert_eq!(digest_of("a@b"), A_AT_B_DIGEST);
    assert_eq!(digest_of("  A@B  "), A_AT_B_DIGEST);
    assert_eq!(
        digest_of(" \u{c4}@B.de"),
        "bf7f3a3b1139d0a18d23119979ed81b795c458f5d3ba885e4d6f1478c9e0ef4f"
    );
    assert_ne!(digest_of("a@c"), A_AT_B_DIGEST);
}

#[test]
fn beta_answers_known_addresses_alike() {
    let mut world = fresh_world();
    world.known = true;
    let trace = drive_beta(beta_config(), &world, "ada@example.org");
    assert_eq!(trace.result.ok(), generic());
    assert_eq!(trace.ops.len(), 1);
}

#[test]
fn beta_answers_alike_when_no_slot_is_left() {
    let mut world = fresh_world();
    world.issued = 100;
    let trace = drive_beta(beta_config(), &world, "ada@example.org");
    assert_eq!(trace.result.ok(), generic());
    assert_eq!(trace.ops.len(), 2);

    world.issued = 99;
    let trace = drive_beta(beta_config(), &world, "ada@example.org");
    assert_eq!(trace.result.ok(), generic());
    assert_eq!(trace.ops.len(), 4);

    world.issued = 101;
    let trace = drive_beta(beta_config(), &world, "ada@example.org");
    assert_eq!(trace.ops.len(), 2);
}

#[test]
fn beta_is_unavailable_without_mail() {
    let mut config = beta_config();
    config.smtp_enabled = false;
    let trace = drive_beta(config, &fresh_world(), "ada@example.org");
    match trace.result {
        Err(e) => {
            assert_eq!(e.kind(), ErrorKind::BadRequest);
            assert_eq!(e.message(), "Beta signups are not currently available");
        }
        Ok(_) => panic!("a code was promised without a mailer"),
    }
    assert!(trace.ops.is_empty());
    let trace = drive_beta(config, &fresh_world(), "");
    assert_eq!(trace.result.err().map(|e| e.kind()), Some(ErrorKind::BadRequest));
}

#[test]
fn beta_refuses_implausible_addresses() {
    for email in ["", "   ", "ada.example.org", &format!("{}@b.c", "x".repeat(251))] {
        let trace = drive_beta(beta_config(), &fresh_world(), email);
        match trace.result {
            Err(e) => {
                assert_eq!(e.kind(), ErrorKind::Validation);
                assert_eq!(e.message(), "Invalid email address");
            }
            Ok(_) => panic!("{:?} was taken for an address", email),
        }
        assert!(trace.ops.is_empty());
    }
}

#[test]
fn beta_store_failure_is_internal_but_mail_failure_is_silent() {
    for failing in 0..3 {
        let mut world = fresh_world();
        world.fail_at = Some(failing);
        let trace = drive_beta(beta_config(), &world, "ada@example.org");
        assert_eq!(trace.result.err().map(|e| e.kind()), Some(ErrorKind::Internal));
        assert_eq!(trace.ops.len(), failing + 1);
    }
    let mut world = fresh_world();
    world.fail_at = Some(3);
    let trace = drive_beta(beta_config(), &world, "ada@example.org");
    assert_eq!(trace.result.ok(), generic());
}

#[test]
fn beta_mail_body_carries_code_and_days() {
    let body = mail_body("HAVEN-1234", 14);
    assert_eq!(body, format!("{}HAVEN-1234{}14{}", MAIL_HEAD, MAIL_MIDDLE, MAIL_TAIL));
    assert!(body.starts_with("<!DOCTYPE html>\n<html>\n<body style=\"font-family"));
    assert!(body.contains("letter-spacing: 2px;\">HAVEN-1234</code>"));
    assert!(body.contains("This code expires in 14 days and can only be used once.</p>"));
    assert!(body.ends_with("Your email is not stored.</p>\n  </div>\n</body>\n</html>"));
    assert!(mail_body("", -3).contains("expires in -3 days"));
    assert_eq!(MAIL_SUBJECT, "Your Haven Beta Code");
}

#[test]
fn beta_sender_address_is_unquoted() {
    assert_eq!(sender_address("  \"Haven <no-reply@haven.example>\"  "), "Haven <no-reply@haven.example>");
    assert_eq!(sender_address("no-reply@haven.example"), "no-reply@haven.example");
    assert_eq!(sender_address("\"\"a\"\""), "a");
    assert_eq!(sender_address(" \" a \" "), " a ");
}
