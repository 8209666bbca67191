use labsweep::{
    contains, is_no_error_reply, parse_on_state, sentinel_parts, DrainStatus, ErrorQueueDrain,
};

#[test]
fn on_state_replies() {
    assert!(parse_on_state("ON"));
    assert!(parse_on_state("on"));
    assert!(parse_on_state("oN"));
    assert!(parse_on_state("1"));
    assert!(!parse_on_state("OFF"));
    assert!(!parse_on_state("0"));
    assert!(!parse_on_state(""));
    assert!(!parse_on_state("ONE"));
    assert!(!parse_on_state("11"));
}

#[test]
fn substring_search() {
    assert!(contains("-100,\"no error here\"", "no error"));
    assert!(contains("abc", ""));
    assert!(!contains("no erro", "no error"));
    assert!(!contains("", "x"));
}

#[test]
fn sentinel_from_parts() {
    assert!(sentinel_parts("0,\"No error\"", "0,\"no error\""));
    assert!(sentinel_parts("0", "x"));
    assert!(sentinel_parts("x", "-1, no error"));
    assert!(!sentinel_parts("+0", "+0"));
    assert!(!sentinel_parts("", "No Error"));
}

#[test]
fn no_error_sentinel() {
    assert!(is_no_error_reply("0,\"No error\""));
    assert!(is_no_error_reply("0"));
    assert!(is_no_error_reply("   0, ok"));
    assert!(is_no_error_reply("+0,\"NO ERROR\""));
    assert!(!is_no_error_reply("-113,\"Undefined header\""));
    assert!(!is_no_error_reply(""));
}

fn drain_all(replies: &[&str], limit: u64) -> ErrorQueueDrain {
    let mut drain = ErrorQueueDrain::new(limit);
    for reply in replies {
        if !drain.is_pending() {
            break;
        }
        drain.accept(reply.to_string());
    }
    drain
}

#[test]
fn drain_first_reply_sentinel_gives_nothing() {
    let drain = drain_all(&["0,\"No error\"", "-113,\"Undefined header\""], 10);
    assert_eq!(drain.status(), DrainStatus::Finished);
    assert!(drain.errors().is_empty());
}

#[test]
fn drain_collects_errors_in_order() {
    let drain = drain_all(
        &["-113,\"Undefined header\"", "-222,\"Data out of range\"", "0,\"No error\"", "-1,x"],
        10,
    );
    assert_eq!(drain.status(), DrainStatus::Finished);
    assert_eq!(
        drain.into_errors(),
        vec!["-113,\"Undefined header\"".to_string(), "-222,\"Data out of range\"".to_string()]
    );
}

#[test]
fn drain_gives_up_at_the_limit() {
    let drain = drain_all(&["-1,a", "-2,b", "-3,c", "0"], 2);
    assert_eq!(drain.status(), DrainStatus::Exhausted);
    assert_eq!(drain.errors(), &vec!["-1,a".to_string(), "-2,b".to_string()]);
    assert_eq!(ErrorQueueDrain::new(0).status(), DrainStatus::Exhausted);
}
