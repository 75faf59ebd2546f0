use catalyst::trace::{compose_revert_message, find_errors_from_trace, CallOutcome};

#[test]
fn no_error_entries_gives_none() {
    assert_eq!(find_errors_from_trace("GethTrace { gas: 21000, failed: false }"), None);
    assert_eq!(find_errors_from_trace(""), None);
}

#[test]
fn single_error_entry_is_reported() {
    let trace = "CallFrame { error: Some(\"execution reverted\"), gas: 10 }";
    assert_eq!(
        find_errors_from_trace(trace).unwrap(),
        ", errors from debug trace: error: Some(\"execution reverted\")"
    );
}

#[test]
fn several_entries_are_joined_in_order() {
    let trace = "a error: Some(x) b error: Some(y) c";
    assert_eq!(
        find_errors_from_trace(trace).unwrap(),
        ", errors from debug trace: error: Some(x), error: Some(y)"
    );
}

#[test]
fn entry_without_closing_paren_stops_the_scan() {
    let trace = "error: Some(first) then error: Some(unterminated";
    assert_eq!(
        find_errors_from_trace(trace).unwrap(),
        ", errors from debug trace: error: Some(first)"
    );
    assert_eq!(find_errors_from_trace("error: Some(open"), None);
}

#[test]
fn entry_ends_at_the_first_closing_paren() {
    let trace = "error: Some(Revert(0x08)) more";
    assert_eq!(
        find_errors_from_trace(trace).unwrap(),
        ", errors from debug trace: error: Some(Revert(0x08)"
    );
}

#[test]
fn non_ascii_text_is_handled() {
    let trace = "ü error: Some(é) ✓";
    assert_eq!(
        find_errors_from_trace(trace).unwrap(),
        ", errors from debug trace: error: Some(é)"
    );
}

#[test]
fn missing_transaction_message() {
    assert_eq!(compose_revert_message("0xabc", None, None), "Transaction 0xabc failed");
}

#[test]
fn failed_call_message_with_trace_errors() {
    let m = compose_revert_message(
        "0xabc",
        Some("x error: Some(boom) y"),
        Some(CallOutcome::Failed("execution reverted".to_string())),
    );
    assert_eq!(
        m,
        "Transaction 0xabc failed: execution reverted, errors from debug trace: error: Some(boom)"
    );
}

#[test]
fn returned_call_message_without_trace() {
    let m = compose_revert_message("0xabc", None, Some(CallOutcome::Returned("0x".to_string())));
    assert_eq!(m, "Transaction 0xabc failed: Unknown revert reason: 0x");
}
