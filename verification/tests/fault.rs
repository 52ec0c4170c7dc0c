use authgate::fault::{
    log_method_location, translate_to_response, wrap_with_location, ContextualError, Frame,
    INTERNAL_SERVER_ERROR,
};
use authgate::handlers::error_handler;

fn frame(operation: &str, file: &str, line: u32) -> Frame {
    Frame { operation: operation.to_string(), file: file.to_string(), line }
}

fn two_deep() -> ContextualError {
    let error = ContextualError::new("Failure in do_something_that_fails_2");
    let error = wrap_with_location(error, frame("do_something_that_fails_2", "src/main.rs", 199));
    wrap_with_location(error, frame("do_something_that_fails", "src/main.rs", 194))
}

#[test]
fn breadcrumb_names_operation_file_and_line() {
    assert_eq!(
        log_method_location("src/main.rs", 194, "do_something_that_fails"),
        "do_something_that_fails @ src/main.rs:194"
    );
    assert_eq!(log_method_location("", 0, ""), " @ :0");
    assert_eq!(log_method_location("a b.rs", u32::MAX, "f"), "f @ a b.rs:4294967295");
}

#[test]
fn new_failure_has_a_cause_and_no_call_site() {
    let error = ContextualError::new("disk full");
    assert_eq!(error.cause, "disk full");
    assert!(error.frames.is_empty());
    assert_eq!(error.root_cause(), "disk full");
}

#[test]
fn wrapping_appends_a_call_site_and_keeps_the_cause() {
    let error = two_deep();
    assert_eq!(error.root_cause(), "Failure in do_something_that_fails_2");
    assert_eq!(error.frames.len(), 2);
    assert_eq!(error.frames[0].operation, "do_something_that_fails_2");
    assert_eq!(error.frames[0].file, "src/main.rs");
    assert_eq!(error.frames[0].line, 199);
    assert_eq!(error.frames[1].operation, "do_something_that_fails");
    assert_eq!(error.frames[1].line, 194);
}

#[test]
fn translation_is_generic_and_logs_the_chain() {
    let response = translate_to_response(&two_deep());
    assert_eq!(response.status, 500);
    assert_eq!(response.status, INTERNAL_SERVER_ERROR);
    assert_eq!(response.message, "Internal Server Error");
    assert_eq!(
        response.diagnostic,
        vec![
            "do_something_that_fails @ src/main.rs:194".to_string(),
            "do_something_that_fails_2 @ src/main.rs:199".to_string(),
            "Failure in do_something_that_fails_2".to_string(),
        ]
    );
}

#[test]
fn translation_of_a_bare_failure_logs_the_cause() {
    let response = translate_to_response(&ContextualError::new("boom"));
    assert_eq!(response.status, 500);
    assert_eq!(response.message, "Internal Server Error");
    assert_eq!(response.diagnostic, vec!["boom".to_string()]);
}

#[test]
fn client_message_never_holds_internal_text() {
    let error = wrap_with_location(
        ContextualError::new("password=hunter2 at /etc/shadow"),
        frame("read_secrets", "/srv/app/src/secrets.rs", 12),
    );
    let response = translate_to_response(&error);
    assert_eq!(response.message, "Internal Server Error");
    assert!(!response.message.contains("hunter2"));
    assert!(!response.message.contains("secrets.rs"));
    assert!(!response.message.contains("read_secrets"));
}

#[test]
fn failed_operation_answers_500_with_the_generic_body() {
    let reply = error_handler(Err(two_deep()));
    assert_eq!(reply.status, 500);
    assert_eq!(reply.body, "Internal Server Error");
    assert_eq!(reply.diagnostic.len(), 3);
    assert!(reply.diagnostic.iter().any(|line| line == "do_something_that_fails @ src/main.rs:194"));
}

#[test]
fn successful_operation_answers_200_with_its_result() {
    let reply = error_handler(Ok("done".to_string()));
    assert_eq!(reply.status, 200);
    assert_eq!(reply.body, "done");
    assert!(reply.diagnostic.is_empty());
}
