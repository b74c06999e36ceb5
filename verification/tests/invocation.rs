use invocation_bridge::bridge::{Bridge, ErrorKind, Phase};
use invocation_bridge::command::{Command, HandlerKind, ParamDecl};
use invocation_bridge::value::{ParamType, Value};

fn greet_command() -> Command {
    Command {
        name: "greet".to_string(),
        params: vec![
            ParamDecl { name: "name".to_string(), ty: ParamType::Str, required: true },
            ParamDecl { name: "title".to_string(), ty: ParamType::Str, required: false },
        ],
        handler: HandlerKind::Greet,
    }
}

fn sum_command() -> Command {
    Command {
        name: "sum".to_string(),
        params: vec![
            ParamDecl { name: "a".to_string(), ty: ParamType::Int, required: true },
            ParamDecl { name: "b".to_string(), ty: ParamType::Int, required: true },
        ],
        handler: HandlerKind::Sum,
    }
}

fn ready_bridge() -> Bridge {
    let mut b = Bridge::new();
    b.begin_registration();
    assert!(b.register(greet_command()).is_ok());
    assert!(b.register(sum_command()).is_ok());
    let (result, _) = b.startup(vec![]);
    assert!(result.is_ok());
    assert_eq!(b.phase(), Phase::Ready);
    b
}

fn str_arg(name: &str, v: &str) -> (String, Value) {
    (name.to_string(), Value::Str(v.to_string()))
}

fn int_arg(name: &str, v: i64) -> (String, Value) {
    (name.to_string(), Value::Int(v))
}

#[test]
fn greet_returns_the_formatted_greeting() {
    let b = ready_bridge();
    let resp = b.invoke("greet", &vec![str_arg("name", "Ada")], "t1".to_string());
    assert_eq!(resp.token, "t1");
    assert_eq!(
        resp.outcome,
        Ok(Value::Str("Hello, Ada! You've been greeted from Rust!".to_string()))
    );
}

#[test]
fn missing_required_parameter_returns_invalid_argument() {
    let b = ready_bridge();
    let resp = b.invoke("greet", &vec![], "t2".to_string());
    assert_eq!(resp.token, "t2");
    let err = resp.outcome.unwrap_err();
    assert_eq!(err.kind, ErrorKind::InvalidArgument);
    assert_eq!(err.message, "missing required parameter");
    assert_eq!(err.code, Some("name".to_string()));
}

#[test]
fn argument_of_the_wrong_type_returns_invalid_argument() {
    let b = ready_bridge();
    let resp = b.invoke("greet", &vec![int_arg("name", 3)], "t3".to_string());
    let err = resp.outcome.unwrap_err();
    assert_eq!(err.kind, ErrorKind::InvalidArgument);
    assert_eq!(err.message, "argument type mismatch");
    assert_eq!(err.code, Some("name".to_string()));
}

#[test]
fn absent_optional_parameter_still_validates() {
    let b = ready_bridge();
    let resp = b.invoke("greet", &vec![str_arg("name", "Grace")], "t4".to_string());
    assert_eq!(
        resp.outcome,
        Ok(Value::Str("Hello, Grace! You've been greeted from Rust!".to_string()))
    );
}

#[test]
fn unknown_command_returns_unknown_command() {
    let b = ready_bridge();
    let resp = b.invoke("open", &vec![], "t5".to_string());
    assert_eq!(resp.token, "t5");
    let err = resp.outcome.unwrap_err();
    assert_eq!(err.kind, ErrorKind::UnknownCommand);
}

#[test]
fn unknown_command_is_deterministic_across_calls() {
    let b = ready_bridge();
    let first = b.invoke("open", &vec![str_arg("x", "y")], "t6".to_string());
    let second = b.invoke("open", &vec![], "t6".to_string());
    assert_eq!(first, second);
}

#[test]
fn invoke_before_ready_returns_bridge_not_ready() {
    let mut b = Bridge::new();
    b.begin_registration();
    assert!(b.register(greet_command()).is_ok());
    let resp = b.invoke("greet", &vec![str_arg("name", "Ada")], "t7".to_string());
    let err = resp.outcome.unwrap_err();
    assert_eq!(err.kind, ErrorKind::BridgeNotReady);
}

#[test]
fn invoke_after_shutdown_returns_bridge_not_ready() {
    let mut b = ready_bridge();
    b.shutdown();
    let resp = b.invoke("greet", &vec![str_arg("name", "Ada")], "t8".to_string());
    let err = resp.outcome.unwrap_err();
    assert_eq!(err.kind, ErrorKind::BridgeNotReady);
}

#[test]
fn sum_returns_the_exact_sum() {
    let b = ready_bridge();
    let resp = b.invoke("sum", &vec![int_arg("a", 2), int_arg("b", 40)], "t9".to_string());
    assert_eq!(resp.outcome, Ok(Value::Int(42)));
}

#[test]
fn handler_failure_is_wrapped_as_handler_error() {
    let b = ready_bridge();
    let resp = b.invoke(
        "sum",
        &vec![int_arg("a", i64::MAX), int_arg("b", 1)],
        "t10".to_string(),
    );
    let err = resp.outcome.unwrap_err();
    assert_eq!(err.kind, ErrorKind::HandlerError);
    assert_eq!(err.message, "arithmetic overflow");
}

#[test]
fn first_binding_wins_when_a_name_repeats() {
    let b = ready_bridge();
    let resp = b.invoke(
        "greet",
        &vec![str_arg("name", "Ada"), str_arg("name", "Grace")],
        "t11".to_string(),
    );
    assert_eq!(
        resp.outcome,
        Ok(Value::Str("Hello, Ada! You've been greeted from Rust!".to_string()))
    );
}

#[test]
fn independent_invocations_each_answer_their_own_token() {
    let b = ready_bridge();
    let greet_resp = b.invoke("greet", &vec![str_arg("name", "Ada")], "tok-greet".to_string());
    let sum_resp = b.invoke("sum", &vec![int_arg("a", 1), int_arg("b", 2)], "tok-sum".to_string());
    assert_eq!(greet_resp.token, "tok-greet");
    assert_eq!(sum_resp.token, "tok-sum");
    assert!(greet_resp.outcome.is_ok());
    assert!(sum_resp.outcome.is_ok());

    // The same pair issued in the other order delivers the same responses.
    let sum_again = b.invoke("sum", &vec![int_arg("a", 1), int_arg("b", 2)], "tok-sum".to_string());
    let greet_again = b.invoke("greet", &vec![str_arg("name", "Ada")], "tok-greet".to_string());
    assert_eq!(greet_again, greet_resp);
    assert_eq!(sum_again, sum_resp);
}
