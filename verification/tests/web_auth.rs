use std::cell::RefCell;

use pike::run::{apply_web_auth_setting, configure_web_auth};
use pike::PikeError;

#[test]
fn web_auth_config_enables_with_reset() {
    let picodata = "picodata";
    let sock = "/tmp/admin.sock";
    let captured: RefCell<Vec<String>> = RefCell::new(vec![]);

    let runner = |_: &str, _: &str, q: &str| -> Result<String, PikeError> {
        captured.borrow_mut().push(q.to_string());
        Ok(String::new())
    };

    configure_web_auth(picodata, sock, true, runner).unwrap();

    let calls = captured.borrow();
    assert_eq!(calls.len(), 1);
    assert!(
        calls[0].contains("ALTER SYSTEM RESET jwt_secret;"),
        "expected RESET query, got: {}",
        calls[0]
    );
}

#[test]
fn web_auth_config_clears_secret_when_disabled() {
    let picodata = "picodata";
    let sock = "/tmp/admin.sock";
    let captured: RefCell<Vec<String>> = RefCell::new(vec![]);

    let runner = |_: &str, _: &str, q: &str| -> Result<String, PikeError> {
        captured.borrow_mut().push(q.to_string());
        Ok(String::new())
    };

    configure_web_auth(picodata, sock, false, runner).unwrap();

    let calls = captured.borrow();
    assert_eq!(calls.len(), 1);
    assert!(
        calls[0].contains("ALTER SYSTEM SET jwt_secret = '';"),
        "expected query to clear secret, got: {}",
        calls[0]
    );
}

#[test]
fn web_auth_failure_is_wrapped_with_mode() {
    let runner = |_: &str, _: &str, _: &str| -> Result<String, PikeError> {
        Err(PikeError { msg: "console refused".to_string() })
    };
    let err = configure_web_auth("picodata", "/tmp/admin.sock", true, runner).unwrap_err();
    assert_eq!(
        err.msg,
        "failed to enable WebUI authentication (RESET jwt_secret): console refused"
    );
}

#[test]
fn web_auth_setting_needs_a_socket_but_tolerates_console_failure() {
    let failing = |_: &str, _: &str, _: &str| -> Result<String, PikeError> {
        Err(PikeError { msg: "console refused".to_string() })
    };
    let sock = "/tmp/admin.sock".to_string();
    // a console failure is only worth a warning
    assert!(apply_web_auth_setting("picodata", true, Some(&sock), failing).is_ok());
    // but with no reachable socket the setting cannot be applied at all
    let failing2 = |_: &str, _: &str, _: &str| -> Result<String, PikeError> {
        Err(PikeError { msg: "unused".to_string() })
    };
    assert!(apply_web_auth_setting("picodata", true, None, failing2).is_err());
}
