use ascending::gameloop::handledata::handle_account::{
    check_login, check_register, connection_deadline, decide_code_login, decide_name_login, error_loading_user, is_outdated,
    register_gate, CodeLogin, LoginCheck, NameLogin, RegisterCheck,
};
use ascending::containers::entity::player_data::{LoginHandShake, ReloginCode};
use ascending::gameloop::handledata::handle_account::{check_handshake, check_reconnect, decide_leave, LeaveGame};
use ascending::gametypes::error::AscendingError;
use ascending::identity::GlobalKey;
use ascending::time_ext::MyInstant;

#[test]
fn register_accepts_good_request() {
    let r = check_register(None, true, "bob", "secret", "bob@example.com", 2, 1, 1, 1, true);
    assert!(matches!(r, Ok(RegisterCheck::Proceed)));
}

#[test]
fn register_refuses_socket_with_entity() {
    let r = check_register(Some(GlobalKey(5)), true, "bob", "secret", "bob@example.com", 2, 1, 1, 1, true);
    assert!(matches!(r, Err(AscendingError::InvalidSocket)));
    let r = check_register(None, false, "bob", "secret", "bob@example.com", 2, 1, 1, 1, true);
    assert!(matches!(r, Err(AscendingError::InvalidSocket)));
}

#[test]
fn register_outdated_client() {
    assert!(is_outdated(0, 0, 0));
    assert!(!is_outdated(0, 1, 0));
    let r = check_register(None, true, "bob", "secret", "not an email", 9, 0, 0, 0, false);
    assert!(matches!(r, Ok(RegisterCheck::NeedsUpdate)));
}

#[test]
fn register_rules_in_order() {
    let long_name = "n".repeat(64);
    let long_pass = "p".repeat(128);
    assert_eq!(register_gate(false, &long_name, &long_pass, false, 9), RegisterCheck::BadCharacters);
    assert_eq!(register_gate(true, &long_name, &long_pass, false, 9), RegisterCheck::NameTooLong);
    assert_eq!(register_gate(true, "bob", &long_pass, false, 9), RegisterCheck::PasswordTooLong);
    assert_eq!(register_gate(true, "bob", "pw", false, 0), RegisterCheck::BadEmail);
    assert_eq!(register_gate(true, "bob", "pw", true, 6), RegisterCheck::BadEmail);
    assert_eq!(register_gate(true, &"n".repeat(63), &"p".repeat(127), true, 5), RegisterCheck::Proceed);
}

#[test]
fn register_checks_email_with_the_pattern() {
    let r = check_register(None, true, "bob", "pw", "Bob@Example.com", 0, 1, 1, 1, true);
    assert!(matches!(r, Ok(RegisterCheck::BadEmail)));
    let r = check_register(None, true, "bob", "pw", "a.b_c+d@mail.co.uk", 0, 1, 1, 1, true);
    assert!(matches!(r, Ok(RegisterCheck::Proceed)));
    let r = check_register(None, true, "bob", "pw", "nobody", 0, 1, 1, 1, true);
    assert!(matches!(r, Ok(RegisterCheck::BadEmail)));
}

#[test]
fn login_screening() {
    assert!(matches!(check_login(None, true, "bob", "pw", 1, 1, 1), Ok(LoginCheck::Proceed)));
    assert!(matches!(check_login(None, true, "bob", "pw", 0, 0, 0), Ok(LoginCheck::NeedsUpdate)));
    let long = "x".repeat(64);
    assert!(matches!(check_login(None, true, &long, "pw", 1, 1, 1), Ok(LoginCheck::BadCredentials)));
    let long_pw = "x".repeat(128);
    assert!(matches!(check_login(None, true, "bob", &long_pw, 1, 1, 1), Ok(LoginCheck::BadCredentials)));
    assert!(matches!(check_login(Some(GlobalKey(1)), true, "bob", "pw", 1, 1, 1), Err(AscendingError::InvalidSocket)));
}

fn codes(list: &[&str]) -> ReloginCode {
    ReloginCode { code: list.iter().map(|s| s.to_string()).collect() }
}

#[test]
fn relogin_by_code() {
    let held = codes(&["abc", "def"]);
    let code = "def".to_string();
    assert_eq!(decide_code_login(true, &held, &code, false), CodeLogin::Reconnect);
    assert_eq!(decide_code_login(false, &codes(&[]), &code, false), CodeLogin::DropStaleName);
    assert_eq!(decide_code_login(false, &held, &code, true), CodeLogin::ResendReconnect);
    assert_eq!(decide_code_login(false, &held, &code, false), CodeLogin::KickAndLogin);
    assert_eq!(decide_code_login(false, &held, &"zzz".to_string(), false), CodeLogin::Refuse);
    assert_eq!(decide_code_login(false, &held, &String::new(), false), CodeLogin::Refuse);
}

#[test]
fn relogin_by_name() {
    let held = codes(&["abc"]);
    assert_eq!(decide_name_login(&codes(&[]), &"abc".to_string()), NameLogin::DropStaleName);
    assert_eq!(decide_name_login(&held, &"abc".to_string()), NameLogin::KickOld);
    assert_eq!(decide_name_login(&held, &"abd".to_string()), NameLogin::Refuse);
}

#[test]
fn relogin_code_confirm_keeps_only_new_code() {
    let mut held = codes(&["a", "b", "c"]);
    let stale = held.confirm("b".to_string());
    assert_eq!(stale, vec!["a".to_string(), "c".to_string()]);
    assert_eq!(held.code, vec!["b".to_string()]);
    assert!(held.contains(&"b".to_string()));
    assert!(!held.contains(&"a".to_string()));
    assert!(!held.is_empty());
    assert!(ReloginCode::new().is_empty());
}

#[test]
fn new_connection_has_a_minute() {
    assert_eq!(connection_deadline(MyInstant(1000)).0, MyInstant(61000));
}

#[test]
fn refusal_notices() {
    assert_eq!(RegisterCheck::NeedsUpdate.info(), Some(("Client needs to be updated.", 1)));
    assert_eq!(RegisterCheck::BadCharacters.info(), Some(("Username or Password contains unaccepted Characters", 0)));
    assert_eq!(RegisterCheck::NameTooLong.info(), Some(("Username has too many Characters, 64 Characters Max", 0)));
    assert_eq!(RegisterCheck::PasswordTooLong.info(), Some(("Password has too many Characters, 128 Characters Max", 0)));
    assert_eq!(RegisterCheck::BadEmail.info(), Some(("Email must be an actual email.", 0)));
    assert_eq!(RegisterCheck::Proceed.info(), None);
    assert_eq!(LoginCheck::BadCredentials.info(), Some(("Account does not Exist or Password is not Correct.", 0)));
    assert_eq!(LoginCheck::NeedsUpdate.info(), Some(("Client needs to be updated.", 1)));
    assert_eq!(LoginCheck::Proceed.info(), None);
    assert_eq!(error_loading_user(), ("Error Loading User.", 1));
}

#[test]
fn handshakes_and_leaving() {
    let h = LoginHandShake { handshake: "xyz".to_string() };
    assert!(check_handshake(Some(&h), &"xyz".to_string()).is_ok());
    assert!(matches!(check_handshake(Some(&h), &"xy".to_string()), Err(AscendingError::InvalidSocket)));
    assert!(matches!(check_handshake(None, &"xyz".to_string()), Err(AscendingError::InvalidSocket)));
    assert_eq!(decide_leave(true), LeaveGame::WaitForTimeout);
    assert_eq!(decide_leave(false), LeaveGame::Detach);
    assert!(matches!(check_reconnect(Some(GlobalKey(4)), true, true, true), Ok(GlobalKey(4))));
    assert!(matches!(check_reconnect(Some(GlobalKey(4)), true, false, true), Err(AscendingError::InvalidSocket)));
    assert!(matches!(check_reconnect(None, true, true, true), Err(AscendingError::InvalidSocket)));
}
