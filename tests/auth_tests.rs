use payme::auth::{
    ChangePasswordRequest, ChangeUsernameRequest, ClearDataRequest, LoginRequest,
    RegisterRequest,
};
use payme::error::PaymeError;

fn s(v: &str) -> String {
    v.to_string()
}

#[test]
fn login_request_bounds() {
    let ok = LoginRequest { username: s("bob"), password: s("secret") };
    assert_eq!(ok.validate(), Ok(()));
    let short_name = LoginRequest { username: s("ab"), password: s("password123") };
    assert_eq!(short_name.validate(), Err(PaymeError::Validation(s("username"))));
    let short_pw = LoginRequest { username: s("validuser"), password: s("12345") };
    assert_eq!(short_pw.validate(), Err(PaymeError::Validation(s("password"))));
    let long_name = LoginRequest { username: "x".repeat(33), password: s("password123") };
    assert_eq!(long_name.validate(), Err(PaymeError::Validation(s("username"))));
    let longest = LoginRequest { username: "x".repeat(32), password: "p".repeat(128) };
    assert_eq!(longest.validate(), Ok(()));
}

#[test]
fn lengths_count_characters_not_bytes() {
    let name = LoginRequest { username: s("été"), password: s("mötörhead") };
    assert_eq!(name.validate(), Ok(()));
    let wide = LoginRequest { username: "é".repeat(32), password: s("password") };
    assert_eq!(wide.validate(), Ok(()));
}

#[test]
fn register_request_checks_currency() {
    let ok = RegisterRequest { username: s("newuser"), password: s("password123"), currency: s("USD") };
    assert_eq!(ok.validate(), Ok(()));
    let empty = RegisterRequest { username: s("newuser"), password: s("password123"), currency: s("") };
    assert_eq!(empty.validate(), Err(PaymeError::Validation(s("currency"))));
    let long = RegisterRequest { username: s("newuser"), password: s("password123"), currency: s("EURO") };
    assert_eq!(long.validate(), Err(PaymeError::Validation(s("currency"))));
}

#[test]
fn account_change_requests() {
    assert_eq!(ChangeUsernameRequest { new_username: s("newusername") }.validate(), Ok(()));
    assert_eq!(
        ChangeUsernameRequest { new_username: s("no") }.validate(),
        Err(PaymeError::Validation(s("new_username")))
    );
    let pw = ChangePasswordRequest { current_password: s("password123"), new_password: s("newpassword456") };
    assert_eq!(pw.validate(), Ok(()));
    let bad = ChangePasswordRequest { current_password: s("password123"), new_password: s("short") };
    assert_eq!(bad.validate(), Err(PaymeError::Validation(s("new_password"))));
    assert_eq!(ClearDataRequest { password: s("password123") }.validate(), Ok(()));
    assert_eq!(
        ClearDataRequest { password: s("wrong") }.validate(),
        Err(PaymeError::Validation(s("password")))
    );
}
