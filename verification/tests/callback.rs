use leptos_router::params::ParamsMap;
use yral_auth::callback::{
    login_result, read_query, render, CallbackPage, CallbackQuery, CallbackStep,
};

fn query(code: Option<&str>, error: Option<&str>) -> CallbackQuery {
    CallbackQuery {
        code: code.map(|c| c.to_string()),
        error: error.map(|e| e.to_string()),
    }
}

fn read(code: Option<&str>, error: Option<&str>) -> CallbackStep {
    read_query(Ok::<CallbackQuery, ()>(query(code, error)))
}

fn finished(text: &str) -> CallbackStep {
    CallbackStep::Finished(text.to_string())
}

fn failure_page(message: &str) -> CallbackPage {
    CallbackPage::LoginFailed {
        heading: "Login Failed".to_string(),
        message: message.to_string(),
        link_path: "/account".to_string(),
        link_label: "Back to login".to_string(),
    }
}

#[test]
fn query_takes_code_and_error_from_the_parameters() {
    let mut map = ParamsMap::new();
    map.insert("state", "xyz".to_string());
    assert_eq!(CallbackQuery::from_map(&map), query(None, None));
    map.insert("code", "first".to_string());
    assert_eq!(CallbackQuery::from_map(&map), query(Some("first"), None));
    map.insert("error", "access_denied".to_string());
    assert_eq!(
        CallbackQuery::from_map(&map),
        query(Some("first"), Some("access_denied"))
    );
}

#[test]
fn last_value_of_a_repeated_parameter_counts() {
    let mut map = ParamsMap::new();
    map.insert("code", "first".to_string());
    map.insert("code", "second".to_string());
    assert_eq!(CallbackQuery::from_map(&map), query(Some("second"), None));
}

#[test]
fn removed_and_empty_parameters() {
    let mut map = ParamsMap::new();
    map.insert("error", String::new());
    assert_eq!(CallbackQuery::from_map(&map), query(None, Some("")));
    map.remove("error");
    assert_eq!(CallbackQuery::from_map(&map), query(None, None));
}

#[test]
fn unreadable_query() {
    assert_eq!(
        read_query(Err::<CallbackQuery, &str>("broken")),
        finished("Invalid callback parameters")
    );
}

#[test]
fn provider_error_is_reported() {
    assert_eq!(
        read(None, Some("access_denied")),
        finished("Login error: access_denied")
    );
}

#[test]
fn provider_error_wins_over_code() {
    assert_eq!(read(Some("abc"), Some("denied")), finished("Login error: denied"));
    assert_eq!(read(Some("abc"), Some("")), finished("Login error: "));
}

#[test]
fn missing_code() {
    assert_eq!(read(None, None), finished("Missing authorization code"));
}

#[test]
fn code_is_used_as_it_is() {
    assert_eq!(
        read(Some("4/0Ab c"), None),
        CallbackStep::CompleteLogin("4/0Ab c".to_string())
    );
    assert_eq!(read(Some(""), None), CallbackStep::CompleteLogin(String::new()));
}

#[test]
fn login_results() {
    assert_eq!(login_result(Ok::<(), String>(())), "");
    assert_eq!(
        login_result(Err::<(), String>("no such user".to_string())),
        "Failed to complete login: no such user"
    );
    assert_eq!(
        login_result(Err::<(), String>(String::new())),
        "Failed to complete login: "
    );
}

#[test]
fn spinner_until_there_is_a_result() {
    assert_eq!(render(None), CallbackPage::Spinner);
    assert_ne!(render(Some(String::new())), CallbackPage::Spinner);
    assert_ne!(
        render(Some(login_result(Err::<(), String>(String::new())))),
        CallbackPage::Spinner
    );
}

#[test]
fn empty_result_redirects() {
    assert_eq!(
        render(Some(String::new())),
        CallbackPage::Redirect { path: "/account".to_string() }
    );
}

#[test]
fn any_other_result_is_shown() {
    assert_eq!(
        render(Some("Missing authorization code".to_string())),
        failure_page("Missing authorization code")
    );
    assert_eq!(render(Some(" ".to_string())), failure_page(" "));
}

#[test]
fn only_a_completed_login_redirects() {
    let texts = vec![
        login_result(Err::<(), String>(String::new())),
        match read(None, Some("")) {
            CallbackStep::Finished(text) => text,
            CallbackStep::CompleteLogin(_) => panic!("the provider reported an error"),
        },
        match read(None, None) {
            CallbackStep::Finished(text) => text,
            CallbackStep::CompleteLogin(_) => panic!("there is no code"),
        },
        match read_query(Err::<CallbackQuery, ()>(())) {
            CallbackStep::Finished(text) => text,
            CallbackStep::CompleteLogin(_) => panic!("the query could not be read"),
        },
    ];
    for (i, text) in texts.iter().enumerate() {
        assert_eq!(render(Some(text.clone())), failure_page(text));
        for other in &texts[i + 1..] {
            assert_ne!(text, other);
        }
    }
}
