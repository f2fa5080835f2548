//! The page that the OAuth provider sends the browser back to.
//!
//! The page reads the query of its address, completes the login with the code that it finds
//! there, and then either redirects to the account page or says what went wrong. Until it knows
//! which, it shows a spinner. How the visit ended travels as one text: the empty text stands for
//! a completed login, any other text is the message to show.
use leptos_router::params::ParamsMap;
use vstd::prelude::*;
use vstd::string::*;

verus! {

/// Where the browser goes once the login is completed, and where the link on the failure page
/// leads.
pub const ACCOUNT_PATH: &'static str = "/account";

/// The heading of the failure page.
pub const FAILURE_HEADING: &'static str = "Login Failed";

/// The label of the link on the failure page.
pub const FAILURE_LINK_LABEL: &'static str = "Back to login";

/// A set of query parameters, as the router hands it out.
#[verifier::external_type_specification]
#[verifier::external_body]
pub struct ExParamsMap(ParamsMap);

/// What a set of query parameters holds: for each name that has a value, the value that was
/// added last.
pub uninterp spec fn latest_params(map: ParamsMap) -> Map<Seq<char>, Seq<char>>;

/// `ParamsMap::get` gives the most recently added value of the parameter `key`, and nothing
/// where the map has no value under that name.
pub assume_specification[ ParamsMap::get ](map: &ParamsMap, key: &str) -> (value: Option<String>)
    ensures
        value is Some <==> latest_params(*map).contains_key(key@),
        value matches Some(v) ==> v@ == latest_params(*map)[key@],
;

/// The value that a map gives for a name, if it has one.
pub open spec fn lookup(map: Map<Seq<char>, Seq<char>>, key: Seq<char>) -> Option<Seq<char>> {
    if map.contains_key(key) {
        Some(map[key])
    } else {
        None
    }
}

/// What the provider puts into the query of the callback address.
#[derive(Debug, Clone, PartialEq)]
pub struct CallbackQuery {
    /// The authorization code, where the user agreed.
    pub code: Option<String>,
    /// What went wrong, where the provider refused.
    pub error: Option<String>,
}

/// The mathematical reading of a [`CallbackQuery`].
pub struct CallbackQueryView {
    pub code: Option<Seq<char>>,
    pub error: Option<Seq<char>>,
}

impl View for CallbackQuery {
    type V = CallbackQueryView;

    open spec fn view(&self) -> CallbackQueryView {
        CallbackQueryView { code: self.code.deep_view(), error: self.error.deep_view() }
    }
}

/// What the page does after it has read its query.
#[derive(Debug, PartialEq)]
pub enum CallbackStep {
    /// There is nothing to wait for: the text is the page's result.
    Finished(String),
    /// The login has to be completed with this authorization code.
    CompleteLogin(String),
}

/// The mathematical reading of a [`CallbackStep`].
pub enum CallbackStepView {
    Finished(Seq<char>),
    CompleteLogin(Seq<char>),
}

impl View for CallbackStep {
    type V = CallbackStepView;

    open spec fn view(&self) -> CallbackStepView {
        match self {
            CallbackStep::Finished(text) => CallbackStepView::Finished(text@),
            CallbackStep::CompleteLogin(code) => CallbackStepView::CompleteLogin(code@),
        }
    }
}

/// How a visit of the callback page ends.
pub enum CallbackOutcome {
    /// The query could not be read.
    InvalidQuery,
    /// The provider reported this error.
    ProviderError(Seq<char>),
    /// The query holds neither an error nor a code.
    MissingCode,
    /// Completing the login failed with this error.
    LoginFailed(Seq<char>),
    /// The user is logged in.
    LoggedIn,
}

impl CallbackOutcome {
    /// The text that stands for the outcome.
    pub open spec fn text(self) -> Seq<char> {
        match self {
            CallbackOutcome::InvalidQuery => "Invalid callback parameters"@,
            CallbackOutcome::ProviderError(error) => "Login error: "@ + error,
            CallbackOutcome::MissingCode => "Missing authorization code"@,
            CallbackOutcome::LoginFailed(error) => "Failed to complete login: "@ + error,
            CallbackOutcome::LoggedIn => Seq::empty(),
        }
    }
}

/// The step that a query leads to; `None` is a query that could not be read.
pub open spec fn step_for(query: Option<CallbackQueryView>) -> CallbackStepView {
    match query {
        None => CallbackStepView::Finished(CallbackOutcome::InvalidQuery.text()),
        Some(q) => match (q.error, q.code) {
            (Some(error), _) => CallbackStepView::Finished(
                CallbackOutcome::ProviderError(error).text(),
            ),
            (None, Some(code)) => CallbackStepView::CompleteLogin(code),
            (None, None) => CallbackStepView::Finished(CallbackOutcome::MissingCode.text()),
        },
    }
}

/// How completing the login ended, read from the reply of the account service.
pub open spec fn login_outcome<T>(reply: Result<T, Seq<char>>) -> CallbackOutcome {
    match reply {
        Ok(_) => CallbackOutcome::LoggedIn,
        Err(error) => CallbackOutcome::LoginFailed(error),
    }
}

/// The result of a visit: `query` is what the page read, and `reply` is what the account
/// service answers if it is asked.
pub open spec fn visit_result<T>(
    query: Option<CallbackQueryView>,
    reply: Result<T, Seq<char>>,
) -> Seq<char> {
    match step_for(query) {
        CallbackStepView::Finished(text) => text,
        CallbackStepView::CompleteLogin(_) => login_outcome(reply).text(),
    }
}

/// The outcome of a visit, for the same arguments as [`visit_result`].
pub open spec fn visit_outcome<T>(
    query: Option<CallbackQueryView>,
    reply: Result<T, Seq<char>>,
) -> CallbackOutcome {
    match query {
        None => CallbackOutcome::InvalidQuery,
        Some(q) => if q.error is Some {
            CallbackOutcome::ProviderError(q.error->0)
        } else if q.code is None {
            CallbackOutcome::MissingCode
        } else {
            login_outcome(reply)
        },
    }
}

/// The result of a visit so far: `query` is what the page read, where it has read its query
/// (inside, `None` is a query that could not be read), and `reply` is what the account service
/// answered, where it has answered. `None` says that the result is not known yet.
pub open spec fn result_so_far<T>(
    query: Option<Option<CallbackQueryView>>,
    reply: Option<Result<T, Seq<char>>>,
) -> Option<Seq<char>> {
    match query {
        None => None,
        Some(read) => match (step_for(read), reply) {
            (CallbackStepView::Finished(text), _) => Some(text),
            (CallbackStepView::CompleteLogin(_), Some(r)) => Some(login_outcome(r).text()),
            (CallbackStepView::CompleteLogin(_), None) => None,
        },
    }
}

/// What the page shows.
#[derive(Debug, PartialEq)]
pub enum CallbackPage {
    /// The user waits.
    Spinner,
    /// The browser goes on to `path`.
    Redirect { path: String },
    /// The user reads what went wrong and can go back.
    LoginFailed { heading: String, message: String, link_path: String, link_label: String },
}

/// The mathematical reading of a [`CallbackPage`].
pub enum CallbackPageView {
    Spinner,
    Redirect { path: Seq<char> },
    LoginFailed {
        heading: Seq<char>,
        message: Seq<char>,
        link_path: Seq<char>,
        link_label: Seq<char>,
    },
}

impl View for CallbackPage {
    type V = CallbackPageView;

    open spec fn view(&self) -> CallbackPageView {
        match self {
            CallbackPage::Spinner => CallbackPageView::Spinner,
            CallbackPage::Redirect { path } => CallbackPageView::Redirect { path: path@ },
            CallbackPage::LoginFailed { heading, message, link_path, link_label } =>
                CallbackPageView::LoginFailed {
                    heading: heading@,
                    message: message@,
                    link_path: link_path@,
                    link_label: link_label@,
                },
        }
    }
}

/// The page for a result; `None` is a result that is not known yet.
pub open spec fn page_for(result: Option<Seq<char>>) -> CallbackPageView {
    match result {
        None => CallbackPageView::Spinner,
        Some(text) => if text.len() == 0 {
            CallbackPageView::Redirect { path: ACCOUNT_PATH@ }
        } else {
            CallbackPageView::LoginFailed {
                heading: FAILURE_HEADING@,
                message: text,
                link_path: ACCOUNT_PATH@,
                link_label: FAILURE_LINK_LABEL@,
            }
        },
    }
}

/// An error, known by its text alone.
pub open spec fn reply_view<T>(reply: Result<T, String>) -> Result<T, Seq<char>> {
    match reply {
        Ok(value) => Ok(value),
        Err(error) => Err(error@),
    }
}

impl CallbackQuery {
    /// Reads the query out of the address's parameters. Where a parameter occurs more than
    /// once, its last value counts; unknown parameters are ignored.
    pub fn from_map(map: &ParamsMap) -> (query: CallbackQuery)
        ensures
            query@.code == lookup(latest_params(*map), "code"@),
            query@.error == lookup(latest_params(*map), "error"@),
            query.code is Some <==> latest_params(*map).contains_key("code"@),
            query.code matches Some(code) ==> code@ == latest_params(*map)["code"@],
            query.error is Some <==> latest_params(*map).contains_key("error"@),
            query.error matches Some(error) ==> error@ == latest_params(*map)["error"@],
    {
        CallbackQuery { code: map.get("code"), error: map.get("error") }
    }
}

/// Decides what a query leads to. An error that the provider reports wins over a code; whatever
/// kept the query from being read is not looked at.
pub fn read_query<E>(query: Result<CallbackQuery, E>) -> (step: CallbackStep)
    ensures
        step@ == step_for(
            match query {
                Ok(q) => Some(q@),
                Err(_) => None,
            },
        ),
        query is Err ==> (step matches CallbackStep::Finished(text) && text@
            == "Invalid callback parameters"@),
        query matches Ok(q) ==> (q.error matches Some(error) ==> (
        step matches CallbackStep::Finished(text) && text@ == "Login error: "@ + error@)),
        query matches Ok(q) ==> (q.error is None && q.code is None ==> (
        step matches CallbackStep::Finished(text) && text@ == "Missing authorization code"@)),
        query matches Ok(q) ==> (q.error is None ==> (q.code matches Some(code) ==> (
        step matches CallbackStep::CompleteLogin(used) && used@ == code@))),
{
    let query = match query {
        Ok(q) => q,
        Err(_) => return CallbackStep::Finished("Invalid callback parameters".to_string()),
    };
    if let Some(error) = query.error {
        return CallbackStep::Finished("Login error: ".to_string().concat(error.as_str()));
    }
    match query.code {
        Some(code) => CallbackStep::CompleteLogin(code),
        None => CallbackStep::Finished("Missing authorization code".to_string()),
    }
}

/// Turns the account service's reply into the page's result.
pub fn login_result<T>(reply: Result<T, String>) -> (result: String)
    ensures
        result@ == login_outcome(reply_view(reply)).text(),
        reply is Ok ==> result@.len() == 0,
        reply matches Err(error) ==> result@ == "Failed to complete login: "@ + error@,
{
    match reply {
        Ok(_) => String::new(),
        Err(error) => "Failed to complete login: ".to_string().concat(error.as_str()),
    }
}

/// Decides what to show for a result; `None` is a result that is not known yet.
pub fn render(result: Option<String>) -> (page: CallbackPage)
    ensures
        page@ == page_for(result.deep_view()),
        result is None ==> page is Spinner,
        result matches Some(text) ==> (text@.len() == 0 ==> (page matches CallbackPage::Redirect {
            path,
        } && path@ == "/account"@)),
        result matches Some(text) ==> (text@.len() > 0 ==> (page matches CallbackPage::LoginFailed {
            heading,
            message,
            link_path,
            link_label,
        } && heading@ == "Login Failed"@ && message@ == text@ && link_path@ == "/account"@
            && link_label@ == "Back to login"@)),
{
    match result {
        None => CallbackPage::Spinner,
        Some(text) => if text.as_str().is_empty() {
            CallbackPage::Redirect { path: ACCOUNT_PATH.to_string() }
        } else {
            CallbackPage::LoginFailed {
                heading: FAILURE_HEADING.to_string(),
                message: text,
                link_path: ACCOUNT_PATH.to_string(),
                link_label: FAILURE_LINK_LABEL.to_string(),
            }
        },
    }
}

/// The text of an outcome is empty exactly for a completed login: no failure is mistaken for
/// success, whatever the error says.
pub proof fn only_success_is_silent(outcome: CallbackOutcome)
    ensures
        outcome.text().len() == 0 <==> outcome is LoggedIn,
{
    reveal_strlit("Invalid callback parameters");
    reveal_strlit("Login error: ");
    reveal_strlit("Missing authorization code");
    reveal_strlit("Failed to complete login: ");
}

/// Different outcomes have different texts: the user can tell from the message what went wrong,
/// and reads the reported error in full.
pub proof fn texts_tell_outcomes_apart(a: CallbackOutcome, b: CallbackOutcome)
    requires
        a.text() == b.text(),
    ensures
        a == b,
{
    reveal_strlit("Invalid callback parameters");
    reveal_strlit("Login error: ");
    reveal_strlit("Missing authorization code");
    reveal_strlit("Failed to complete login: ");
    only_success_is_silent(a);
    only_success_is_silent(b);
    if a !is LoggedIn {
        assert(a.text()[0] == first_char(a) && b.text()[0] == first_char(b));
    }
    match (a, b) {
        (CallbackOutcome::ProviderError(x), CallbackOutcome::ProviderError(y)) => {
            lemma_same_prefix("Login error: "@, x, y);
        },
        (CallbackOutcome::LoginFailed(x), CallbackOutcome::LoginFailed(y)) => {
            lemma_same_prefix("Failed to complete login: "@, x, y);
        },
        _ => {},
    }
}

spec fn first_char(outcome: CallbackOutcome) -> char {
    match outcome {
        CallbackOutcome::InvalidQuery => 'I',
        CallbackOutcome::ProviderError(_) => 'L',
        CallbackOutcome::MissingCode => 'M',
        _ => 'F',
    }
}

proof fn lemma_same_prefix(prefix: Seq<char>, x: Seq<char>, y: Seq<char>)
    requires
        prefix + x == prefix + y,
    ensures
        x == y,
{
    assert(x =~= (prefix + x).skip(prefix.len() as int));
    assert(y =~= (prefix + y).skip(prefix.len() as int));
}

/// The login is completed exactly when the query was read, reports no error and holds a code,
/// and it is completed with that code.
pub proof fn login_is_completed_with_the_code(query: Option<CallbackQueryView>, code: Seq<char>)
    ensures
        step_for(query) == CallbackStepView::CompleteLogin(code) <==> (query matches Some(q)
            && q.error is None && q.code == Some(code)),
{
}

/// An error that the provider reports decides the visit alone: neither a code beside it nor the
/// account service can change the result, and the login is not completed.
pub proof fn provider_error_decides<T>(
    query: CallbackQueryView,
    other_code: Option<Seq<char>>,
    reply: Result<T, Seq<char>>,
    other_reply: Result<T, Seq<char>>,
)
    requires
        query.error is Some,
    ensures
        step_for(Some(query)) is Finished,
        visit_result(Some(query), reply) == visit_result(
            Some(CallbackQueryView { code: other_code, ..query }),
            other_reply,
        ),
{
}

/// The result of a visit is the text of its outcome.
pub proof fn result_tells_the_outcome<T>(
    query: Option<CallbackQueryView>,
    reply: Result<T, Seq<char>>,
)
    ensures
        visit_result(query, reply) == visit_outcome(query, reply).text(),
{
}

/// The page redirects exactly when the account service was asked to complete the login and did;
/// in every other case it shows the failure's text.
pub proof fn redirect_means_logged_in<T>(
    query: Option<CallbackQueryView>,
    reply: Result<T, Seq<char>>,
)
    ensures
        page_for(Some(visit_result(query, reply))) is Redirect <==> (step_for(
            query,
        ) is CompleteLogin && reply is Ok),
        page_for(Some(visit_result(query, reply))) !is Redirect ==> (page_for(
            Some(visit_result(query, reply)),
        ) matches CallbackPageView::LoginFailed { message, .. } && message == visit_outcome(
            query,
            reply,
        ).text()),
{
    result_tells_the_outcome(query, reply);
    only_success_is_silent(visit_outcome(query, reply));
}

/// In every state of a visit the page shows exactly one of the spinner, the redirect to the
/// account page and the failure page. It shows the spinner exactly as long as the result is not
/// known: until the query is read and, where the login has to be completed, until the account
/// service has answered. It redirects only after that service has completed the login.
pub proof fn spinner_until_the_result_is_known<T>(
    query: Option<Option<CallbackQueryView>>,
    reply: Option<Result<T, Seq<char>>>,
)
    ensures
        ({
            let result = result_so_far(query, reply);
            let page = page_for(result);
            &&& page is Spinner <==> result is None
            &&& page is Spinner <==> (query is None || (step_for(query->0) is CompleteLogin
                && reply is None))
            &&& page is Redirect <==> (query is Some && step_for(query->0) is CompleteLogin
                && reply is Some && reply->0 is Ok)
            &&& page is Redirect ==> page == CallbackPageView::Redirect { path: ACCOUNT_PATH@ }
            &&& page is LoginFailed <==> (page !is Spinner && page !is Redirect)
            &&& page matches CallbackPageView::LoginFailed { heading, message, .. } ==> heading
                == FAILURE_HEADING@ && result == Some(message)
        }),
{
    if query is Some {
        match step_for(query->0) {
            CallbackStepView::Finished(_) => {
                only_success_is_silent(visit_outcome(query->0, Ok::<T, Seq<char>>(arbitrary())));
            },
            CallbackStepView::CompleteLogin(_) => if reply is Some {
                only_success_is_silent(login_outcome(reply->0));
            },
        }
    }
}

/// Once the result is known it stays: it is the result of the whole visit, whatever the account
/// service would still answer.
pub proof fn known_result_is_final<T>(
    query: Option<CallbackQueryView>,
    reply: Option<Result<T, Seq<char>>>,
    later: Result<T, Seq<char>>,
)
    requires
        result_so_far(Some(query), reply) is Some,
        reply is Some ==> later == reply->0,
    ensures
        result_so_far(Some(query), reply) == Some(visit_result(query, later)),
        result_so_far(Some(query), Some(later)) == result_so_far(Some(query), reply),
{
}

/// Looking up a name gives a value exactly where the map has that value under the name, and gives
/// the whole of it.
pub proof fn lookup_finds_what_is_there(
    map: Map<Seq<char>, Seq<char>>,
    key: Seq<char>,
    value: Seq<char>,
)
    ensures
        lookup(map, key) == Some(value) <==> map.contains_key(key) && map[key] == value,
        lookup(map, key) is None <==> !map.contains_key(key),
{
}

/// A query that leads to no login ends the visit with a message that says why; an error that the
/// provider reported is quoted in it in full.
pub proof fn queries_end_with_their_message(query: Option<CallbackQueryView>)
    ensures
        query is None ==> step_for(query) == CallbackStepView::Finished(
            "Invalid callback parameters"@,
        ),
        query matches Some(q) ==> (q.error matches Some(error) ==> step_for(query)
            == CallbackStepView::Finished("Login error: "@ + error)),
        query matches Some(q) ==> (q.error is None && q.code is None ==> step_for(query)
            == CallbackStepView::Finished("Missing authorization code"@)),
{
}

/// The account service's reply ends a visit in silence where it completed the login, and otherwise
/// with a message that quotes its error in full.
pub proof fn replies_end_with_their_message<T>(
    query: Option<CallbackQueryView>,
    reply: Result<T, Seq<char>>,
)
    requires
        step_for(query) is CompleteLogin,
    ensures
        reply is Ok ==> visit_result(query, reply).len() == 0,
        reply matches Err(error) ==> visit_result(query, reply) == "Failed to complete login: "@
            + error,
{
}

/// What each result looks like: an unknown one is waited for, the empty one leads to the account
/// page, and any other text is shown as it is, with a way back.
pub proof fn results_have_their_page(result: Option<Seq<char>>)
    ensures
        result is None ==> page_for(result) is Spinner,
        result matches Some(text) ==> (text.len() == 0 ==> page_for(result)
            == CallbackPageView::Redirect { path: "/account"@ }),
        result matches Some(text) ==> (text.len() > 0 ==> page_for(result)
            == CallbackPageView::LoginFailed {
            heading: "Login Failed"@,
            message: text,
            link_path: "/account"@,
            link_label: "Back to login"@,
        }),
{
}

/// From the address to the account service: the login is completed exactly where the address has a
/// parameter `code` and none named `error`, and with the whole value of that parameter. Where it
/// has one named `error`, the whole value of that is shown.
pub proof fn parameters_decide_the_visit(params: Map<Seq<char>, Seq<char>>, code: Seq<char>)
    ensures
        ({
            let query = CallbackQueryView {
                code: lookup(params, "code"@),
                error: lookup(params, "error"@),
            };
            &&& step_for(Some(query)) == CallbackStepView::CompleteLogin(code) <==> (
            params.contains_key("code"@) && params["code"@] == code && !params.contains_key(
                "error"@,
            ))
            &&& params.contains_key("error"@) ==> step_for(Some(query))
                == CallbackStepView::Finished("Login error: "@ + params["error"@])
        }),
{
    lookup_finds_what_is_there(params, "code"@, code);
}

} // verus!
