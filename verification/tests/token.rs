use chat_server::error::ApiError;
use chat_server::token::auth_middleware;
use chat_server::token::bearer_token;
use chat_server::token::query_token;
use chat_server::token::ws_auth_middleware;

#[test]
fn a_bearer_header_carries_its_token() {
    assert_eq!(bearer_token("Bearer abc.def.ghi"), Some("abc.def.ghi"));
    assert_eq!(bearer_token("Bearer "), Some(""));
    assert_eq!(bearer_token("Bearer Bearer x"), Some("Bearer x"));
    assert_eq!(bearer_token("Bearer  x"), Some(" x"));
    assert_eq!(bearer_token("Bearer é日本"), Some("é日本"));
}

#[test]
fn any_other_header_carries_none() {
    assert_eq!(bearer_token(""), None);
    assert_eq!(bearer_token("Bearer"), None);
    assert_eq!(bearer_token("bearer abc"), None);
    assert_eq!(bearer_token("Basic abc"), None);
    assert_eq!(bearer_token(" Bearer abc"), None);
    assert_eq!(bearer_token("Bearerabc"), None);
}

#[test]
fn a_query_carries_its_token() {
    assert_eq!(query_token("token=abc"), Some("abc"));
    assert_eq!(query_token("a=1&token=abc"), Some("abc"));
    assert_eq!(query_token("a=1&token=abc&b=2"), Some("abc"));
    assert_eq!(query_token("token=abc&token=def"), Some("abc"));
    assert_eq!(query_token("&token=abc"), Some("abc"));
    assert_eq!(query_token("token="), Some(""));
    assert_eq!(query_token("token=&x=1"), Some(""));
    assert_eq!(query_token("token=a=b"), Some("a=b"));
    assert_eq!(query_token("é=日&token=本"), Some("本"));
}

#[test]
fn a_repeated_prefix_is_taken_off_as_often_as_it_stands() {
    assert_eq!(query_token("token=token=abc"), Some("abc"));
    assert_eq!(query_token("token=token=token="), Some(""));
    assert_eq!(query_token("token=token"), Some("token"));
    assert_eq!(query_token("token=xtoken=abc"), Some("xtoken=abc"));
}

#[test]
fn a_query_without_the_parameter_carries_none() {
    assert_eq!(query_token(""), None);
    assert_eq!(query_token("a=1"), None);
    assert_eq!(query_token("a=1&b=2"), None);
    assert_eq!(query_token("xtoken=abc"), None);
    assert_eq!(query_token("Token=abc"), None);
    assert_eq!(query_token("token"), None);
    assert_eq!(query_token("a=token=abc"), None);
    assert_eq!(query_token("&&"), None);
}

#[test]
fn the_query_is_read_as_the_standard_library_splits_it() {
    let samples = [
        "",
        "token=abc",
        "x&token=token=1&token=2",
        "a&&token=",
        "tok&token",
        "token=é&",
        "&token=token=token=x&y",
        "atoken=3&token=4",
    ];
    for query in samples {
        let expected = query
            .split('&')
            .find(|p| p.starts_with("token="))
            .map(|p| p.trim_start_matches("token="));
        assert_eq!(query_token(query), expected, "{:?}", query);
        let header = format!("Bearer {}", query);
        assert_eq!(bearer_token(&header), header.strip_prefix("Bearer "));
        assert_eq!(bearer_token(query), query.strip_prefix("Bearer "));
    }
}

#[test]
fn a_request_without_a_token_is_unauthorized() {
    assert_eq!(auth_middleware(None), Err(ApiError::Unauthorized));
    assert_eq!(auth_middleware(Some("Basic abc")), Err(ApiError::Unauthorized));
    assert_eq!(auth_middleware(Some("")), Err(ApiError::Unauthorized));
    assert_eq!(auth_middleware(Some("Bearer abc")), Ok("abc"));
    assert_eq!(ws_auth_middleware(None), Err(ApiError::Unauthorized));
    assert_eq!(ws_auth_middleware(Some("")), Err(ApiError::Unauthorized));
    assert_eq!(ws_auth_middleware(Some("room=7")), Err(ApiError::Unauthorized));
    assert_eq!(ws_auth_middleware(Some("room=7&token=abc")), Ok("abc"));
    assert_eq!(ApiError::Unauthorized.status_code(), 401);
}
