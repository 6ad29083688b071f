use shorty_cgi::cgi_env::{CgiEnv, CgiEnvError, HttpVersion};
use shorty_cgi::meta::MetaVariableKind;

fn pairs(vars: &[(&str, &str)]) -> Vec<(String, String)> {
    vars.iter().map(|(k, v)| (k.to_string(), v.to_string())).collect()
}

fn default_vars() -> Vec<(String, String)> {
    pairs(&[
        ("PATH_INFO", "/path"),
        ("REQUEST_METHOD", "GET"),
        ("REQUEST_SCHEME", "http"),
        ("REQUEST_URI", "/test"),
        ("SERVER_NAME", "localhost"),
        ("SERVER_PROTOCOL", "HTTP/1.1"),
        ("HTTP_TEST_HEADER", "test_value"),
    ])
}

fn environ() -> CgiEnv {
    CgiEnv::new(default_vars())
}

fn without(name: &str) -> CgiEnv {
    CgiEnv::new(default_vars().into_iter().filter(|(k, _)| k != name).collect())
}

fn with(name: &str, value: &str) -> CgiEnv {
    let mut vars: Vec<(String, String)> =
        default_vars().into_iter().filter(|(k, _)| k != name).collect();
    vars.push((name.to_string(), value.to_string()));
    CgiEnv::new(vars)
}

#[test]
fn test_new_request_success() {
    let result = environ().new_request();
    assert!(result.is_ok());
    let req = result.unwrap();
    assert_eq!(req.method(), "GET");
    assert_eq!(req.uri(), "http://localhost/test");
    assert_eq!(req.version(), HttpVersion::Http11);
    assert_eq!(req.header("TEST-HEADER").unwrap(), "test_value");
    assert_eq!(req.path_info().as_str(), "/path");
}

#[test]
fn test_new_request_missing_env_vars() {
    let result = CgiEnv::new(Vec::new()).new_request();
    assert!(result.is_err());
}

#[test]
fn test_new_request_invalid_protocol() {
    let env = with("SERVER_PROTOCOL", "INVALID_PROTOCOL");
    let result = env.new_request();
    assert!(result.is_err());
}

#[test]
fn missing_variables_are_named() {
    for kind in [
        MetaVariableKind::ServerProtocol,
        MetaVariableKind::ServerName,
        MetaVariableKind::RequestUri,
        MetaVariableKind::RequestScheme,
        MetaVariableKind::RequestMethod,
    ] {
        let err = without(kind.name()).new_request().unwrap_err();
        assert_eq!(err, CgiEnvError::InvalidMetaVariable(kind));
    }
}

#[test]
fn empty_environment_names_the_protocol() {
    let err = CgiEnv::new(Vec::new()).new_request().unwrap_err();
    assert_eq!(err, CgiEnvError::InvalidMetaVariable(MetaVariableKind::ServerProtocol));
}

#[test]
fn every_known_protocol_is_accepted() {
    let cases = [
        ("HTTP/0.9", HttpVersion::Http09),
        ("HTTP/1.0", HttpVersion::Http10),
        ("HTTP/1.1", HttpVersion::Http11),
        ("HTTP/2.0", HttpVersion::Http2),
        ("HTTP/3.0", HttpVersion::Http3),
    ];
    for (text, version) in cases {
        let req = with("SERVER_PROTOCOL", text).new_request().unwrap();
        assert_eq!(req.version(), version);
    }
    for text in ["HTTP/1.2", "http/1.1", "", "HTTP/2"] {
        let err = with("SERVER_PROTOCOL", text).new_request().unwrap_err();
        assert_eq!(err, CgiEnvError::InvalidMetaVariable(MetaVariableKind::ServerProtocol));
    }
}

#[test]
fn header_from_http_variable() {
    let req = environ().new_request().unwrap();
    assert_eq!(req.header("test-header").unwrap(), "test_value");
    assert_eq!(req.headers().len(), 1);
    assert_eq!(req.headers()[0].0, "test-header");
}

#[test]
fn malformed_headers_are_dropped() {
    let mut vars = default_vars();
    vars.push(("HTTP_BAD NAME".to_string(), "x".to_string()));
    vars.push(("HTTP_BAD_VALUE".to_string(), "a\u{1}b".to_string()));
    vars.push(("HTTP_".to_string(), "empty name".to_string()));
    vars.push(("HTTP_ACCEPT".to_string(), "text/html".to_string()));
    let req = CgiEnv::new(vars).new_request().unwrap();
    let names: Vec<&str> = req.headers().iter().map(|(k, _)| k.as_str()).collect();
    assert_eq!(names, vec!["test-header", "accept"]);
    assert_eq!(req.header("Accept").unwrap(), "text/html");
    assert!(req.header("bad-value").is_none());
}

#[test]
fn path_info_defaults_to_empty() {
    let req = without("PATH_INFO").new_request().unwrap();
    assert_eq!(req.path_info().as_str(), "");
}

#[test]
fn invalid_url_is_reported() {
    let err = with("SERVER_NAME", "local host").new_request().unwrap_err();
    assert_eq!(err, CgiEnvError::InvalidUrl);
}

#[test]
fn invalid_method_is_an_http_error() {
    let err = with("REQUEST_METHOD", "GE T").new_request().unwrap_err();
    assert_eq!(err, CgiEnvError::HttpError);
}

#[test]
fn query_is_kept_in_the_uri() {
    let req = with("REQUEST_URI", "/abc?x=1").new_request().unwrap();
    assert_eq!(req.uri(), "http://localhost/abc?x=1");
}

#[test]
fn is_cgi_follows_gateway_interface() {
    assert!(!environ().is_cgi());
    assert!(with("GATEWAY_INTERFACE", "CGI/1.1").is_cgi());
}

#[test]
fn getenv_reads_meta_variables() {
    let env = environ();
    assert_eq!(env.getenv(MetaVariableKind::RequestUri).unwrap(), "/test");
    assert!(env.getenv(MetaVariableKind::RedirectStatus).is_none());
}

#[test]
fn cgi_vars_keeps_only_meta_variables() {
    let mut vars = default_vars();
    vars.push(("HOME".to_string(), "/root".to_string()));
    let env = CgiEnv::new(vars);
    let names: Vec<String> = env.cgi_vars().into_iter().map(|(k, _)| k).collect();
    assert_eq!(
        names,
        vec!["PATH_INFO", "REQUEST_METHOD", "REQUEST_SCHEME", "REQUEST_URI", "SERVER_NAME", "SERVER_PROTOCOL"]
    );
}

#[test]
fn meta_variable_names_round_trip() {
    let kinds = [
        MetaVariableKind::AuthType,
        MetaVariableKind::GatewayInterface,
        MetaVariableKind::RedirectStatus,
        MetaVariableKind::ContextDocumentRoot,
        MetaVariableKind::Tz,
        MetaVariableKind::UserName,
    ];
    let names = ["AUTH_TYPE", "GATEWAY_INTERFACE", "REDIRECT_STATUS", "CONTEXT_DOCUMENT_ROOT", "TZ", "USER_NAME"];
    for (kind, name) in kinds.iter().zip(names) {
        assert_eq!(kind.name(), name);
        assert_eq!(MetaVariableKind::from_name(name), Some(*kind));
    }
    assert_eq!(MetaVariableKind::from_name("HOME"), None);
    assert_eq!(MetaVariableKind::from_name("auth_type"), None);
}

#[test]
fn every_meta_variable_name_round_trips() {
    let all = [
        (MetaVariableKind::AuthType, "AUTH_TYPE"),
        (MetaVariableKind::ContentLength, "CONTENT_LENGTH"),
        (MetaVariableKind::ContentType, "CONTENT_TYPE"),
        (MetaVariableKind::GatewayInterface, "GATEWAY_INTERFACE"),
        (MetaVariableKind::PathInfo, "PATH_INFO"),
        (MetaVariableKind::PathTranslated, "PATH_TRANSLATED"),
        (MetaVariableKind::QueryString, "QUERY_STRING"),
        (MetaVariableKind::RemoteAddr, "REMOTE_ADDR"),
        (MetaVariableKind::RemoteHost, "REMOTE_HOST"),
        (MetaVariableKind::RemoteUser, "REMOTE_USER"),
        (MetaVariableKind::RequestIdent, "REQUEST_IDENT"),
        (MetaVariableKind::RequestMethod, "REQUEST_METHOD"),
        (MetaVariableKind::ScriptName, "SCRIPT_NAME"),
        (MetaVariableKind::ServerName, "SERVER_NAME"),
        (MetaVariableKind::ServerPort, "SERVER_PORT"),
        (MetaVariableKind::ServerProtocol, "SERVER_PROTOCOL"),
        (MetaVariableKind::ServerSoftware, "SERVER_SOFTWARE"),
        (MetaVariableKind::ContextDocumentRoot, "CONTEXT_DOCUMENT_ROOT"),
        (MetaVariableKind::ContextPrefix, "CONTEXT_PREFIX"),
        (MetaVariableKind::DateGmt, "DATE_GMT"),
        (MetaVariableKind::DateLocal, "DATE_LOCAL"),
        (MetaVariableKind::DocumentName, "DOCUMENT_NAME"),
        (MetaVariableKind::DocumentPathInfo, "DOCUMENT_PATH_INFO"),
        (MetaVariableKind::DocumentRoot, "DOCUMENT_ROOT"),
        (MetaVariableKind::DocumentUri, "DOCUMENT_URI"),
        (MetaVariableKind::Https, "HTTPS"),
        (MetaVariableKind::LastModified, "LAST_MODIFIED"),
        (MetaVariableKind::Path, "PATH"),
        (MetaVariableKind::QueryStringUnescaped, "QUERY_STRING_UNESCAPED"),
        (MetaVariableKind::RedirectErrorNotes, "REDIRECT_ERROR_NOTES"),
        (MetaVariableKind::RedirectHandler, "REDIRECT_HANDLER"),
        (MetaVariableKind::RedirectQueryString, "REDIRECT_QUERY_STRING"),
        (MetaVariableKind::RedirectRemoteUser, "REDIRECT_REMOTE_USER"),
        (MetaVariableKind::RedirectScriptFilename, "REDIRECT_SCRIPT_FILENAME"),
        (MetaVariableKind::RedirectStatus, "REDIRECT_STATUS"),
        (MetaVariableKind::RedirectUrl, "REDIRECT_URL"),
        (MetaVariableKind::RemoteIdent, "REMOTE_IDENT"),
        (MetaVariableKind::RemotePort, "REMOTE_PORT"),
        (MetaVariableKind::RequestScheme, "REQUEST_SCHEME"),
        (MetaVariableKind::RequestUri, "REQUEST_URI"),
        (MetaVariableKind::ScriptFilename, "SCRIPT_FILENAME"),
        (MetaVariableKind::ScriptUri, "SCRIPT_URI"),
        (MetaVariableKind::ScriptUrl, "SCRIPT_URL"),
        (MetaVariableKind::ServerAddr, "SERVER_ADDR"),
        (MetaVariableKind::ServerAdmin, "SERVER_ADMIN"),
        (MetaVariableKind::ServerSignature, "SERVER_SIGNATURE"),
        (MetaVariableKind::Tz, "TZ"),
        (MetaVariableKind::UniqueId, "UNIQUE_ID"),
        (MetaVariableKind::UserName, "USER_NAME"),
    ];
    for (kind, name) in all {
        assert_eq!(kind.name(), name);
        assert_eq!(MetaVariableKind::from_name(name), Some(kind));
    }
}
