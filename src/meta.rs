//! The closed set of CGI meta-variables (RFC 3875 section 4.1, plus the
//! variables Apache's suexec passes on) and their wire names.

use vstd::prelude::*;

use crate::text::str_eq;

verus! {

/// A recognised CGI meta-variable.
#[derive(Debug, Clone, Copy, PartialEq, Eq, Hash, Structural)]
pub enum MetaVariableKind {
    AuthType,
    ContentLength,
    ContentType,
    GatewayInterface,
    PathInfo,
    PathTranslated,
    QueryString,
    RemoteAddr,
    RemoteHost,
    RemoteUser,
    RequestIdent,
    RequestMethod,
    ScriptName,
    ServerName,
    ServerPort,
    ServerProtocol,
    ServerSoftware,
    // Apache suexec safe variables
    ContextDocumentRoot,
    ContextPrefix,
    DateGmt,
    DateLocal,
    DocumentName,
    DocumentPathInfo,
    DocumentRoot,
    DocumentUri,
    Https,
    LastModified,
    Path,
    QueryStringUnescaped,
    RedirectErrorNotes,
    RedirectHandler,
    RedirectQueryString,
    RedirectRemoteUser,
    RedirectScriptFilename,
    RedirectStatus,
    RedirectUrl,
    RemoteIdent,
    RemotePort,
    RequestScheme,
    RequestUri,
    ScriptFilename,
    ScriptUri,
    ScriptUrl,
    ServerAddr,
    ServerAdmin,
    ServerSignature,
    Tz,
    UniqueId,
    UserName,
}

/// The environment name of a meta-variable: its identifier in
/// SCREAMING_SNAKE_CASE.
pub open spec fn kind_name(k: MetaVariableKind) -> Seq<char> {
    match k {
        MetaVariableKind::AuthType => "AUTH_TYPE"@,
        MetaVariableKind::ContentLength => "CONTENT_LENGTH"@,
        MetaVariableKind::ContentType => "CONTENT_TYPE"@,
        MetaVariableKind::GatewayInterface => "GATEWAY_INTERFACE"@,
        MetaVariableKind::PathInfo => "PATH_INFO"@,
        MetaVariableKind::PathTranslated => "PATH_TRANSLATED"@,
        MetaVariableKind::QueryString => "QUERY_STRING"@,
        MetaVariableKind::RemoteAddr => "REMOTE_ADDR"@,
        MetaVariableKind::RemoteHost => "REMOTE_HOST"@,
        MetaVariableKind::RemoteUser => "REMOTE_USER"@,
        MetaVariableKind::RequestIdent => "REQUEST_IDENT"@,
        MetaVariableKind::RequestMethod => "REQUEST_METHOD"@,
        MetaVariableKind::ScriptName => "SCRIPT_NAME"@,
        MetaVariableKind::ServerName => "SERVER_NAME"@,
        MetaVariableKind::ServerPort => "SERVER_PORT"@,
        MetaVariableKind::ServerProtocol => "SERVER_PROTOCOL"@,
        MetaVariableKind::ServerSoftware => "SERVER_SOFTWARE"@,
        MetaVariableKind::ContextDocumentRoot => "CONTEXT_DOCUMENT_ROOT"@,
        MetaVariableKind::ContextPrefix => "CONTEXT_PREFIX"@,
        MetaVariableKind::DateGmt => "DATE_GMT"@,
        MetaVariableKind::DateLocal => "DATE_LOCAL"@,
        MetaVariableKind::DocumentName => "DOCUMENT_NAME"@,
        MetaVariableKind::DocumentPathInfo => "DOCUMENT_PATH_INFO"@,
        MetaVariableKind::DocumentRoot => "DOCUMENT_ROOT"@,
        MetaVariableKind::DocumentUri => "DOCUMENT_URI"@,
        MetaVariableKind::Https => "HTTPS"@,
        MetaVariableKind::LastModified => "LAST_MODIFIED"@,
        MetaVariableKind::Path => "PATH"@,
        MetaVariableKind::QueryStringUnescaped => "QUERY_STRING_UNESCAPED"@,
        MetaVariableKind::RedirectErrorNotes => "REDIRECT_ERROR_NOTES"@,
        MetaVariableKind::RedirectHandler => "REDIRECT_HANDLER"@,
        MetaVariableKind::RedirectQueryString => "REDIRECT_QUERY_STRING"@,
        MetaVariableKind::RedirectRemoteUser => "REDIRECT_REMOTE_USER"@,
        MetaVariableKind::RedirectScriptFilename => "REDIRECT_SCRIPT_FILENAME"@,
        MetaVariableKind::RedirectStatus => "REDIRECT_STATUS"@,
        MetaVariableKind::RedirectUrl => "REDIRECT_URL"@,
        MetaVariableKind::RemoteIdent => "REMOTE_IDENT"@,
        MetaVariableKind::RemotePort => "REMOTE_PORT"@,
        MetaVariableKind::RequestScheme => "REQUEST_SCHEME"@,
        MetaVariableKind::RequestUri => "REQUEST_URI"@,
        MetaVariableKind::ScriptFilename => "SCRIPT_FILENAME"@,
        MetaVariableKind::ScriptUri => "SCRIPT_URI"@,
        MetaVariableKind::ScriptUrl => "SCRIPT_URL"@,
        MetaVariableKind::ServerAddr => "SERVER_ADDR"@,
        MetaVariableKind::ServerAdmin => "SERVER_ADMIN"@,
        MetaVariableKind::ServerSignature => "SERVER_SIGNATURE"@,
        MetaVariableKind::Tz => "TZ"@,
        MetaVariableKind::UniqueId => "UNIQUE_ID"@,
        MetaVariableKind::UserName => "USER_NAME"@,
    }
}

impl MetaVariableKind {
    /// The environment name of this meta-variable.
    pub fn name(&self) -> (r: &'static str)
        ensures
            r@ == kind_name(*self),
    {
        match self {
            MetaVariableKind::AuthType => "AUTH_TYPE",
            MetaVariableKind::ContentLength => "CONTENT_LENGTH",
            MetaVariableKind::ContentType => "CONTENT_TYPE",
            MetaVariableKind::GatewayInterface => "GATEWAY_INTERFACE",
            MetaVariableKind::PathInfo => "PATH_INFO",
            MetaVariableKind::PathTranslated => "PATH_TRANSLATED",
            MetaVariableKind::QueryString => "QUERY_STRING",
            MetaVariableKind::RemoteAddr => "REMOTE_ADDR",
            MetaVariableKind::RemoteHost => "REMOTE_HOST",
            MetaVariableKind::RemoteUser => "REMOTE_USER",
            MetaVariableKind::RequestIdent => "REQUEST_IDENT",
            MetaVariableKind::RequestMethod => "REQUEST_METHOD",
            MetaVariableKind::ScriptName => "SCRIPT_NAME",
            MetaVariableKind::ServerName => "SERVER_NAME",
            MetaVariableKind::ServerPort => "SERVER_PORT",
            MetaVariableKind::ServerProtocol => "SERVER_PROTOCOL",
            MetaVariableKind::ServerSoftware => "SERVER_SOFTWARE",
            MetaVariableKind::ContextDocumentRoot => "CONTEXT_DOCUMENT_ROOT",
            MetaVariableKind::ContextPrefix => "CONTEXT_PREFIX",
            MetaVariableKind::DateGmt => "DATE_GMT",
            MetaVariableKind::DateLocal => "DATE_LOCAL",
            MetaVariableKind::DocumentName => "DOCUMENT_NAME",
            MetaVariableKind::DocumentPathInfo => "DOCUMENT_PATH_INFO",
            MetaVariableKind::DocumentRoot => "DOCUMENT_ROOT",
            MetaVariableKind::DocumentUri => "DOCUMENT_URI",
            MetaVariableKind::Https => "HTTPS",
            MetaVariableKind::LastModified => "LAST_MODIFIED",
            MetaVariableKind::Path => "PATH",
            MetaVariableKind::QueryStringUnescaped => "QUERY_STRING_UNESCAPED",
            MetaVariableKind::RedirectErrorNotes => "REDIRECT_ERROR_NOTES",
            MetaVariableKind::RedirectHandler => "REDIRECT_HANDLER",
            MetaVariableKind::RedirectQueryString => "REDIRECT_QUERY_STRING",
            MetaVariableKind::RedirectRemoteUser => "REDIRECT_REMOTE_USER",
            MetaVariableKind::RedirectScriptFilename => "REDIRECT_SCRIPT_FILENAME",
            MetaVariableKind::RedirectStatus => "REDIRECT_STATUS",
            MetaVariableKind::RedirectUrl => "REDIRECT_URL",
            MetaVariableKind::RemoteIdent => "REMOTE_IDENT",
            MetaVariableKind::RemotePort => "REMOTE_PORT",
            MetaVariableKind::RequestScheme => "REQUEST_SCHEME",
            MetaVariableKind::RequestUri => "REQUEST_URI",
            MetaVariableKind::ScriptFilename => "SCRIPT_FILENAME",
            MetaVariableKind::ScriptUri => "SCRIPT_URI",
            MetaVariableKind::ScriptUrl => "SCRIPT_URL",
            MetaVariableKind::ServerAddr => "SERVER_ADDR",
            MetaVariableKind::ServerAdmin => "SERVER_ADMIN",
            MetaVariableKind::ServerSignature => "SERVER_SIGNATURE",
            MetaVariableKind::Tz => "TZ",
            MetaVariableKind::UniqueId => "UNIQUE_ID",
            MetaVariableKind::UserName => "USER_NAME",
        }
    }

    /// Parses an environment name; any string outside the registry is
    /// refused.
    pub fn from_name(s: &str) -> (r: Option<MetaVariableKind>)
        ensures
            forall|k: MetaVariableKind| r == Some(k) <==> kind_name(k) == s@,
    {
        let r = if str_eq(s, "AUTH_TYPE") {
            Some(MetaVariableKind::AuthType)
        } else if str_eq(s, "CONTENT_LENGTH") {
            Some(MetaVariableKind::ContentLength)
        } else if str_eq(s, "CONTENT_TYPE") {
            Some(MetaVariableKind::ContentType)
        } else if str_eq(s, "GATEWAY_INTERFACE") {
            Some(MetaVariableKind::GatewayInterface)
        } else if str_eq(s, "PATH_INFO") {
            Some(MetaVariableKind::PathInfo)
        } else if str_eq(s, "PATH_TRANSLATED") {
            Some(MetaVariableKind::PathTranslated)
        } else if str_eq(s, "QUERY_STRING") {
            Some(MetaVariableKind::QueryString)
        } else if str_eq(s, "REMOTE_ADDR") {
            Some(MetaVariableKind::RemoteAddr)
        } else if str_eq(s, "REMOTE_HOST") {
            Some(MetaVariableKind::RemoteHost)
        } else if str_eq(s, "REMOTE_USER") {
            Some(MetaVariableKind::RemoteUser)
        } else if str_eq(s, "REQUEST_IDENT") {
            Some(MetaVariableKind::RequestIdent)
        } else if str_eq(s, "REQUEST_METHOD") {
            Some(MetaVariableKind::RequestMethod)
        } else if str_eq(s, "SCRIPT_NAME") {
            Some(MetaVariableKind::ScriptName)
        } else if str_eq(s, "SERVER_NAME") {
            Some(MetaVariableKind::ServerName)
        } else if str_eq(s, "SERVER_PORT") {
            Some(MetaVariableKind::ServerPort)
        } else if str_eq(s, "SERVER_PROTOCOL") {
            Some(MetaVariableKind::ServerProtocol)
        } else if str_eq(s, "SERVER_SOFTWARE") {
            Some(MetaVariableKind::ServerSoftware)
        } else if str_eq(s, "CONTEXT_DOCUMENT_ROOT") {
            Some(MetaVariableKind::ContextDocumentRoot)
        } else if str_eq(s, "CONTEXT_PREFIX") {
            Some(MetaVariableKind::ContextPrefix)
        } else if str_eq(s, "DATE_GMT") {
            Some(MetaVariableKind::DateGmt)
        } else if str_eq(s, "DATE_LOCAL") {
            Some(MetaVariableKind::DateLocal)
        } else if str_eq(s, "DOCUMENT_NAME") {
            Some(MetaVariableKind::DocumentName)
        } else if str_eq(s, "DOCUMENT_PATH_INFO") {
            Some(MetaVariableKind::DocumentPathInfo)
        } else if str_eq(s, "DOCUMENT_ROOT") {
            Some(MetaVariableKind::DocumentRoot)
        } else if str_eq(s, "DOCUMENT_URI") {
            Some(MetaVariableKind::DocumentUri)
        } else if str_eq(s, "HTTPS") {
            Some(MetaVariableKind::Https)
        } else if str_eq(s, "LAST_MODIFIED") {
            Some(MetaVariableKind::LastModified)
        } else if str_eq(s, "PATH") {
            Some(MetaVariableKind::Path)
        } else if str_eq(s, "QUERY_STRING_UNESCAPED") {
            Some(MetaVariableKind::QueryStringUnescaped)
        } else if str_eq(s, "REDIRECT_ERROR_NOTES") {
            Some(MetaVariableKind::RedirectErrorNotes)
        } else if str_eq(s, "REDIRECT_HANDLER") {
            Some(MetaVariableKind::RedirectHandler)
        } else if str_eq(s, "REDIRECT_QUERY_STRING") {
            Some(MetaVariableKind::RedirectQueryString)
        } else if str_eq(s, "REDIRECT_REMOTE_USER") {
            Some(MetaVariableKind::RedirectRemoteUser)
        } else if str_eq(s, "REDIRECT_SCRIPT_FILENAME") {
            Some(MetaVariableKind::RedirectScriptFilename)
        } else if str_eq(s, "REDIRECT_STATUS") {
            Some(MetaVariableKind::RedirectStatus)
        } else if str_eq(s, "REDIRECT_URL") {
            Some(MetaVariableKind::RedirectUrl)
        } else if str_eq(s, "REMOTE_IDENT") {
            Some(MetaVariableKind::RemoteIdent)
        } else if str_eq(s, "REMOTE_PORT") {
            Some(MetaVariableKind::RemotePort)
        } else if str_eq(s, "REQUEST_SCHEME") {
            Some(MetaVariableKind::RequestScheme)
        } else if str_eq(s, "REQUEST_URI") {
            Some(MetaVariableKind::RequestUri)
        } else if str_eq(s, "SCRIPT_FILENAME") {
            Some(MetaVariableKind::ScriptFilename)
        } else if str_eq(s, "SCRIPT_URI") {
            Some(MetaVariableKind::ScriptUri)
        } else if str_eq(s, "SCRIPT_URL") {
            Some(MetaVariableKind::ScriptUrl)
        } else if str_eq(s, "SERVER_ADDR") {
            Some(MetaVariableKind::ServerAddr)
        } else if str_eq(s, "SERVER_ADMIN") {
            Some(MetaVariableKind::ServerAdmin)
        } else if str_eq(s, "SERVER_SIGNATURE") {
            Some(MetaVariableKind::ServerSignature)
        } else if str_eq(s, "TZ") {
            Some(MetaVariableKind::Tz)
        } else if str_eq(s, "UNIQUE_ID") {
            Some(MetaVariableKind::UniqueId)
        } else if str_eq(s, "USER_NAME") {
            Some(MetaVariableKind::UserName)
        } else {
            None
        };
        proof {
            assert forall|k: MetaVariableKind| r == Some(k) <==> kind_name(k) == s@ by {
                if r is Some {
                    lemma_kind_name_injective(k, r->0);
                }
            }
        }
        r
    }
}

/// No two meta-variables share an environment name: together with
/// [`MetaVariableKind::from_name`], the names are a one-to-one mapping.
#[verifier::rlimit(100)]
pub proof fn lemma_kind_name_injective(a: MetaVariableKind, b: MetaVariableKind)
    ensures
        kind_name(a) == kind_name(b) ==> a == b,
{
    reveal_strlit("AUTH_TYPE");
    assert("AUTH_TYPE"@.len() == 9);
    reveal_strlit("CONTENT_LENGTH");
    assert("CONTENT_LENGTH"@.len() == 14);
    reveal_strlit("CONTENT_TYPE");
    assert("CONTENT_TYPE"@.len() == 12);
    reveal_strlit("GATEWAY_INTERFACE");
    assert("GATEWAY_INTERFACE"@.len() == 17);
    reveal_strlit("PATH_INFO");
    assert("PATH_INFO"@.len() == 9);
    reveal_strlit("PATH_TRANSLATED");
    assert("PATH_TRANSLATED"@.len() == 15);
    reveal_strlit("QUERY_STRING");
    assert("QUERY_STRING"@.len() == 12);
    reveal_strlit("REMOTE_ADDR");
    assert("REMOTE_ADDR"@.len() == 11);
    reveal_strlit("REMOTE_HOST");
    assert("REMOTE_HOST"@.len() == 11);
    reveal_strlit("REMOTE_USER");
    assert("REMOTE_USER"@.len() == 11);
    reveal_strlit("REQUEST_IDENT");
    assert("REQUEST_IDENT"@.len() == 13);
    reveal_strlit("REQUEST_METHOD");
    assert("REQUEST_METHOD"@.len() == 14);
    reveal_strlit("SCRIPT_NAME");
    assert("SCRIPT_NAME"@.len() == 11);
    reveal_strlit("SERVER_NAME");
    assert("SERVER_NAME"@.len() == 11);
    reveal_strlit("SERVER_PORT");
    assert("SERVER_PORT"@.len() == 11);
    reveal_strlit("SERVER_PROTOCOL");
    assert("SERVER_PROTOCOL"@.len() == 15);
    reveal_strlit("SERVER_SOFTWARE");
    assert("SERVER_SOFTWARE"@.len() == 15);
    reveal_strlit("CONTEXT_DOCUMENT_ROOT");
    assert("CONTEXT_DOCUMENT_ROOT"@.len() == 21);
    reveal_strlit("CONTEXT_PREFIX");
    assert("CONTEXT_PREFIX"@.len() == 14);
    reveal_strlit("DATE_GMT");
    assert("DATE_GMT"@.len() == 8);
    reveal_strlit("DATE_LOCAL");
    assert("DATE_LOCAL"@.len() == 10);
    reveal_strlit("DOCUMENT_NAME");
    assert("DOCUMENT_NAME"@.len() == 13);
    reveal_strlit("DOCUMENT_PATH_INFO");
    assert("DOCUMENT_PATH_INFO"@.len() == 18);
    reveal_strlit("DOCUMENT_ROOT");
    assert("DOCUMENT_ROOT"@.len() == 13);
    reveal_strlit("DOCUMENT_URI");
    assert("DOCUMENT_URI"@.len() == 12);
    reveal_strlit("HTTPS");
    assert("HTTPS"@.len() == 5);
    reveal_strlit("LAST_MODIFIED");
    assert("LAST_MODIFIED"@.len() == 13);
    reveal_strlit("PATH");
    assert("PATH"@.len() == 4);
    reveal_strlit("QUERY_STRING_UNESCAPED");
    assert("QUERY_STRING_UNESCAPED"@.len() == 22);
    reveal_strlit("REDIRECT_ERROR_NOTES");
    assert("REDIRECT_ERROR_NOTES"@.len() == 20);
    reveal_strlit("REDIRECT_HANDLER");
    assert("REDIRECT_HANDLER"@.len() == 16);
    reveal_strlit("REDIRECT_QUERY_STRING");
    assert("REDIRECT_QUERY_STRING"@.len() == 21);
    reveal_strlit("REDIRECT_REMOTE_USER");
    assert("REDIRECT_REMOTE_USER"@.len() == 20);
    reveal_strlit("REDIRECT_SCRIPT_FILENAME");
    assert("REDIRECT_SCRIPT_FILENAME"@.len() == 24);
    reveal_strlit("REDIRECT_STATUS");
    assert("REDIRECT_STATUS"@.len() == 15);
    reveal_strlit("REDIRECT_URL");
    assert("REDIRECT_URL"@.len() == 12);
    reveal_strlit("REMOTE_IDENT");
    assert("REMOTE_IDENT"@.len() == 12);
    reveal_strlit("REMOTE_PORT");
    assert("REMOTE_PORT"@.len() == 11);
    reveal_strlit("REQUEST_SCHEME");
    assert("REQUEST_SCHEME"@.len() == 14);
    reveal_strlit("REQUEST_URI");
    assert("REQUEST_URI"@.len() == 11);
    reveal_strlit("SCRIPT_FILENAME");
    assert("SCRIPT_FILENAME"@.len() == 15);
    reveal_strlit("SCRIPT_URI");
    assert("SCRIPT_URI"@.len() == 10);
    reveal_strlit("SCRIPT_URL");
    assert("SCRIPT_URL"@.len() == 10);
    reveal_strlit("SERVER_ADDR");
    assert("SERVER_ADDR"@.len() == 11);
    reveal_strlit("SERVER_ADMIN");
    assert("SERVER_ADMIN"@.len() == 12);
    reveal_strlit("SERVER_SIGNATURE");
    assert("SERVER_SIGNATURE"@.len() == 16);
    reveal_strlit("TZ");
    assert("TZ"@.len() == 2);
    reveal_strlit("UNIQUE_ID");
    assert("UNIQUE_ID"@.len() == 9);
    reveal_strlit("USER_NAME");
    assert("USER_NAME"@.len() == 9);
    match a {
        MetaVariableKind::AuthType => {
            assert("AUTH_TYPE"@[0] != "PATH_INFO"@[0]);
            assert("AUTH_TYPE"@[0] != "UNIQUE_ID"@[0]);
            assert("AUTH_TYPE"@[0] != "USER_NAME"@[0]);
        },
        MetaVariableKind::ContentLength => {
            assert("CONTENT_LENGTH"@[0] != "REQUEST_METHOD"@[0]);
            assert("CONTENT_LENGTH"@[5] != "CONTEXT_PREFIX"@[5]);
            assert("CONTENT_LENGTH"@[0] != "REQUEST_SCHEME"@[0]);
        },
        MetaVariableKind::ContentType => {
            assert("CONTENT_TYPE"@[0] != "QUERY_STRING"@[0]);
            assert("CONTENT_TYPE"@[0] != "DOCUMENT_URI"@[0]);
            assert("CONTENT_TYPE"@[0] != "REDIRECT_URL"@[0]);
            assert("CONTENT_TYPE"@[0] != "REMOTE_IDENT"@[0]);
            assert("CONTENT_TYPE"@[0] != "SERVER_ADMIN"@[0]);
        },
        MetaVariableKind::GatewayInterface => {},
        MetaVariableKind::PathInfo => {
            assert("PATH_INFO"@[0] != "AUTH_TYPE"@[0]);
            assert("PATH_INFO"@[0] != "UNIQUE_ID"@[0]);
            assert("PATH_INFO"@[0] != "USER_NAME"@[0]);
        },
        MetaVariableKind::PathTranslated => {
            assert("PATH_TRANSLATED"@[0] != "SERVER_PROTOCOL"@[0]);
            assert("PATH_TRANSLATED"@[0] != "SERVER_SOFTWARE"@[0]);
            assert("PATH_TRANSLATED"@[0] != "REDIRECT_STATUS"@[0]);
            assert("PATH_TRANSLATED"@[0] != "SCRIPT_FILENAME"@[0]);
        },
        MetaVariableKind::QueryString => {
            assert("QUERY_STRING"@[0] != "CONTENT_TYPE"@[0]);
            assert("QUERY_STRING"@[0] != "DOCUMENT_URI"@[0]);
            assert("QUERY_STRING"@[0] != "REDIRECT_URL"@[0]);
            assert("QUERY_STRING"@[0] != "REMOTE_IDENT"@[0]);
            assert("QUERY_STRING"@[0] != "SERVER_ADMIN"@[0]);
        },
        MetaVariableKind::RemoteAddr => {
            assert("REMOTE_ADDR"@[7] != "REMOTE_HOST"@[7]);
            assert("REMOTE_ADDR"@[7] != "REMOTE_USER"@[7]);
            assert("REMOTE_ADDR"@[0] != "SCRIPT_NAME"@[0]);
            assert("REMOTE_ADDR"@[0] != "SERVER_NAME"@[0]);
            assert("REMOTE_ADDR"@[0] != "SERVER_PORT"@[0]);
            assert("REMOTE_ADDR"@[7] != "REMOTE_PORT"@[7]);
            assert("REMOTE_ADDR"@[2] != "REQUEST_URI"@[2]);
            assert("REMOTE_ADDR"@[0] != "SERVER_ADDR"@[0]);
        },
        MetaVariableKind::RemoteHost => {
            assert("REMOTE_HOST"@[7] != "REMOTE_ADDR"@[7]);
            assert("REMOTE_HOST"@[7] != "REMOTE_USER"@[7]);
            assert("REMOTE_HOST"@[0] != "SCRIPT_NAME"@[0]);
            assert("REMOTE_HOST"@[0] != "SERVER_NAME"@[0]);
            assert("REMOTE_HOST"@[0] != "SERVER_PORT"@[0]);
            assert("REMOTE_HOST"@[7] != "REMOTE_PORT"@[7]);
            assert("REMOTE_HOST"@[2] != "REQUEST_URI"@[2]);
            assert("REMOTE_HOST"@[0] != "SERVER_ADDR"@[0]);
        },
        MetaVariableKind::RemoteUser => {
            assert("REMOTE_USER"@[7] != "REMOTE_ADDR"@[7]);
            assert("REMOTE_USER"@[7] != "REMOTE_HOST"@[7]);
            assert("REMOTE_USER"@[0] != "SCRIPT_NAME"@[0]);
            assert("REMOTE_USER"@[0] != "SERVER_NAME"@[0]);
            assert("REMOTE_USER"@[0] != "SERVER_PORT"@[0]);
            assert("REMOTE_USER"@[7] != "REMOTE_PORT"@[7]);
            assert("REMOTE_USER"@[2] != "REQUEST_URI"@[2]);
            assert("REMOTE_USER"@[0] != "SERVER_ADDR"@[0]);
        },
        MetaVariableKind::RequestIdent => {
            assert("REQUEST_IDENT"@[0] != "DOCUMENT_NAME"@[0]);
            assert("REQUEST_IDENT"@[0] != "DOCUMENT_ROOT"@[0]);
            assert("REQUEST_IDENT"@[0] != "LAST_MODIFIED"@[0]);
        },
        MetaVariableKind::RequestMethod => {
            assert("REQUEST_METHOD"@[0] != "CONTENT_LENGTH"@[0]);
            assert("REQUEST_METHOD"@[0] != "CONTEXT_PREFIX"@[0]);
            assert("REQUEST_METHOD"@[8] != "REQUEST_SCHEME"@[8]);
        },
        MetaVariableKind::ScriptName => {
            assert("SCRIPT_NAME"@[0] != "REMOTE_ADDR"@[0]);
            assert("SCRIPT_NAME"@[0] != "REMOTE_HOST"@[0]);
            assert("SCRIPT_NAME"@[0] != "REMOTE_USER"@[0]);
            assert("SCRIPT_NAME"@[1] != "SERVER_NAME"@[1]);
            assert("SCRIPT_NAME"@[1] != "SERVER_PORT"@[1]);
            assert("SCRIPT_NAME"@[0] != "REMOTE_PORT"@[0]);
            assert("SCRIPT_NAME"@[0] != "REQUEST_URI"@[0]);
            assert("SCRIPT_NAME"@[1] != "SERVER_ADDR"@[1]);
        },
        MetaVariableKind::ServerName => {
            assert("SERVER_NAME"@[0] != "REMOTE_ADDR"@[0]);
            assert("SERVER_NAME"@[0] != "REMOTE_HOST"@[0]);
            assert("SERVER_NAME"@[0] != "REMOTE_USER"@[0]);
            assert("SERVER_NAME"@[1] != "SCRIPT_NAME"@[1]);
            assert("SERVER_NAME"@[7] != "SERVER_PORT"@[7]);
            assert("SERVER_NAME"@[0] != "REMOTE_PORT"@[0]);
            assert("SERVER_NAME"@[0] != "REQUEST_URI"@[0]);
            assert("SERVER_NAME"@[7] != "SERVER_ADDR"@[7]);
        },
        MetaVariableKind::ServerPort => {
            assert("SERVER_PORT"@[0] != "REMOTE_ADDR"@[0]);
            assert("SERVER_PORT"@[0] != "REMOTE_HOST"@[0]);
            assert("SERVER_PORT"@[0] != "REMOTE_USER"@[0]);
            assert("SERVER_PORT"@[1] != "SCRIPT_NAME"@[1]);
            assert("SERVER_PORT"@[7] != "SERVER_NAME"@[7]);
            assert("SERVER_PORT"@[0] != "REMOTE_PORT"@[0]);
            assert("SERVER_PORT"@[0] != "REQUEST_URI"@[0]);
            assert("SERVER_PORT"@[7] != "SERVER_ADDR"@[7]);
        },
        MetaVariableKind::ServerProtocol => {
            assert("SERVER_PROTOCOL"@[0] != "PATH_TRANSLATED"@[0]);
            assert("SERVER_PROTOCOL"@[7] != "SERVER_SOFTWARE"@[7]);
            assert("SERVER_PROTOCOL"@[0] != "REDIRECT_STATUS"@[0]);
            assert("SERVER_PROTOCOL"@[1] != "SCRIPT_FILENAME"@[1]);
        },
        MetaVariableKind::ServerSoftware => {
            assert("SERVER_SOFTWARE"@[0] != "PATH_TRANSLATED"@[0]);
            assert("SERVER_SOFTWARE"@[7] != "SERVER_PROTOCOL"@[7]);
            assert("SERVER_SOFTWARE"@[0] != "REDIRECT_STATUS"@[0]);
            assert("SERVER_SOFTWARE"@[1] != "SCRIPT_FILENAME"@[1]);
        },
        MetaVariableKind::ContextDocumentRoot => {
            assert("CONTEXT_DOCUMENT_ROOT"@[0] != "REDIRECT_QUERY_STRING"@[0]);
        },
        MetaVariableKind::ContextPrefix => {
            assert("CONTEXT_PREFIX"@[5] != "CONTENT_LENGTH"@[5]);
            assert("CONTEXT_PREFIX"@[0] != "REQUEST_METHOD"@[0]);
            assert("CONTEXT_PREFIX"@[0] != "REQUEST_SCHEME"@[0]);
        },
        MetaVariableKind::DateGmt => {},
        MetaVariableKind::DateLocal => {
            assert("DATE_LOCAL"@[0] != "SCRIPT_URI"@[0]);
            assert("DATE_LOCAL"@[0] != "SCRIPT_URL"@[0]);
        },
        MetaVariableKind::DocumentName => {
            assert("DOCUMENT_NAME"@[0] != "REQUEST_IDENT"@[0]);
            assert("DOCUMENT_NAME"@[9] != "DOCUMENT_ROOT"@[9]);
            assert("DOCUMENT_NAME"@[0] != "LAST_MODIFIED"@[0]);
        },
        MetaVariableKind::DocumentPathInfo => {},
        MetaVariableKind::DocumentRoot => {
            assert("DOCUMENT_ROOT"@[0] != "REQUEST_IDENT"@[0]);
            assert("DOCUMENT_ROOT"@[9] != "DOCUMENT_NAME"@[9]);
            assert("DOCUMENT_ROOT"@[0] != "LAST_MODIFIED"@[0]);
        },
        MetaVariableKind::DocumentUri => {
            assert("DOCUMENT_URI"@[0] != "CONTENT_TYPE"@[0]);
            assert("DOCUMENT_URI"@[0] != "QUERY_STRING"@[0]);
            assert("DOCUMENT_URI"@[0] != "REDIRECT_URL"@[0]);
            assert("DOCUMENT_URI"@[0] != "REMOTE_IDENT"@[0]);
            assert("DOCUMENT_URI"@[0] != "SERVER_ADMIN"@[0]);
        },
        MetaVariableKind::Https => {},
        MetaVariableKind::LastModified => {
            assert("LAST_MODIFIED"@[0] != "REQUEST_IDENT"@[0]);
            assert("LAST_MODIFIED"@[0] != "DOCUMENT_NAME"@[0]);
            assert("LAST_MODIFIED"@[0] != "DOCUMENT_ROOT"@[0]);
        },
        MetaVariableKind::Path => {},
        MetaVariableKind::QueryStringUnescaped => {},
        MetaVariableKind::RedirectErrorNotes => {
            assert("REDIRECT_ERROR_NOTES"@[9] != "REDIRECT_REMOTE_USER"@[9]);
        },
        MetaVariableKind::RedirectHandler => {
            assert("REDIRECT_HANDLER"@[0] != "SERVER_SIGNATURE"@[0]);
        },
        MetaVariableKind::RedirectQueryString => {
            assert("REDIRECT_QUERY_STRING"@[0] != "CONTEXT_DOCUMENT_ROOT"@[0]);
        },
        MetaVariableKind::RedirectRemoteUser => {
            assert("REDIRECT_REMOTE_USER"@[9] != "REDIRECT_ERROR_NOTES"@[9]);
        },
        MetaVariableKind::RedirectScriptFilename => {},
        MetaVariableKind::RedirectStatus => {
            assert("REDIRECT_STATUS"@[0] != "PATH_TRANSLATED"@[0]);
            assert("REDIRECT_STATUS"@[0] != "SERVER_PROTOCOL"@[0]);
            assert("REDIRECT_STATUS"@[0] != "SERVER_SOFTWARE"@[0]);
            assert("REDIRECT_STATUS"@[0] != "SCRIPT_FILENAME"@[0]);
        },
        MetaVariableKind::RedirectUrl => {
            assert("REDIRECT_URL"@[0] != "CONTENT_TYPE"@[0]);
            assert("REDIRECT_URL"@[0] != "QUERY_STRING"@[0]);
            assert("REDIRECT_URL"@[0] != "DOCUMENT_URI"@[0]);
            assert("REDIRECT_URL"@[2] != "REMOTE_IDENT"@[2]);
            assert("REDIRECT_URL"@[0] != "SERVER_ADMIN"@[0]);
        },
        MetaVariableKind::RemoteIdent => {
            assert("REMOTE_IDENT"@[0] != "CONTENT_TYPE"@[0]);
            assert("REMOTE_IDENT"@[0] != "QUERY_STRING"@[0]);
            assert("REMOTE_IDENT"@[0] != "DOCUMENT_URI"@[0]);
            assert("REMOTE_IDENT"@[2] != "REDIRECT_URL"@[2]);
            assert("REMOTE_IDENT"@[0] != "SERVER_ADMIN"@[0]);
        },
        MetaVariableKind::RemotePort => {
            assert("REMOTE_PORT"@[7] != "REMOTE_ADDR"@[7]);
            assert("REMOTE_PORT"@[7] != "REMOTE_HOST"@[7]);
            assert("REMOTE_PORT"@[7] != "REMOTE_USER"@[7]);
            assert("REMOTE_PORT"@[0] != "SCRIPT_NAME"@[0]);
            assert("REMOTE_PORT"@[0] != "SERVER_NAME"@[0]);
            assert("REMOTE_PORT"@[0] != "SERVER_PORT"@[0]);
            assert("REMOTE_PORT"@[2] != "REQUEST_URI"@[2]);
            assert("REMOTE_PORT"@[0] != "SERVER_ADDR"@[0]);
        },
        MetaVariableKind::RequestScheme => {
            assert("REQUEST_SCHEME"@[0] != "CONTENT_LENGTH"@[0]);
            assert("REQUEST_SCHEME"@[8] != "REQUEST_METHOD"@[8]);
            assert("REQUEST_SCHEME"@[0] != "CONTEXT_PREFIX"@[0]);
        },
        MetaVariableKind::RequestUri => {
            assert("REQUEST_URI"@[2] != "REMOTE_ADDR"@[2]);
            assert("REQUEST_URI"@[2] != "REMOTE_HOST"@[2]);
            assert("REQUEST_URI"@[2] != "REMOTE_USER"@[2]);
            assert("REQUEST_URI"@[0] != "SCRIPT_NAME"@[0]);
            assert("REQUEST_URI"@[0] != "SERVER_NAME"@[0]);
            assert("REQUEST_URI"@[0] != "SERVER_PORT"@[0]);
            assert("REQUEST_URI"@[2] != "REMOTE_PORT"@[2]);
            assert("REQUEST_URI"@[0] != "SERVER_ADDR"@[0]);
        },
        MetaVariableKind::ScriptFilename => {
            assert("SCRIPT_FILENAME"@[0] != "PATH_TRANSLATED"@[0]);
            assert("SCRIPT_FILENAME"@[1] != "SERVER_PROTOCOL"@[1]);
            assert("SCRIPT_FILENAME"@[1] != "SERVER_SOFTWARE"@[1]);
            assert("SCRIPT_FILENAME"@[0] != "REDIRECT_STATUS"@[0]);
        },
        MetaVariableKind::ScriptUri => {
            assert("SCRIPT_URI"@[0] != "DATE_LOCAL"@[0]);
            assert("SCRIPT_URI"@[9] != "SCRIPT_URL"@[9]);
        },
        MetaVariableKind::ScriptUrl => {
            assert("SCRIPT_URL"@[0] != "DATE_LOCAL"@[0]);
            assert("SCRIPT_URL"@[9] != "SCRIPT_URI"@[9]);
        },
        MetaVariableKind::ServerAddr => {
            assert("SERVER_ADDR"@[0] != "REMOTE_ADDR"@[0]);
            assert("SERVER_ADDR"@[0] != "REMOTE_HOST"@[0]);
            assert("SERVER_ADDR"@[0] != "REMOTE_USER"@[0]);
            assert("SERVER_ADDR"@[1] != "SCRIPT_NAME"@[1]);
            assert("SERVER_ADDR"@[7] != "SERVER_NAME"@[7]);
            assert("SERVER_ADDR"@[7] != "SERVER_PORT"@[7]);
            assert("SERVER_ADDR"@[0] != "REMOTE_PORT"@[0]);
            assert("SERVER_ADDR"@[0] != "REQUEST_URI"@[0]);
        },
        MetaVariableKind::ServerAdmin => {
            assert("SERVER_ADMIN"@[0] != "CONTENT_TYPE"@[0]);
            assert("SERVER_ADMIN"@[0] != "QUERY_STRING"@[0]);
            assert("SERVER_ADMIN"@[0] != "DOCUMENT_URI"@[0]);
            assert("SERVER_ADMIN"@[0] != "REDIRECT_URL"@[0]);
            assert("SERVER_ADMIN"@[0] != "REMOTE_IDENT"@[0]);
        },
        MetaVariableKind::ServerSignature => {
            assert("SERVER_SIGNATURE"@[0] != "REDIRECT_HANDLER"@[0]);
        },
        MetaVariableKind::Tz => {},
        MetaVariableKind::UniqueId => {
            assert("UNIQUE_ID"@[0] != "AUTH_TYPE"@[0]);
            assert("UNIQUE_ID"@[0] != "PATH_INFO"@[0]);
            assert("UNIQUE_ID"@[1] != "USER_NAME"@[1]);
        },
        MetaVariableKind::UserName => {
            assert("USER_NAME"@[0] != "AUTH_TYPE"@[0]);
            assert("USER_NAME"@[0] != "PATH_INFO"@[0]);
            assert("USER_NAME"@[1] != "UNIQUE_ID"@[1]);
        },
    }
}

} // verus!
