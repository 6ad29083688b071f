//! Rebuilding an HTTP request from a snapshot of the CGI environment.

use vstd::prelude::*;
use vstd::string::StringExecFns;

use crate::meta::{kind_name, MetaVariableKind};
use crate::text::{chars_of, str_eq, string_of};
use crate::wire::{
    header_name_of, header_value_accepts, is_tchar, method_accepts, parse_header_name, parse_uri,
    uri_text_of, valid_header_value, valid_method,
};

verus! {

/// The view of a list of string pairs.
pub open spec fn pairs_view(v: Seq<(String, String)>) -> Seq<(Seq<char>, Seq<char>)> {
    v.map_values(|p: (String, String)| (p.0@, p.1@))
}

/// The value of the first pair whose key is `key`.
pub open spec fn lookup(vars: Seq<(Seq<char>, Seq<char>)>, key: Seq<char>) -> Option<Seq<char>>
    decreases vars.len(),
{
    if vars.len() == 0 {
        None
    } else if vars[0].0 == key {
        Some(vars[0].1)
    } else {
        lookup(vars.drop_first(), key)
    }
}

/// The prefix that marks an environment variable carrying a request header.
pub open spec fn http_prefix() -> Seq<char> {
    seq!['H', 'T', 'T', 'P', '_']
}

/// Every `_` replaced by `-`.
pub open spec fn dashed(s: Seq<char>) -> Seq<char> {
    s.map_values(|c: char| if c == '_' { '-' } else { c })
}

/// The request header that an environment variable stands for: `HTTP_X_Y=v`
/// gives the header `x-y: v`, where the name and the value are both valid.
pub open spec fn header_of_var(k: Seq<char>, v: Seq<char>) -> Option<(Seq<char>, Seq<char>)> {
    if k.len() >= 5 && k.subrange(0, 5) == http_prefix() {
        match header_name_of(dashed(k.subrange(5, k.len() as int))) {
            Some(n) => if valid_header_value(v) {
                Some((n, v))
            } else {
                None
            },
            None => None,
        }
    } else {
        None
    }
}

/// The request headers of an environment, in the order of its variables.
pub open spec fn headers_of(vars: Seq<(Seq<char>, Seq<char>)>) -> Seq<(Seq<char>, Seq<char>)>
    decreases vars.len(),
{
    if vars.len() == 0 {
        seq![]
    } else {
        let prev = headers_of(vars.drop_last());
        match header_of_var(vars.last().0, vars.last().1) {
            Some(h) => prev.push(h),
            None => prev,
        }
    }
}

/// The variables of an environment whose names are meta-variables.
pub open spec fn meta_vars_of(vars: Seq<(Seq<char>, Seq<char>)>) -> Seq<(Seq<char>, Seq<char>)>
    decreases vars.len(),
{
    if vars.len() == 0 {
        seq![]
    } else {
        let prev = meta_vars_of(vars.drop_last());
        if exists|k: MetaVariableKind| kind_name(k) == vars.last().0 {
            prev.push(vars.last())
        } else {
            prev
        }
    }
}

/// The protocol versions a request may carry.
#[derive(Debug, Clone, Copy, PartialEq, Eq, Structural)]
pub enum HttpVersion {
    Http09,
    Http10,
    Http11,
    Http2,
    Http3,
}

/// The version named by a `SERVER_PROTOCOL` value.
pub open spec fn version_of(s: Seq<char>) -> Option<HttpVersion> {
    if s == "HTTP/0.9"@ {
        Some(HttpVersion::Http09)
    } else if s == "HTTP/1.0"@ {
        Some(HttpVersion::Http10)
    } else if s == "HTTP/1.1"@ {
        Some(HttpVersion::Http11)
    } else if s == "HTTP/2.0"@ {
        Some(HttpVersion::Http2)
    } else if s == "HTTP/3.0"@ {
        Some(HttpVersion::Http3)
    } else {
        None
    }
}

/// Why a request could not be built.
#[derive(Debug, Clone, Copy, PartialEq, Eq, Structural)]
pub enum CgiEnvError {
    /// A mandatory meta-variable was missing or held a value it cannot hold.
    InvalidMetaVariable(MetaVariableKind),
    /// The request method, or the URL given back by the parser, was refused.
    HttpError,
    /// `<scheme>://<host><request uri>` is not a URL.
    InvalidUrl,
}

/// The path below the script's own name, the route of the request.
#[derive(Debug, Clone)]
pub struct PathInfo(String);

impl View for PathInfo {
    type V = Seq<char>;

    closed spec fn view(&self) -> Seq<char> {
        self.0@
    }
}

impl PathInfo {
    pub fn as_str(&self) -> (r: &str)
        ensures
            r@ == self@,
    {
        self.0.as_str()
    }
}

/// What a built request holds.
pub struct RequestView {
    pub method: Seq<char>,
    pub uri: Seq<char>,
    pub version: HttpVersion,
    pub headers: Seq<(Seq<char>, Seq<char>)>,
    pub path_info: Seq<char>,
}

/// An HTTP request as the web server described it.
#[derive(Debug, Clone)]
pub struct Request {
    method: String,
    uri: String,
    version: HttpVersion,
    headers: Vec<(String, String)>,
    path_info: PathInfo,
}

impl View for Request {
    type V = RequestView;

    closed spec fn view(&self) -> RequestView {
        RequestView {
            method: self.method@,
            uri: self.uri@,
            version: self.version,
            headers: pairs_view(self.headers@),
            path_info: self.path_info@,
        }
    }
}

/// The request an environment describes, or the first failure met on the
/// way: the protocol, the server name, the request URI, the scheme, the URL
/// they make together, then the method.
pub open spec fn request_of(vars: Seq<(Seq<char>, Seq<char>)>) -> Result<RequestView, CgiEnvError> {
    let protocol = lookup(vars, kind_name(MetaVariableKind::ServerProtocol));
    let host = lookup(vars, kind_name(MetaVariableKind::ServerName));
    let request_uri = lookup(vars, kind_name(MetaVariableKind::RequestUri));
    let scheme = lookup(vars, kind_name(MetaVariableKind::RequestScheme));
    let method = lookup(vars, kind_name(MetaVariableKind::RequestMethod));
    if protocol is None || version_of(protocol->0) is None {
        Err(CgiEnvError::InvalidMetaVariable(MetaVariableKind::ServerProtocol))
    } else if host is None {
        Err(CgiEnvError::InvalidMetaVariable(MetaVariableKind::ServerName))
    } else if request_uri is None {
        Err(CgiEnvError::InvalidMetaVariable(MetaVariableKind::RequestUri))
    } else if scheme is None {
        Err(CgiEnvError::InvalidMetaVariable(MetaVariableKind::RequestScheme))
    } else {
        let url = scheme->0 + "://"@ + host->0 + request_uri->0;
        match uri_text_of(url) {
            None => Err(CgiEnvError::InvalidUrl),
            Some(parsed) => if method is None {
                Err(CgiEnvError::InvalidMetaVariable(MetaVariableKind::RequestMethod))
            } else if !valid_method(method->0) {
                Err(CgiEnvError::HttpError)
            } else {
                match uri_text_of(parsed) {
                    None => Err(CgiEnvError::HttpError),
                    Some(uri) => Ok(
                        RequestView {
                            method: method->0,
                            uri,
                            version: version_of(protocol->0)->0,
                            headers: headers_of(vars),
                            path_info: match lookup(vars, kind_name(MetaVariableKind::PathInfo)) {
                                Some(p) => p,
                                None => seq![],
                            },
                        },
                    ),
                }
            },
        }
    }
}

impl Request {
    pub fn method(&self) -> (r: &str)
        ensures
            r@ == self@.method,
    {
        self.method.as_str()
    }

    pub fn uri(&self) -> (r: &str)
        ensures
            r@ == self@.uri,
    {
        self.uri.as_str()
    }

    pub fn version(&self) -> (r: HttpVersion)
        ensures
            r == self@.version,
    {
        self.version
    }

    pub fn path_info(&self) -> (r: &PathInfo)
        ensures
            r@ == self@.path_info,
    {
        &self.path_info
    }

    pub fn headers(&self) -> (r: &Vec<(String, String)>)
        ensures
            pairs_view(r@) == self@.headers,
    {
        &self.headers
    }

    /// The first value of the header `name`, which is matched as the `http`
    /// crate matches names, without regard to ASCII case.
    pub fn header(&self, name: &str) -> (r: Option<String>)
        ensures
            r matches Some(v) ==> Some(v@) == match header_name_of(name@) {
                Some(n) => lookup(self@.headers, n),
                None => None,
            },
            r is None ==> match header_name_of(name@) {
                Some(n) => lookup(self@.headers, n) is None,
                None => true,
            },
    {
        match parse_header_name(name) {
            Some(n) => find_value(&self.headers, n.as_str()),
            None => None,
        }
    }
}

/// The value of the first pair whose key is `key`.
pub fn find_value(vars: &Vec<(String, String)>, key: &str) -> (r: Option<String>)
    ensures
        match r {
            Some(v) => lookup(pairs_view(vars@), key@) == Some(v@),
            None => lookup(pairs_view(vars@), key@) is None,
        },
{
    let ghost all = pairs_view(vars@);
    assert(all.subrange(0, all.len() as int) =~= all);
    let mut i: usize = 0;
    while i < vars.len()
        invariant
            i <= vars.len(),
            all == pairs_view(vars@),
            lookup(all, key@) == lookup(all.subrange(i as int, all.len() as int), key@),
        decreases vars.len() - i,
    {
        let ghost rest = all.subrange(i as int, all.len() as int);
        assert(rest.drop_first() =~= all.subrange(i + 1, all.len() as int));
        if str_eq(vars[i].0.as_str(), key) {
            return Some(vars[i].1.clone());
        }
        i = i + 1;
    }
    None
}

/// A snapshot of the process environment, read once for the request.
#[derive(Debug, Clone)]
pub struct CgiEnv {
    vars: Vec<(String, String)>,
}

impl View for CgiEnv {
    type V = Seq<(Seq<char>, Seq<char>)>;

    closed spec fn view(&self) -> Seq<(Seq<char>, Seq<char>)> {
        pairs_view(self.vars@)
    }
}

impl CgiEnv {
    /// An environment made of the given variables, in the given order.
    pub fn new(vars: Vec<(String, String)>) -> (r: CgiEnv)
        ensures
            r@ == pairs_view(vars@),
    {
        CgiEnv { vars }
    }

    /// The variables of the environment.
    pub fn vars(&self) -> (r: &Vec<(String, String)>)
        ensures
            pairs_view(r@) == self@,
    {
        &self.vars
    }

    /// Whether the process runs under CGI, that is whether
    /// `GATEWAY_INTERFACE` is set.
    pub fn is_cgi(&self) -> (r: bool)
        ensures
            r == lookup(self@, kind_name(MetaVariableKind::GatewayInterface)) is Some,
    {
        self.getenv(MetaVariableKind::GatewayInterface).is_some()
    }

    /// The value of a meta-variable.
    pub fn getenv(&self, key: MetaVariableKind) -> (r: Option<String>)
        ensures
            match r {
                Some(v) => lookup(self@, kind_name(key)) == Some(v@),
                None => lookup(self@, kind_name(key)) is None,
            },
    {
        find_value(&self.vars, key.name())
    }

    /// The value of a mandatory meta-variable.
    fn try_getenv(&self, key: MetaVariableKind) -> (r: Result<String, CgiEnvError>)
        ensures
            match r {
                Ok(v) => lookup(self@, kind_name(key)) == Some(v@),
                Err(e) => lookup(self@, kind_name(key)) is None && e
                    == CgiEnvError::InvalidMetaVariable(key),
            },
    {
        match self.getenv(key) {
            Some(v) => Ok(v),
            None => Err(CgiEnvError::InvalidMetaVariable(key)),
        }
    }

    /// The request headers carried by `HTTP_*` variables; a variable whose
    /// name or value is not valid header syntax is left out.
    pub fn http_headers(&self) -> (r: Vec<(String, String)>)
        ensures
            pairs_view(r@) == headers_of(self@),
    {
        let ghost all = self@;
        let mut out: Vec<(String, String)> = Vec::new();
        let mut i: usize = 0;
        while i < self.vars.len()
            invariant
                i <= self.vars.len(),
                all == self@,
                all == pairs_view(self.vars@),
                pairs_view(out@) == headers_of(all.subrange(0, i as int)),
            decreases self.vars.len() - i,
        {
            let ghost before = out@;
            let k = &self.vars[i].0;
            let v = &self.vars[i].1;
            assert(all.subrange(0, i + 1).drop_last() =~= all.subrange(0, i as int));
            match header_of(k.as_str(), v.as_str()) {
                Some(h) => {
                    out.push(h);
                    assert(pairs_view(out@) =~= pairs_view(before).push((out@.last().0@, out@.last().1@)));
                },
                None => {},
            }
            i = i + 1;
        }
        assert(all.subrange(0, all.len() as int) =~= all);
        out
    }

    /// The variables whose names are meta-variables, as a diagnostic dump
    /// shows them.
    pub fn cgi_vars(&self) -> (r: Vec<(String, String)>)
        ensures
            pairs_view(r@) == meta_vars_of(self@),
    {
        let ghost all = self@;
        let mut out: Vec<(String, String)> = Vec::new();
        let mut i: usize = 0;
        while i < self.vars.len()
            invariant
                i <= self.vars.len(),
                all == self@,
                all == pairs_view(self.vars@),
                pairs_view(out@) == meta_vars_of(all.subrange(0, i as int)),
            decreases self.vars.len() - i,
        {
            let ghost before = out@;
            assert(all.subrange(0, i + 1).drop_last() =~= all.subrange(0, i as int));
            match MetaVariableKind::from_name(self.vars[i].0.as_str()) {
                Some(k) => {
                    assert(kind_name(k) == all[i as int].0);
                    out.push((self.vars[i].0.clone(), self.vars[i].1.clone()));
                    assert(pairs_view(out@) =~= pairs_view(before).push(all[i as int]));
                },
                None => {},
            }
            i = i + 1;
        }
        assert(all.subrange(0, all.len() as int) =~= all);
        out
    }

    /// The request this environment describes.
    pub fn new_request(&self) -> (r: Result<Request, CgiEnvError>)
        ensures
            match r {
                Ok(req) => request_of(self@) == Ok::<RequestView, CgiEnvError>(req@),
                Err(e) => request_of(self@) == Err::<RequestView, CgiEnvError>(e),
            },
    {
        let protocol = match self.getenv(MetaVariableKind::ServerProtocol) {
            Some(p) => p,
            None => {
                return Err(CgiEnvError::InvalidMetaVariable(MetaVariableKind::ServerProtocol));
            },
        };
        let version = match parse_version(protocol.as_str()) {
            Some(v) => v,
            None => {
                return Err(CgiEnvError::InvalidMetaVariable(MetaVariableKind::ServerProtocol));
            },
        };
        let host = self.try_getenv(MetaVariableKind::ServerName)?;
        let request_uri = self.try_getenv(MetaVariableKind::RequestUri)?;
        let scheme = self.try_getenv(MetaVariableKind::RequestScheme)?;
        let headers = self.http_headers();
        let mut url = scheme;
        url.append("://");
        url.append(host.as_str());
        url.append(request_uri.as_str());
        let parsed = match parse_uri(url.as_str()) {
            Some(u) => u,
            None => {
                return Err(CgiEnvError::InvalidUrl);
            },
        };
        let method = self.try_getenv(MetaVariableKind::RequestMethod)?;
        if !method_accepts(method.as_str()) {
            return Err(CgiEnvError::HttpError);
        }
        let uri = match parse_uri(parsed.as_str()) {
            Some(u) => u,
            None => {
                return Err(CgiEnvError::HttpError);
            },
        };
        let path_info = match self.getenv(MetaVariableKind::PathInfo) {
            Some(p) => p,
            None => String::new(),
        };
        Ok(Request { method, uri, version, headers, path_info: PathInfo(path_info) })
    }
}

/// The version a `SERVER_PROTOCOL` value names.
pub fn parse_version(s: &str) -> (r: Option<HttpVersion>)
    ensures
        r == version_of(s@),
{
    if str_eq(s, "HTTP/0.9") {
        Some(HttpVersion::Http09)
    } else if str_eq(s, "HTTP/1.0") {
        Some(HttpVersion::Http10)
    } else if str_eq(s, "HTTP/1.1") {
        Some(HttpVersion::Http11)
    } else if str_eq(s, "HTTP/2.0") {
        Some(HttpVersion::Http2)
    } else if str_eq(s, "HTTP/3.0") {
        Some(HttpVersion::Http3)
    } else {
        None
    }
}

/// The request header an environment variable stands for.
pub fn header_of(k: &str, v: &str) -> (r: Option<(String, String)>)
    ensures
        match r {
            Some(h) => header_of_var(k@, v@) == Some((h.0@, h.1@)),
            None => header_of_var(k@, v@) is None,
        },
{
    let cs = chars_of(k);
    if cs.len() < 5 || cs[0] != 'H' || cs[1] != 'T' || cs[2] != 'T' || cs[3] != 'P' || cs[4] != '_' {
        return None;
    }
    assert(cs@.subrange(0, 5) =~= http_prefix());
    let mut name_chars: Vec<char> = Vec::new();
    let mut i: usize = 5;
    while i < cs.len()
        invariant
            5 <= i <= cs.len(),
            cs@ == k@,
            name_chars@ == dashed(cs@.subrange(5, i as int)),
        decreases cs.len() - i,
    {
        let c = cs[i];
        if c == '_' {
            name_chars.push('-');
        } else {
            name_chars.push(c);
        }
        i = i + 1;
        assert(name_chars@ =~= dashed(cs@.subrange(5, i as int)));
    }
    let name = string_of(&name_chars);
    match parse_header_name(name.as_str()) {
        Some(n) => if header_value_accepts(v) {
            Some((n, v.to_owned()))
        } else {
            None
        },
        None => None,
    }
}

/// The meta-variables a request cannot be built without, in the order they
/// are read.
pub open spec fn is_mandatory(k: MetaVariableKind) -> bool {
    ||| k == MetaVariableKind::ServerProtocol
    ||| k == MetaVariableKind::ServerName
    ||| k == MetaVariableKind::RequestUri
    ||| k == MetaVariableKind::RequestScheme
    ||| k == MetaVariableKind::RequestMethod
}

/// An environment that lacks a mandatory meta-variable never gives a request.
pub proof fn lemma_missing_variable_fails(vars: Seq<(Seq<char>, Seq<char>)>, k: MetaVariableKind)
    requires
        is_mandatory(k),
        lookup(vars, kind_name(k)) is None,
    ensures
        request_of(vars) is Err,
{
}

/// The failure names the missing meta-variable when everything read before
/// it was present and valid: the protocol (when the missing one is not the
/// protocol itself) and, for the method, the URL.
pub proof fn lemma_missing_variable_named(vars: Seq<(Seq<char>, Seq<char>)>, k: MetaVariableKind)
    requires
        is_mandatory(k),
        lookup(vars, kind_name(k)) is None,
        k != MetaVariableKind::ServerProtocol ==> {
            let p = lookup(vars, kind_name(MetaVariableKind::ServerProtocol));
            p is Some && version_of(p->0) is Some
        },
        k == MetaVariableKind::RequestUri ==> lookup(vars, kind_name(MetaVariableKind::ServerName)) is Some,
        k == MetaVariableKind::RequestScheme ==> {
            &&& lookup(vars, kind_name(MetaVariableKind::ServerName)) is Some
            &&& lookup(vars, kind_name(MetaVariableKind::RequestUri)) is Some
        },
        k == MetaVariableKind::RequestMethod ==> {
            let host = lookup(vars, kind_name(MetaVariableKind::ServerName));
            let uri = lookup(vars, kind_name(MetaVariableKind::RequestUri));
            let scheme = lookup(vars, kind_name(MetaVariableKind::RequestScheme));
            &&& host is Some
            &&& uri is Some
            &&& scheme is Some
            &&& uri_text_of(scheme->0 + "://"@ + host->0 + uri->0) is Some
        },
    ensures
        request_of(vars) == Err::<RequestView, CgiEnvError>(CgiEnvError::InvalidMetaVariable(k)),
{
}

/// A built request carries the version its `SERVER_PROTOCOL` names, and a
/// protocol outside the five known ones makes the build fail.
pub proof fn lemma_protocol_version(vars: Seq<(Seq<char>, Seq<char>)>)
    ensures
        request_of(vars) matches Ok(r) ==> Some(r.version) == version_of(
            lookup(vars, kind_name(MetaVariableKind::ServerProtocol))->0,
        ),
        lookup(vars, kind_name(MetaVariableKind::ServerProtocol)) matches Some(p) ==> (version_of(p)
            is None ==> request_of(vars) == Err::<RequestView, CgiEnvError>(
            CgiEnvError::InvalidMetaVariable(MetaVariableKind::ServerProtocol),
        )),
{
}

/// `HTTP/1.1` names version 1.1.
pub proof fn lemma_http11()
    ensures
        version_of("HTTP/1.1"@) == Some(HttpVersion::Http11),
{
    reveal_strlit("HTTP/1.1");
    reveal_strlit("HTTP/1.0");
    reveal_strlit("HTTP/0.9");
    assert("HTTP/1.1"@[5] != "HTTP/0.9"@[5]);
    assert("HTTP/1.1"@[7] != "HTTP/1.0"@[7]);
}

/// Without `PATH_INFO` the path of a built request is empty.
pub proof fn lemma_path_info_default(vars: Seq<(Seq<char>, Seq<char>)>)
    requires
        lookup(vars, kind_name(MetaVariableKind::PathInfo)) is None,
    ensures
        request_of(vars) matches Ok(r) ==> r.path_info == Seq::<char>::empty(),
{
}

/// Every `HTTP_*` variable whose name and value are valid header syntax
/// becomes a header of the request.
pub proof fn lemma_http_variable_becomes_header(vars: Seq<(Seq<char>, Seq<char>)>, i: int)
    requires
        0 <= i < vars.len(),
        header_of_var(vars[i].0, vars[i].1) is Some,
    ensures
        headers_of(vars).contains(header_of_var(vars[i].0, vars[i].1)->0),
        request_of(vars) matches Ok(r) ==> r.headers.contains(header_of_var(vars[i].0, vars[i].1)->0),
    decreases vars.len(),
{
    let h = header_of_var(vars[i].0, vars[i].1)->0;
    let prev = headers_of(vars.drop_last());
    if i == vars.len() - 1 {
        assert(headers_of(vars) == prev.push(h));
        assert(headers_of(vars)[prev.len() as int] == h);
    } else {
        lemma_http_variable_becomes_header(vars.drop_last(), i);
        let j = choose|j: int| 0 <= j < prev.len() && prev[j] == h;
        match header_of_var(vars.last().0, vars.last().1) {
            Some(g) => assert(headers_of(vars)[j] == h),
            None => {},
        }
    }
}

/// `HTTP_TEST_HEADER=test_value` stands for the header `test-header:
/// test_value`.
pub proof fn lemma_test_header()
    ensures
        header_of_var("HTTP_TEST_HEADER"@, "test_value"@) == Some(("test-header"@, "test_value"@)),
{
    reveal_strlit("HTTP_TEST_HEADER");
    reveal_strlit("test_value");
    reveal_strlit("test-header");
    let k = "HTTP_TEST_HEADER"@;
    assert(k.subrange(0, 5) =~= http_prefix());
    let name = dashed(k.subrange(5, k.len() as int));
    assert(name =~= seq!['T', 'E', 'S', 'T', '-', 'H', 'E', 'A', 'D', 'E', 'R']);
    assert(forall|i: int| 0 <= i < name.len() ==> is_tchar(#[trigger] name[i]));
    assert(crate::wire::lower_ascii(name) =~= "test-header"@);
    assert(valid_header_value("test_value"@));
}

/// With the five mandatory meta-variables present and valid, and the URL
/// they make accepted by the parser (read, and read back), the request is
/// built; its path is `PATH_INFO`, or empty without it.
pub proof fn lemma_request_built(vars: Seq<(Seq<char>, Seq<char>)>)
    requires
        ({
            let protocol = lookup(vars, kind_name(MetaVariableKind::ServerProtocol));
            let host = lookup(vars, kind_name(MetaVariableKind::ServerName));
            let uri = lookup(vars, kind_name(MetaVariableKind::RequestUri));
            let scheme = lookup(vars, kind_name(MetaVariableKind::RequestScheme));
            let method = lookup(vars, kind_name(MetaVariableKind::RequestMethod));
            &&& protocol is Some && version_of(protocol->0) is Some
            &&& host is Some && uri is Some && scheme is Some
            &&& method is Some && valid_method(method->0)
            &&& uri_text_of(scheme->0 + "://"@ + host->0 + uri->0) matches Some(u) && uri_text_of(u) is Some
        }),
    ensures
        request_of(vars) is Ok,
        lookup(vars, kind_name(MetaVariableKind::PathInfo)) is None ==> request_of(vars)->Ok_0.path_info
            == Seq::<char>::empty(),
        lookup(vars, kind_name(MetaVariableKind::PathInfo)) matches Some(p) ==> request_of(vars)->Ok_0.path_info
            == p,
{
}

} // verus!
