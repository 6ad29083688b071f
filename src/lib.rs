//! A CGI adapter for a URL-shortener web handler: rebuilds an HTTP request
//! from the CGI meta-variables of the process environment and turns an HTTP
//! response into the byte stream a web server reads from standard output.

pub mod text;
pub mod meta;
pub mod wire;
pub mod cgi_env;
pub mod response;
pub mod types;
pub mod controller;
pub mod routes;
