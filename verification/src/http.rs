//! Plain request and response values. The unverified front end parses the
//! wire format into these and writes them back out; everything in between
//! is verified against the models below.

use vstd::prelude::*;

verus! {

/// The request methods the application distinguishes. Anything beyond the
/// three it routes on is `Other` and matches no route.
#[derive(Clone, Copy, PartialEq, Eq, Structural)]
pub enum Method {
    Get,
    Head,
    Post,
    Other,
}

/// One inbound request, already split into its plain parts: the path and
/// query halves of the request target, the session cookie's value if one
/// was presented, and the request body.
pub struct HttpRequest {
    pub method: Method,
    pub path: String,
    pub query: String,
    pub cookie: Option<String>,
    pub body: String,
}

/// The mathematical content of a request.
#[verifier::ext_equal]
pub ghost struct ReqModel {
    pub method: Method,
    pub path: Seq<char>,
    pub query: Seq<char>,
    pub cookie: Option<Seq<char>>,
    pub body: Seq<char>,
}

impl View for HttpRequest {
    type V = ReqModel;

    open spec fn view(&self) -> ReqModel {
        ReqModel {
            method: self.method,
            path: self.path@,
            query: self.query@,
            cookie: self.cookie.deep_view(),
            body: self.body@,
        }
    }
}

/// One outbound response: a status code, an HTML body, and the headers the
/// application uses. `set_cookie` carries the session cookie's value to
/// re-send; `clear_cookie` tells the client to stop presenting its cookie.
pub struct HttpResponse {
    pub status: u16,
    pub body: String,
    pub location: Option<String>,
    pub set_cookie: Option<String>,
    pub clear_cookie: bool,
}

/// The mathematical content of a response.
#[verifier::ext_equal]
pub ghost struct RespModel {
    pub status: u16,
    pub body: Seq<char>,
    pub location: Option<Seq<char>>,
    pub set_cookie: Option<Seq<char>>,
    pub clear_cookie: bool,
}

impl View for HttpResponse {
    type V = RespModel;

    open spec fn view(&self) -> RespModel {
        RespModel {
            status: self.status,
            body: self.body@,
            location: self.location.deep_view(),
            set_cookie: self.set_cookie.deep_view(),
            clear_cookie: self.clear_cookie,
        }
    }
}

/// Reads a request method name. Names are case-sensitive, as the wire
/// format has them.
pub fn parse_method(s: &str) -> (m: Method)
    ensures
        m == spec_parse_method(s@),
{
    if crate::text::str_eq(s, "GET") {
        Method::Get
    } else if crate::text::str_eq(s, "HEAD") {
        Method::Head
    } else if crate::text::str_eq(s, "POST") {
        Method::Post
    } else {
        Method::Other
    }
}

pub open spec fn spec_parse_method(s: Seq<char>) -> Method {
    if s == "GET"@ {
        Method::Get
    } else if s == "HEAD"@ {
        Method::Head
    } else if s == "POST"@ {
        Method::Post
    } else {
        Method::Other
    }
}

/// The path half of a request target: everything before the first `?`.
pub open spec fn target_path(t: Seq<char>) -> Seq<char> {
    match crate::text::find_first(t, '?') {
        None => t,
        Some(i) => t.take(i),
    }
}

/// The query half of a request target: everything after the first `?`,
/// empty when there is none.
pub open spec fn target_query(t: Seq<char>) -> Seq<char> {
    match crate::text::find_first(t, '?') {
        None => Seq::<char>::empty(),
        Some(i) => t.skip(i + 1),
    }
}

/// Splits a request target into its path and query halves.
pub fn split_target(target: &str) -> (r: (String, String))
    ensures
        r.0@ == target_path(target@),
        r.1@ == target_query(target@),
{
    let n = target.unicode_len();
    match crate::text::find_char(target, '?') {
        None => (target.to_owned(), String::new()),
        Some(i) => {
            proof {
                crate::text::lemma_find_first(target@, '?');
            }
            let path = target.substring_char(0, i).to_owned();
            let query = target.substring_char(i + 1, n).to_owned();
            proof {
                assert(path@ =~= target_path(target@));
                assert(query@ =~= target_query(target@));
            }
            (path, query)
        },
    }
}

} // verus!
