//! The challenge page: greets the captured `{name}` segment and, when the
//! query string carries a readable `count`, answers it with `count + 1`.

use vstd::prelude::*;

use crate::form::{form_value, lookup, parse_form, ugly_form_body_parser};
use crate::http::HttpResponse;
use crate::text::{dec_str, parse_u64, parsed_u64, u64_to_string};

verus! {

/// The path parameters of the challenge route.
pub struct ChallengeRequestPath {
    pub name: String,
}

/// The query parameters of the challenge route. `count` is optional, and a
/// query value that does not read as a small unsigned integer counts as
/// absent rather than failing the request.
pub struct ChallengeQueryString {
    pub count: Option<u8>,
}

/// The `count` parameter carried by a query string: present exactly when
/// the query binds `count` to a decimal numeral no larger than 255.
pub open spec fn count_of(q: Seq<char>) -> Option<u8> {
    match lookup(parse_form(q), "count"@) {
        None => None,
        Some(v) => match parsed_u64(v) {
            None => None,
            Some(x) => if x <= 255 {
                Some(x as u8)
            } else {
                None
            },
        },
    }
}

/// Reads the optional `count` parameter out of a query string.
pub fn count_param(query: &str) -> (r: Option<u8>)
    ensures
        r == count_of(query@),
{
    let pairs = ugly_form_body_parser(query);
    match form_value(&pairs, "count") {
        None => None,
        Some(v) => match parse_u64(v.as_str()) {
            None => None,
            Some(x) => if x <= 255 {
                Some(x as u8)
            } else {
                None
            },
        },
    }
}

/// The page skeleton around a name and an inner fragment.
pub open spec fn challenge_html(name: Seq<char>, inner: Seq<char>) -> Seq<char> {
    "
            <html>
              <head>
                <title>Izzy's weight challenge</title>
              </head>
              <body>
                <p>Hello, <strong>"@ + name + "</strong>.</p>
                "@ + inner + "
                <br><br>
                <a href='/'>Go Home</a>
              </body>
            </html>"@
}

/// Wraps an inner fragment in the challenge page's skeleton.
pub fn html(name: &str, internal_html: &str) -> (r: String)
    ensures
        r@ == challenge_html(name@, internal_html@),
{
    let mut out = "
            <html>
              <head>
                <title>Izzy's weight challenge</title>
              </head>
              <body>
                <p>Hello, <strong>".to_owned();
    out.append(name);
    out.append("</strong>.</p>
                ");
    out.append(internal_html);
    out.append("
                <br><br>
                <a href='/'>Go Home</a>
              </body>
            </html>");
    proof {
        assert(out@ =~= challenge_html(name@, internal_html@));
    }
    out
}

/// The inner fragment: a boast when no count was readable, the derived
/// `count + 1` answer when one was.
pub open spec fn challenge_inner(count: Option<u8>) -> Seq<char> {
    match count {
        None => "<p>Izzy Mandelbaum can lift more weight than you.</p><p><small>Tip: Append `?count=x`, where x is a number, to tell Izzy how much weight you can lift. Maybe you can lift more weight more than him?</small></p>"@,
        Some(c) => "<p>Izzy Mandelbaum can lift <strong>"@ + dec_str(c as nat + 1)
            + " kgs</strong>, so more weight than you!!.</p><iframe width=\"560\" height=\"315\" src=\"https://www.youtube.com/embed/88M9-rBXubA\" frameborder=\"0\" allowfullscreen></iframe>"@,
    }
}

/// The whole challenge page for a name and an optional count.
pub open spec fn challenge_page(name: Seq<char>, count: Option<u8>) -> Seq<char> {
    challenge_html(name, challenge_inner(count))
}

/// Serves the challenge page. Stateless: the session is neither read nor
/// changed.
pub fn index(crp: &ChallengeRequestPath, cqs: &ChallengeQueryString) -> (resp: HttpResponse)
    ensures
        resp@.status == 200,
        resp@.body == challenge_page(crp.name@, cqs.count),
        resp@.location is None,
        resp@.set_cookie is None,
        !resp@.clear_cookie,
{
    let inner: String = match cqs.count {
        None => "<p>Izzy Mandelbaum can lift more weight than you.</p><p><small>Tip: Append `?count=x`, where x is a number, to tell Izzy how much weight you can lift. Maybe you can lift more weight more than him?</small></p>".to_owned(),
        Some(c) => {
            let mut s = "<p>Izzy Mandelbaum can lift <strong>".to_owned();
            let num = u64_to_string((c as u64) + 1);
            s.append(num.as_str());
            s.append(
                " kgs</strong>, so more weight than you!!.</p><iframe width=\"560\" height=\"315\" src=\"https://www.youtube.com/embed/88M9-rBXubA\" frameborder=\"0\" allowfullscreen></iframe>",
            );
            proof {
                assert(s@ =~= challenge_inner(cqs.count));
            }
            s
        },
    };
    let body = html(crp.name.as_str(), inner.as_str());
    HttpResponse {
        status: 200,
        body,
        location: None,
        set_cookie: None,
        clear_cookie: false,
    }
}

} // verus!
