//! The todo handlers: render the session's list, append a submitted item,
//! or reset the session.

use vstd::prelude::*;

use crate::form::{form_value, lookup, parse_form, ugly_form_body_parser};
use crate::http::HttpResponse;
use crate::session::Session;

verus! {

/// The list items, rendered in order. Items are inserted verbatim, with
/// no escaping: user text can inject markup, a known and deliberate
/// limitation of this demo application, documented rather than patched.
pub open spec fn rendered_items(items: Seq<Seq<char>>) -> Seq<char>
    decreases items.len(),
{
    if items.len() == 0 {
        Seq::<char>::empty()
    } else {
        rendered_items(items.drop_last()) + "<li>"@ + items.last() + "</li>"@
    }
}

/// The list page, character for character: an empty list renders no list
/// element at all.
pub open spec fn index_body_spec(items: Seq<Seq<char>>) -> Seq<char> {
    "
        <!doctype html>
        <html>
            <head>
                <title>Todo (Session-backed)</title>
            </head>
            <body>
                <h1>Todo list</h1>
    "@ + (if items.len() > 0 {
        "<ul>"@ + rendered_items(items) + "</ul>"@
    } else {
        Seq::<char>::empty()
    }) + "
                <form method=\"post\">
                    <input type=\"text\" name=\"item\"/>
                    <button type=\"submit\">Add</button>
                </form>
                <script type=\"text/javascript\">
                    document.forms[0].getElementsByTagName('input')[0].focus()
                </script>

                <form method=\"post\" action=\"/todo/reset\">
                    <button type=\"submit\">Reset</button>
                </form>
                <br><br>
                <a href=\"/\">Go Home</a>
            </body>
        </html>
        "@
}

/// Renders the list page for the given items.
pub fn index_body(items: &Vec<String>) -> (r: String)
    ensures
        r@ == index_body_spec(items.deep_view()),
{
    let ghost dv = items.deep_view();
    let mut out = "
        <!doctype html>
        <html>
            <head>
                <title>Todo (Session-backed)</title>
            </head>
            <body>
                <h1>Todo list</h1>
    ".to_owned();
    let ghost header = out@;
    if items.len() > 0 {
        out.append("<ul>");
        let mut i: usize = 0;
        proof {
            assert(dv.take(0) =~= Seq::<Seq<char>>::empty());
        }
        while i < items.len()
            invariant
                0 <= i <= items.len(),
                dv == items.deep_view(),
                dv.len() == items.len(),
                out@ == header + "<ul>"@ + rendered_items(dv.take(i as int)),
            decreases items.len() - i,
        {
            out.append("<li>");
            out.append(items[i].as_str());
            out.append("</li>");
            proof {
                assert(dv.take(i + 1).drop_last() =~= dv.take(i as int));
                assert(dv.take(i + 1).last() == items@[i as int]@);
                assert(out@ =~= header + "<ul>"@ + rendered_items(dv.take(i + 1)));
            }
            i = i + 1;
        }
        proof {
            assert(dv.take(dv.len() as int) =~= dv);
        }
        out.append("</ul>");
    }
    out.append(
        "
                <form method=\"post\">
                    <input type=\"text\" name=\"item\"/>
                    <button type=\"submit\">Add</button>
                </form>
                <script type=\"text/javascript\">
                    document.forms[0].getElementsByTagName('input')[0].focus()
                </script>

                <form method=\"post\" action=\"/todo/reset\">
                    <button type=\"submit\">Reset</button>
                </form>
                <br><br>
                <a href=\"/\">Go Home</a>
            </body>
        </html>
        ",
    );
    proof {
        assert(out@ =~= index_body_spec(dv));
    }
    out
}

/// Serves the list view for the given session.
pub fn index(session: &Session) -> (resp: HttpResponse)
    ensures
        resp@.status == 200,
        resp@.body == index_body_spec(session@),
        resp@.location is None,
        resp@.set_cookie is None,
        !resp@.clear_cookie,
{
    HttpResponse {
        status: 200,
        body: index_body(&session.todo_list),
        location: None,
        set_cookie: None,
        clear_cookie: false,
    }
}

/// The `item` field submitted by a form body, if any.
pub open spec fn item_of(body: Seq<char>) -> Option<Seq<char>> {
    lookup(parse_form(body), "item"@)
}

/// What one add-item submission does to a list: appends the submitted
/// `item` value verbatim when it is present and nonempty, and otherwise
/// leaves the list alone.
pub open spec fn add_step(list: Seq<Seq<char>>, body: Seq<char>) -> Seq<Seq<char>> {
    match item_of(body) {
        Some(v) => if v.len() > 0 {
            list.push(v)
        } else {
            list
        },
        None => list,
    }
}

/// Appends the submitted item, if one was submitted, and redirects to the
/// list view either way.
pub fn add(session: &mut Session, body: &str) -> (resp: HttpResponse)
    ensures
        final(session)@ == add_step(old(session)@, body@),
        resp@.status == 303,
        resp@.body == Seq::<char>::empty(),
        resp@.location == Some("/todo"@),
        resp@.set_cookie is None,
        !resp@.clear_cookie,
{
    let pairs = ugly_form_body_parser(body);
    if let Some(item) = form_value(&pairs, "item") {
        if item.unicode_len() > 0 {
            let ghost v = item@;
            session.todo_list.push(item);
            proof {
                assert(session@ =~= old(session)@.push(v));
            }
        }
    }
    redirect_to_list()
}

/// Redirects to the list view; the caller discards the session itself.
pub fn reset() -> (resp: HttpResponse)
    ensures
        resp@.status == 303,
        resp@.body == Seq::<char>::empty(),
        resp@.location == Some("/todo"@),
        resp@.set_cookie is None,
        resp@.clear_cookie,
{
    let mut resp = redirect_to_list();
    resp.clear_cookie = true;
    resp
}

/// The `303 See Other` answer both mutating handlers end with.
fn redirect_to_list() -> (resp: HttpResponse)
    ensures
        resp@.status == 303,
        resp@.body == Seq::<char>::empty(),
        resp@.location == Some("/todo"@),
        resp@.set_cookie is None,
        !resp@.clear_cookie,
{
    HttpResponse {
        status: 303,
        body: String::new(),
        location: Some("/todo".to_owned()),
        set_cookie: None,
        clear_cookie: false,
    }
}

} // verus!
