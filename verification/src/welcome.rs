//! The landing page: static HTML linking to the challenge and the todo
//! list.

use vstd::prelude::*;

use crate::http::HttpResponse;

verus! {

/// The landing page, character for character.
pub open spec fn welcome_page() -> Seq<char> {
    "<!doctype html>
     <html>
       <head>
         <title>Izzy's weight challenge and todo list</title>
       </head>
       <body>
         <h1>Izzy's weight challenge and todo list</h1>
         <img src='http://i.imgur.com/ZiCQ72b.jpg' alt='Izzy'>
         <ul>
            <li><a href='/challenge/Rustacean'>Weight challenge</a></li>
            <li><a href='/todo'>My todo list</a></li>
        </ul>
       </body>
     </html>"@
}

/// The landing page's HTML.
pub fn html() -> (r: String)
    ensures
        r@ == welcome_page(),
{
    "<!doctype html>
     <html>
       <head>
         <title>Izzy's weight challenge and todo list</title>
       </head>
       <body>
         <h1>Izzy's weight challenge and todo list</h1>
         <img src='http://i.imgur.com/ZiCQ72b.jpg' alt='Izzy'>
         <ul>
            <li><a href='/challenge/Rustacean'>Weight challenge</a></li>
            <li><a href='/todo'>My todo list</a></li>
        </ul>
       </body>
     </html>".to_owned()
}

/// Serves the landing page. Stateless: the session is neither read nor
/// changed.
pub fn index() -> (resp: HttpResponse)
    ensures
        resp@.status == 200,
        resp@.body == welcome_page(),
        resp@.location is None,
        resp@.set_cookie is None,
        !resp@.clear_cookie,
{
    HttpResponse {
        status: 200,
        body: html(),
        location: None,
        set_cookie: None,
        clear_cookie: false,
    }
}

} // verus!
