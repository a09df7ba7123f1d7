//! The route table: which method/path pairs the application serves, and
//! which handler each pair reaches. Exactly one route matches a request;
//! everything else is left to the caller as "no match".
//!
//! ```text
//! /                   GET, HEAD   welcome
//! /todo               GET, HEAD   todo list view
//! /todo               POST        add an item
//! /todo/reset         POST        reset the session
//! /challenge/{name}   GET, HEAD   challenge page (dynamic segment)
//! ```

use vstd::prelude::*;

use crate::http::Method;
use crate::text::{find_char, find_first, str_eq};

verus! {

/// A matched route, with the dynamic path segment it captured.
pub enum RouteTarget {
    Welcome,
    TodoView,
    TodoAdd,
    TodoReset,
    Challenge(String),
}

/// The spec-level image of a matched route.
pub ghost enum RoutePlan {
    Welcome,
    TodoView,
    TodoAdd,
    TodoReset,
    Challenge(Seq<char>),
}

impl View for RouteTarget {
    type V = RoutePlan;

    open spec fn view(&self) -> RoutePlan {
        match self {
            RouteTarget::Welcome => RoutePlan::Welcome,
            RouteTarget::TodoView => RoutePlan::TodoView,
            RouteTarget::TodoAdd => RoutePlan::TodoAdd,
            RouteTarget::TodoReset => RoutePlan::TodoReset,
            RouteTarget::Challenge(name) => RoutePlan::Challenge(name@),
        }
    }
}

pub open spec fn is_get_or_head(m: Method) -> bool {
    m == Method::Get || m == Method::Head
}

/// The name captured by the challenge route: what follows `/challenge/`,
/// provided it is nonempty and holds no further path separator.
pub open spec fn challenge_name(path: Seq<char>) -> Option<Seq<char>> {
    let pre = "/challenge/"@;
    if path.len() > pre.len() && path.take(pre.len() as int) == pre && find_first(
        path.skip(pre.len() as int),
        '/',
    ) is None {
        Some(path.skip(pre.len() as int))
    } else {
        None
    }
}

/// The route matched by a method and a path, if any. A path outside the
/// table, or a verb a route does not accept, matches nothing.
pub open spec fn route_spec(method: Method, path: Seq<char>) -> Option<RoutePlan> {
    if path == "/"@ && is_get_or_head(method) {
        Some(RoutePlan::Welcome)
    } else if path == "/todo"@ && is_get_or_head(method) {
        Some(RoutePlan::TodoView)
    } else if path == "/todo"@ && method == Method::Post {
        Some(RoutePlan::TodoAdd)
    } else if path == "/todo/reset"@ && method == Method::Post {
        Some(RoutePlan::TodoReset)
    } else if is_get_or_head(method) && challenge_name(path) is Some {
        Some(RoutePlan::Challenge(challenge_name(path)->Some_0))
    } else {
        None
    }
}

/// Matches a request against the route table.
pub fn route(method: Method, path: &str) -> (r: Option<RouteTarget>)
    ensures
        match r {
            Some(t) => route_spec(method, path@) == Some(t@),
            None => route_spec(method, path@) is None,
        },
{
    proof {
        reveal_strlit("/");
        reveal_strlit("/todo");
        reveal_strlit("/todo/reset");
        reveal_strlit("/challenge/");
    }
    let get_or_head = match method {
        Method::Get => true,
        Method::Head => true,
        _ => false,
    };
    let post = match method {
        Method::Post => true,
        _ => false,
    };
    if str_eq(path, "/") {
        if get_or_head {
            return Some(RouteTarget::Welcome);
        }
        return None;
    }
    if str_eq(path, "/todo") {
        if get_or_head {
            return Some(RouteTarget::TodoView);
        }
        if post {
            return Some(RouteTarget::TodoAdd);
        }
        return None;
    }
    if str_eq(path, "/todo/reset") {
        if post {
            return Some(RouteTarget::TodoReset);
        }
        return None;
    }
    let n = path.unicode_len();
    if n >= 12 {
        let pre = path.substring_char(0, 11);
        proof {
            assert(pre@ =~= path@.take(11));
        }
        if str_eq(pre, "/challenge/") {
            let name = path.substring_char(11, n);
            proof {
                assert(name@ =~= path@.skip(11));
            }
            match find_char(name, '/') {
                None => {
                    if get_or_head {
                        return Some(RouteTarget::Challenge(name.to_owned()));
                    }
                    return None;
                },
                Some(_) => {
                    return None;
                },
            }
        }
    }
    None
}

} // verus!
