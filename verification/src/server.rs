//! Dispatch and session middleware: one verified function takes the store
//! and a plain request, routes it, checks the session out, runs the
//! handler, and saves or discards the session before the response leaves.
//! `step` is the whole application as a function from store and request to
//! store and response; `handle_request` is proved equal to it.

use vstd::prelude::*;

use crate::challenge::{challenge_page, count_of, count_param, ChallengeQueryString,
    ChallengeRequestPath};
use crate::http::{HttpRequest, HttpResponse, ReqModel, RespModel};
use crate::router::{route, route_spec, RoutePlan, RouteTarget};
use crate::session::{recognized, SessionStore, StoreModel};
use crate::text::{dec_str, parse_u64, parsed_u64, u64_to_string};
use crate::todo::{add_step, index_body_spec};
use crate::welcome::welcome_page;

verus! {

/// The token a presented cookie names: cookies are decimal numerals, and a
/// value that does not read as one presents no token at all.
pub open spec fn cookie_token(cookie: Option<Seq<char>>) -> Option<u64> {
    match cookie {
        None => None,
        Some(s) => parsed_u64(s),
    }
}

/// The token a routed request operates on: the presented one when the
/// store recognizes it, else the token minted for the request.
pub open spec fn resolved_token(m: StoreModel, req: ReqModel) -> u64 {
    if recognized(m, cookie_token(req.cookie)) {
        cookie_token(req.cookie)->Some_0
    } else {
        m.next
    }
}

/// The list the request starts from: the recognized session's list, or an
/// empty one for a fresh session.
pub open spec fn resolved_list(m: StoreModel, req: ReqModel) -> Seq<Seq<char>> {
    if recognized(m, cookie_token(req.cookie)) {
        m.sessions[cookie_token(req.cookie)->Some_0]
    } else {
        Seq::<Seq<char>>::empty()
    }
}

/// The counter after the request resolved its session: minting a token
/// advances it, a recognized one leaves it alone.
pub open spec fn next_after(m: StoreModel, req: ReqModel) -> u64 {
    if recognized(m, cookie_token(req.cookie)) {
        m.next
    } else {
        (m.next + 1) as u64
    }
}

/// The outcome of one request.
#[verifier::ext_equal]
pub ghost struct Outcome {
    pub store: StoreModel,
    pub resp: RespModel,
}

/// The application, as one step of a state machine: what one request does
/// to the store, and what it answers. An unrouted request changes nothing
/// and is answered with a client error; every routed request resolves a
/// session first and ends with it saved back (or removed, for reset),
/// its token re-sent as the session cookie (or cleared, for reset).
pub open spec fn step(m: StoreModel, req: ReqModel) -> Outcome {
    match route_spec(req.method, req.path) {
        None => Outcome {
            store: m,
            resp: RespModel {
                status: 404,
                body: Seq::<char>::empty(),
                location: None,
                set_cookie: None,
                clear_cookie: false,
            },
        },
        Some(plan) => {
            let tok = resolved_token(m, req);
            let list = resolved_list(m, req);
            let next1 = next_after(m, req);
            match plan {
                RoutePlan::Welcome => Outcome {
                    store: StoreModel { next: next1, sessions: m.sessions.insert(tok, list) },
                    resp: RespModel {
                        status: 200,
                        body: welcome_page(),
                        location: None,
                        set_cookie: Some(dec_str(tok as nat)),
                        clear_cookie: false,
                    },
                },
                RoutePlan::TodoView => Outcome {
                    store: StoreModel { next: next1, sessions: m.sessions.insert(tok, list) },
                    resp: RespModel {
                        status: 200,
                        body: index_body_spec(list),
                        location: None,
                        set_cookie: Some(dec_str(tok as nat)),
                        clear_cookie: false,
                    },
                },
                RoutePlan::TodoAdd => Outcome {
                    store: StoreModel {
                        next: next1,
                        sessions: m.sessions.insert(tok, add_step(list, req.body)),
                    },
                    resp: RespModel {
                        status: 303,
                        body: Seq::<char>::empty(),
                        location: Some("/todo"@),
                        set_cookie: Some(dec_str(tok as nat)),
                        clear_cookie: false,
                    },
                },
                RoutePlan::TodoReset => Outcome {
                    store: StoreModel { next: next1, sessions: m.sessions.remove(tok) },
                    resp: RespModel {
                        status: 303,
                        body: Seq::<char>::empty(),
                        location: Some("/todo"@),
                        set_cookie: None,
                        clear_cookie: true,
                    },
                },
                RoutePlan::Challenge(name) => Outcome {
                    store: StoreModel { next: next1, sessions: m.sessions.insert(tok, list) },
                    resp: RespModel {
                        status: 200,
                        body: challenge_page(name, count_of(req.query)),
                        location: None,
                        set_cookie: Some(dec_str(tok as nat)),
                        clear_cookie: false,
                    },
                },
            }
        },
    }
}

/// Serves one request against the store: routing, session load, handler,
/// session save-or-discard, exactly as `step` describes it.
pub fn handle_request(store: &mut SessionStore, req: &HttpRequest) -> (resp: HttpResponse)
    requires
        old(store).wf(),
        old(store)@.next < u64::MAX,
    ensures
        final(store).wf(),
        final(store)@ == step(old(store)@, req@).store,
        resp@ == step(old(store)@, req@).resp,
{
    let ghost m = old(store)@;
    let target = route(req.method, req.path.as_str());
    match target {
        None => {
            let resp = HttpResponse {
                status: 404,
                body: String::new(),
                location: None,
                set_cookie: None,
                clear_cookie: false,
            };
            proof {
                assert(resp@ =~= step(m, req@).resp);
            }
            resp
        },
        Some(t) => {
            let presented = match &req.cookie {
                Some(c) => parse_u64(c.as_str()),
                None => None,
            };
            proof {
                assert(presented == cookie_token(req@.cookie));
            }
            let (token, mut session) = store.get_or_create(presented);
            proof {
                assert(token == resolved_token(m, req@));
                assert(session@ == resolved_list(m, req@));
                assert(store@.next == next_after(m, req@));
            }
            match t {
                RouteTarget::Welcome => {
                    let mut resp = crate::welcome::index();
                    store.save(token, session);
                    resp.set_cookie = Some(u64_to_string(token));
                    proof {
                        assert(store@ =~= step(m, req@).store);
                        assert(resp@ =~= step(m, req@).resp);
                    }
                    resp
                },
                RouteTarget::TodoView => {
                    let mut resp = crate::todo::index(&session);
                    store.save(token, session);
                    resp.set_cookie = Some(u64_to_string(token));
                    proof {
                        assert(store@ =~= step(m, req@).store);
                        assert(resp@ =~= step(m, req@).resp);
                    }
                    resp
                },
                RouteTarget::TodoAdd => {
                    let mut resp = crate::todo::add(&mut session, req.body.as_str());
                    store.save(token, session);
                    resp.set_cookie = Some(u64_to_string(token));
                    proof {
                        assert(store@ =~= step(m, req@).store);
                        assert(resp@ =~= step(m, req@).resp);
                    }
                    resp
                },
                RouteTarget::TodoReset => {
                    let resp = crate::todo::reset();
                    store.discard(token);
                    proof {
                        assert(store@.sessions =~= m.sessions.remove(token));
                        assert(store@ =~= step(m, req@).store);
                        assert(resp@ =~= step(m, req@).resp);
                    }
                    resp
                },
                RouteTarget::Challenge(name) => {
                    let crp = ChallengeRequestPath { name };
                    let cqs = ChallengeQueryString { count: count_param(req.query.as_str()) };
                    let mut resp = crate::challenge::index(&crp, &cqs);
                    store.save(token, session);
                    resp.set_cookie = Some(u64_to_string(token));
                    proof {
                        assert(store@ =~= step(m, req@).store);
                        assert(resp@ =~= step(m, req@).resp);
                    }
                    resp
                },
            }
        },
    }
}

} // verus!
