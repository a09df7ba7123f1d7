//! The application's laws, proved over `step`: what whole request
//! histories do to the store and to what clients observe.

use vstd::prelude::*;

use crate::http::{Method, ReqModel};
use crate::router::{route_spec, RoutePlan};
use crate::server::{cookie_token, resolved_token, step};
use crate::session::{model_wf, recognized, StoreModel};
use crate::text::{dec_str, lemma_dec_str_value, parsed_u64};
use crate::todo::{add_step, index_body_spec, item_of};

verus! {

/// A `POST /todo` request carrying a form body.
pub open spec fn add_req(cookie: Option<Seq<char>>, body: Seq<char>) -> ReqModel {
    ReqModel {
        method: Method::Post,
        path: "/todo"@,
        query: Seq::<char>::empty(),
        cookie,
        body,
    }
}

/// A `GET /todo` request.
pub open spec fn view_req(cookie: Option<Seq<char>>) -> ReqModel {
    ReqModel {
        method: Method::Get,
        path: "/todo"@,
        query: Seq::<char>::empty(),
        cookie,
        body: Seq::<char>::empty(),
    }
}

/// A `POST /todo/reset` request.
pub open spec fn reset_req(cookie: Option<Seq<char>>) -> ReqModel {
    ReqModel {
        method: Method::Post,
        path: "/todo/reset"@,
        query: Seq::<char>::empty(),
        cookie,
        body: Seq::<char>::empty(),
    }
}

/// Where the fixed todo paths route to.
proof fn lemma_todo_routes()
    ensures
        route_spec(Method::Post, "/todo"@) == Some(RoutePlan::TodoAdd),
        route_spec(Method::Get, "/todo"@) == Some(RoutePlan::TodoView),
        route_spec(Method::Post, "/todo/reset"@) == Some(RoutePlan::TodoReset),
{
    reveal_strlit("/");
    reveal_strlit("/todo");
    reveal_strlit("/todo/reset");
    reveal_strlit("/challenge/");
}

/// A session's own cookie names its token: the decimal rendering of a
/// token reads back as that token.
pub proof fn lemma_cookie_round_trip(t: u64)
    ensures
        parsed_u64(dec_str(t as nat)) == Some(t),
{
    lemma_dec_str_value(t as nat);
}

/// The store after a run of add-item requests, every one presenting
/// `cookie`.
pub open spec fn run_adds(m: StoreModel, cookie: Seq<char>, bodies: Seq<Seq<char>>) -> StoreModel
    decreases bodies.len(),
{
    if bodies.len() == 0 {
        m
    } else {
        step(run_adds(m, cookie, bodies.drop_last()), add_req(Some(cookie), bodies.last())).store
    }
}

/// The items a run of add bodies submits: each body's `item` value, in
/// submission order, empty and absent ones left out.
pub open spec fn added_items(bodies: Seq<Seq<char>>) -> Seq<Seq<char>>
    decreases bodies.len(),
{
    if bodies.len() == 0 {
        Seq::<Seq<char>>::empty()
    } else {
        let rest = added_items(bodies.drop_last());
        match item_of(bodies.last()) {
            Some(v) => if v.len() > 0 {
                rest.push(v)
            } else {
                rest
            },
            None => rest,
        }
    }
}

/// Any sequence of add-item requests against one session leaves that
/// session's list equal to the old list followed by exactly the submitted
/// nonempty items, in submission order; every other session, and the
/// counter, are untouched.
pub proof fn lemma_adds_accumulate(m: StoreModel, t: u64, bodies: Seq<Seq<char>>)
    requires
        model_wf(m),
        m.sessions.contains_key(t),
    ensures
        ({
            let r = run_adds(m, dec_str(t as nat), bodies);
            &&& model_wf(r)
            &&& r.next == m.next
            &&& r.sessions.contains_key(t)
            &&& r.sessions[t] == m.sessions[t] + added_items(bodies)
            &&& forall|k: u64|
                #![trigger r.sessions.contains_key(k)]
                #![trigger m.sessions.contains_key(k)]
                k != t ==> (r.sessions.contains_key(k) <==> m.sessions.contains_key(k))
                    && (m.sessions.contains_key(k) ==> r.sessions[k] == m.sessions[k])
        }),
    decreases bodies.len(),
{
    let ck = dec_str(t as nat);
    lemma_cookie_round_trip(t);
    lemma_todo_routes();
    if bodies.len() == 0 {
        assert(m.sessions[t] + added_items(bodies) =~= m.sessions[t]);
    } else {
        let pre = bodies.drop_last();
        lemma_adds_accumulate(m, t, pre);
        let m1 = run_adds(m, ck, pre);
        let body = bodies.last();
        assert(cookie_token(Some(ck)) == Some(t));
        assert(recognized(m1, Some(t)));
        let r = step(m1, add_req(Some(ck), body)).store;
        assert(run_adds(m, ck, bodies) == r);
        assert(r.sessions == m1.sessions.insert(t, add_step(m1.sessions[t], body)));
        match item_of(body) {
            Some(v) => {
                if v.len() > 0 {
                    assert((m.sessions[t] + added_items(pre)).push(v) =~= m.sessions[t]
                        + added_items(pre).push(v));
                    assert(added_items(bodies) == added_items(pre).push(v));
                } else {
                    assert(added_items(bodies) == added_items(pre));
                }
            },
            None => {
                assert(added_items(bodies) == added_items(pre));
            },
        }
        assert(r.sessions[t] == m.sessions[t] + added_items(bodies));
        assert forall|k: u64| #[trigger] r.sessions.contains_key(k) implies k < r.next by {
            if k != t {
                assert(m1.sessions.contains_key(k));
            }
        }
        assert forall|k: u64| k != t implies (r.sessions.contains_key(k)
            <==> m.sessions.contains_key(k)) && (m.sessions.contains_key(k)
            ==> r.sessions[k] == m.sessions[k]) by {
            assert(r.sessions.contains_key(k) <==> m1.sessions.contains_key(k));
            assert(m1.sessions.contains_key(k) <==> m.sessions.contains_key(k));
            if m.sessions.contains_key(k) {
                assert(r.sessions[k] == m1.sessions[k]);
                assert(m1.sessions[k] == m.sessions[k]);
            }
        }
    }
}

/// A request whose cookie does not name session `k` never changes session
/// `k`: sessions are isolated from one another, so requests against
/// distinct sessions cannot cross-contaminate.
pub proof fn lemma_other_sessions_untouched(m: StoreModel, req: ReqModel, k: u64)
    requires
        model_wf(m),
        m.sessions.contains_key(k),
        cookie_token(req.cookie) != Some(k),
    ensures
        step(m, req).store.sessions.contains_key(k),
        step(m, req).store.sessions[k] == m.sessions[k],
{
    assert(resolved_token(m, req) != k);
}

/// A reset, followed by a read presenting whatever cookie the client still
/// holds, shows an empty list under a session identifier different from
/// the one the reset destroyed.
pub proof fn lemma_reset_then_view(m: StoreModel, c: Option<Seq<char>>)
    requires
        model_wf(m),
        m.next < u64::MAX,
    ensures
        ({
            let t = resolved_token(m, reset_req(c));
            let m1 = step(m, reset_req(c)).store;
            let o2 = step(m1, view_req(c));
            &&& !m1.sessions.contains_key(t)
            &&& o2.resp.status == 200
            &&& o2.resp.body == index_body_spec(Seq::<Seq<char>>::empty())
            &&& resolved_token(m1, view_req(c)) != t
            &&& o2.resp.set_cookie == Some(dec_str(resolved_token(m1, view_req(c)) as nat))
        }),
{
    lemma_todo_routes();
    let t = resolved_token(m, reset_req(c));
    let m1 = step(m, reset_req(c)).store;
    assert(m1.sessions == m.sessions.remove(t));
    match cookie_token(c) {
        Some(x) => {
            if m.sessions.contains_key(x) {
                assert(t == x);
                assert(t < m.next);
                assert(m1.next == m.next);
            } else {
                assert(t == m.next);
            }
            assert(!m1.sessions.contains_key(x));
        },
        None => {},
    }
    assert(!recognized(m1, cookie_token(c)));
    assert(resolved_token(m1, view_req(c)) == m1.next);
    if recognized(m, cookie_token(c)) {
        assert(m1.next == m.next);
        assert(t < m.next);
    } else {
        assert(t == m.next);
        assert(m1.next == m.next + 1);
    }
    assert(m1.next != t);
}

/// A request presenting an unrecognized cookie is served as a brand-new
/// session: the list view answers 200 with an empty list, not an error.
pub proof fn lemma_unrecognized_cookie_is_fresh(m: StoreModel, c: Seq<char>)
    requires
        model_wf(m),
        !recognized(m, cookie_token(Some(c))),
    ensures
        step(m, view_req(Some(c))).resp.status == 200,
        step(m, view_req(Some(c))).resp.body == index_body_spec(Seq::<Seq<char>>::empty()),
{
    lemma_todo_routes();
}

/// First contact without a cookie, then two requests presenting the cookie
/// the first response set: the item added by the second request is what
/// the third request's list view renders.
pub proof fn lemma_cookie_continuity(m: StoreModel, body: Seq<char>, i: Seq<char>)
    requires
        model_wf(m),
        item_of(body) == Some(i),
        i.len() > 0,
    ensures
        ({
            let o1 = step(m, view_req(None));
            let c = o1.resp.set_cookie->Some_0;
            let o2 = step(o1.store, add_req(Some(c), body));
            let o3 = step(o2.store, view_req(Some(c)));
            &&& o1.resp.set_cookie is Some
            &&& o1.resp.body == index_body_spec(Seq::<Seq<char>>::empty())
            &&& o3.resp.body == index_body_spec(seq![i])
        }),
{
    lemma_todo_routes();
    let t = m.next;
    lemma_cookie_round_trip(t);
    let o1 = step(m, view_req(None));
    let c = o1.resp.set_cookie->Some_0;
    assert(c == dec_str(t as nat));
    assert(o1.store.sessions.contains_key(t));
    assert(o1.store.sessions[t] == Seq::<Seq<char>>::empty());
    let o2 = step(o1.store, add_req(Some(c), body));
    assert(o2.store.sessions[t] =~= seq![i]);
    let o3 = step(o2.store, view_req(Some(c)));
    assert(o3.resp.body == index_body_spec(seq![i]));
}

/// A request outside the route table is answered with a client error and
/// leaves the store exactly as it was; it is never a crash and never a
/// success.
pub proof fn lemma_unrouted_is_client_error(m: StoreModel, req: ReqModel)
    requires
        route_spec(req.method, req.path) is None,
    ensures
        400 <= step(m, req).resp.status < 500,
        step(m, req).store == m,
{
}

} // verus!
