//! The routing table of the service and the resolution of a request line against it.
//!
//! A route serves either one fixed path, or every path made of its prefix, a slash and one
//! further segment that names a to-do by its identifier.

use vstd::prelude::*;
use crate::text::{chars_of, prefix_at, same_chars, has_char_from};

verus! {

/// The request methods the table tells apart; every other method is `Other`.
#[derive(Clone, Copy, Debug, PartialEq, Eq, Structural)]
pub enum Method {
    Get,
    Post,
    Put,
    Delete,
    Other,
}

/// What a route leads to.
#[derive(Clone, Copy, Debug, PartialEq, Eq, Structural)]
pub enum Endpoint {
    /// Liveness: answers without touching the store.
    Alive,
    /// Readiness: answers after a trivial round trip to the store.
    Ready,
    TodoList,
    TodoCreate,
    TodoRead,
    TodoUpdate,
    TodoDelete,
}

impl Endpoint {
    /// Whether the endpoint works on one to-do, named by the last segment of the path.
    pub open spec fn names_todo(self) -> bool {
        self is TodoRead || self is TodoUpdate || self is TodoDelete
    }

    /// Whether the endpoint works on one to-do, named by the last segment of the path.
    #[verifier::when_used_as_spec(names_todo)]
    pub fn takes_id(self) -> (yes: bool)
        ensures
            yes == self.names_todo(),
    {
        match self {
            Endpoint::TodoRead | Endpoint::TodoUpdate | Endpoint::TodoDelete => true,
            _ => false,
        }
    }

    /// The target that the endpoint is for the to-do that `id` names.
    pub open spec fn target(self, id: i64) -> Target {
        match self {
            Endpoint::Alive => Target::Alive,
            Endpoint::Ready => Target::Ready,
            Endpoint::TodoList => Target::TodoList,
            Endpoint::TodoCreate => Target::TodoCreate,
            Endpoint::TodoRead => Target::TodoRead(id),
            Endpoint::TodoUpdate => Target::TodoUpdate(id),
            Endpoint::TodoDelete => Target::TodoDelete(id),
        }
    }

    /// The target that the endpoint is for the to-do that `id` names; `id` counts only for
    /// an endpoint that works on one to-do.
    pub fn with_id(self, id: i64) -> (target: Target)
        ensures
            target == self.target(id),
    {
        match self {
            Endpoint::Alive => Target::Alive,
            Endpoint::Ready => Target::Ready,
            Endpoint::TodoList => Target::TodoList,
            Endpoint::TodoCreate => Target::TodoCreate,
            Endpoint::TodoRead => Target::TodoRead(id),
            Endpoint::TodoUpdate => Target::TodoUpdate(id),
            Endpoint::TodoDelete => Target::TodoDelete(id),
        }
    }
}

/// An endpoint together with the identifier of the to-do that it works on, if it works on
/// one.
#[derive(Clone, Copy, Debug, PartialEq, Eq, Structural)]
pub enum Target {
    Alive,
    Ready,
    TodoList,
    TodoCreate,
    TodoRead(i64),
    TodoUpdate(i64),
    TodoDelete(i64),
}

impl Target {
    /// The endpoint that was reached.
    pub open spec fn endpoint(self) -> Endpoint {
        match self {
            Target::Alive => Endpoint::Alive,
            Target::Ready => Endpoint::Ready,
            Target::TodoList => Endpoint::TodoList,
            Target::TodoCreate => Endpoint::TodoCreate,
            Target::TodoRead(_) => Endpoint::TodoRead,
            Target::TodoUpdate(_) => Endpoint::TodoUpdate,
            Target::TodoDelete(_) => Endpoint::TodoDelete,
        }
    }

    /// The identifier of the to-do that is worked on, if one is.
    pub open spec fn id(self) -> Option<i64> {
        match self {
            Target::TodoRead(id) => Some(id),
            Target::TodoUpdate(id) => Some(id),
            Target::TodoDelete(id) => Some(id),
            _ => None,
        }
    }
}

/// One line of the routing table. A route whose endpoint works on one to-do serves the paths
/// made of its prefix, a slash and one further segment; every other route serves its prefix.
pub struct Route {
    method: Method,
    prefix: String,
    endpoint: Endpoint,
}

/// The mathematical content of a [`Route`].
pub ghost struct RouteSpec {
    pub method: Method,
    pub prefix: Seq<char>,
    pub endpoint: Endpoint,
}

/// How a request line fares against the table.
#[derive(Clone, Copy, Debug, PartialEq, Eq, Structural)]
pub enum Resolution {
    /// A route serves the method and the path.
    Found(Target),
    /// A route serves the method and the path, but the last segment is no 64-bit integer.
    InvalidId,
    /// Some route serves the path, none serves it under this method.
    WrongMethod,
    /// No route serves the path.
    NoRoute,
}

/// Whether `c` is one of the ten decimal digits.
pub open spec fn is_digit(c: char) -> bool {
    '0' as u32 <= c as u32 <= '9' as u32
}

/// The number a run of digits denotes in base ten; 0 for the empty run.
pub open spec fn decimal(digits: Seq<char>) -> int
    decreases digits.len(),
{
    if digits.len() == 0 {
        0
    } else {
        decimal(digits.drop_last()) * 10 + (digits.last() as u32 - '0' as u32)
    }
}

pub open spec fn all_digits(text: Seq<char>) -> bool {
    forall|i: int| 0 <= i < text.len() ==> is_digit(#[trigger] text[i])
}

/// Whether `text` opens with a sign.
pub open spec fn has_sign(text: Seq<char>) -> bool {
    text.len() > 0 && (text[0] == '-' || text[0] == '+')
}

/// The digits of `text`: all of it but a leading sign.
pub open spec fn digits_of(text: Seq<char>) -> Seq<char> {
    if has_sign(text) {
        text.skip(1)
    } else {
        text
    }
}

/// The integer that `text` writes down, whether or not it fits an identifier.
pub open spec fn signed_decimal(text: Seq<char>) -> int {
    if text.len() > 0 && text[0] == '-' {
        -decimal(digits_of(text))
    } else {
        decimal(digits_of(text))
    }
}

/// The identifier that a path segment denotes: an optional sign, then at least one decimal
/// digit and nothing else, the whole within the range of `i64`.
pub open spec fn id_of(text: Seq<char>) -> Option<i64> {
    if digits_of(text).len() > 0 && all_digits(digits_of(text)) && i64::MIN <= signed_decimal(text)
        <= i64::MAX {
        Some(signed_decimal(text) as i64)
    } else {
        None
    }
}

/// A run of digits denotes at least what any of its prefixes denotes.
proof fn lemma_decimal_grows(digits: Seq<char>, k: int)
    requires
        all_digits(digits),
        0 <= k <= digits.len(),
    ensures
        0 <= decimal(digits.take(k)) <= decimal(digits),
    decreases digits.len() - k,
{
    lemma_decimal_nonnegative(digits.take(k));
    if k < digits.len() {
        lemma_decimal_grows(digits, k + 1);
        let longer = digits.take(k + 1);
        assert(longer.drop_last() == digits.take(k));
        assert(is_digit(digits[k]));
        assert(longer.last() == digits[k]);
    } else {
        assert(digits.take(k) == digits);
    }
}

proof fn lemma_decimal_nonnegative(digits: Seq<char>)
    requires
        all_digits(digits),
    ensures
        0 <= decimal(digits),
    decreases digits.len(),
{
    if digits.len() > 0 {
        lemma_decimal_nonnegative(digits.drop_last());
        assert(is_digit(digits[digits.len() - 1]));
    }
}

/// Reads a path segment as an identifier.
pub fn parse_id(text: &Vec<char>) -> (id: Option<i64>)
    ensures
        id == id_of(text@),
{
    let n = text.len();
    if n == 0 {
        return None;
    }
    let negative = text[0] == '-';
    let start: usize = if negative || text[0] == '+' {
        1
    } else {
        0
    };
    if start == n {
        return None;
    }
    let ghost digits = digits_of(text@);
    assert(digits == text@.skip(start as int));
    let mut magnitude: i128 = 0;
    let mut i: usize = start;
    assert(digits.take(0) == Seq::<char>::empty());
    while i < n
        invariant
            start <= i <= n,
            n == text.len(),
            digits == text@.skip(start as int),
            digits == digits_of(text@),
            all_digits(digits.take(i - start)),
            magnitude == decimal(digits.take(i - start)),
            0 <= magnitude <= 0x8000_0000_0000_0000,
        decreases n - i,
    {
        let code = text[i] as u32;
        let ghost seen = digits.take(i - start + 1);
        assert(seen.drop_last() == digits.take(i - start));
        assert(seen.last() == text[i as int]);
        assert('0' as u32 == 48 && '9' as u32 == 57);
        assert(digits[i - start] == text[i as int]);
        if code < 48 || code > 57 {
            assert(!is_digit(digits[i - start]));
            return None;
        }
        magnitude = magnitude * 10 + ((code - 48) as i128);
        if magnitude > 0x8000_0000_0000_0000 {
            proof {
                if all_digits(digits) {
                    lemma_decimal_grows(digits, i - start + 1);
                }
            }
            return None;
        }
        i = i + 1;
    }
    assert(digits.take(n - start) == digits);
    if negative {
        Some((-magnitude) as i64)
    } else if magnitude <= 0x7fff_ffff_ffff_ffff {
        Some(magnitude as i64)
    } else {
        None
    }
}

impl RouteSpec {
    /// The segment after the prefix and its slash.
    pub open spec fn id_text(self, path: Seq<char>) -> Seq<char> {
        path.skip(self.prefix.len() + 1 as int)
    }

    /// Whether the route serves `path`, whatever the method.
    pub open spec fn serves(self, path: Seq<char>) -> bool {
        if self.endpoint.names_todo() {
            &&& path.len() > self.prefix.len() + 1
            &&& path.take(self.prefix.len() as int) == self.prefix
            &&& path[self.prefix.len() as int] == '/'
            &&& !self.id_text(path).contains('/')
        } else {
            path == self.prefix
        }
    }

    /// What the route answers to a path that it serves.
    pub open spec fn outcome(self, path: Seq<char>) -> Resolution {
        if self.endpoint.names_todo() {
            match id_of(self.id_text(path)) {
                Some(id) => Resolution::Found(self.endpoint.target(id)),
                None => Resolution::InvalidId,
            }
        } else {
            Resolution::Found(self.endpoint.target(0))
        }
    }
}

/// The resolution of a request line against `table`: the outcome of the first route that
/// serves both method and path; failing that, `WrongMethod` if some route serves the path,
/// and `NoRoute` otherwise.
pub open spec fn resolve_in(table: Seq<RouteSpec>, method: Method, path: Seq<char>) -> Resolution
    decreases table.len(),
{
    if table.len() == 0 {
        Resolution::NoRoute
    } else {
        let rest = resolve_in(table.drop_first(), method, path);
        if !table.first().serves(path) {
            rest
        } else if table.first().method == method {
            table.first().outcome(path)
        } else if rest is NoRoute {
            Resolution::WrongMethod
        } else {
            rest
        }
    }
}

impl View for Route {
    type V = RouteSpec;

    closed spec fn view(&self) -> RouteSpec {
        RouteSpec { method: self.method, prefix: self.prefix@, endpoint: self.endpoint }
    }
}

impl Route {
    pub fn new(method: Method, prefix: &str, endpoint: Endpoint) -> (route: Route)
        ensures
            route@ == (RouteSpec { method, prefix: prefix@, endpoint }),
    {
        Route { method, prefix: String::from_str(prefix), endpoint }
    }

    pub fn method(&self) -> (method: Method)
        ensures
            method == self@.method,
    {
        self.method
    }

    /// The fixed part of the path.
    pub fn prefix(&self) -> (prefix: &str)
        ensures
            prefix@ == self@.prefix,
    {
        self.prefix.as_str()
    }

    pub fn endpoint(&self) -> (endpoint: Endpoint)
        ensures
            endpoint == self@.endpoint,
    {
        self.endpoint
    }

    /// Whether the route serves `path`, whatever the method.
    pub fn serves(&self, path: &Vec<char>) -> (yes: bool)
        ensures
            yes == self@.serves(path@),
    {
        let prefix = chars_of(self.prefix.as_str());
        if !self.endpoint.takes_id() {
            return same_chars(path, &prefix);
        }
        if path.len() <= prefix.len() || path.len() - prefix.len() < 2 {
            return false;
        }
        if !prefix_at(path, &prefix) {
            return false;
        }
        if path[prefix.len()] != '/' {
            return false;
        }
        !has_char_from(path, prefix.len() + 1, '/')
    }

    /// What the route answers to a path that it serves.
    fn outcome(&self, path: &Vec<char>) -> (found: Resolution)
        requires
            self@.serves(path@),
        ensures
            found == self@.outcome(path@),
    {
        if !self.endpoint.takes_id() {
            return Resolution::Found(self.endpoint.with_id(0));
        }
        let prefix_len = self.prefix.as_str().unicode_len();
        assert(prefix_len + 1 < path.len());
        let skip = prefix_len + 1;
        let mut segment: Vec<char> = Vec::new();
        let mut i: usize = skip;
        while i < path.len()
            invariant
                skip <= i <= path.len(),
                segment@ == path@.subrange(skip as int, i as int),
            decreases path.len() - i,
        {
            segment.push(path[i]);
            i = i + 1;
        }
        assert(segment@ == self@.id_text(path@));
        match parse_id(&segment) {
            Some(id) => Resolution::Found(self.endpoint.with_id(id)),
            None => Resolution::InvalidId,
        }
    }
}

/// The routing table together with the two layers that wrap every route.
pub struct Router {
    routes: Vec<Route>,
    any_origin: bool,
    traced: bool,
}

/// What is left to decide once the routes from some position on have been resolved by
/// themselves: a path that an earlier route served is no longer unknown.
pub open spec fn after_served(served: bool, rest: Resolution) -> Resolution {
    if served && rest is NoRoute {
        Resolution::WrongMethod
    } else {
        rest
    }
}

/// The routes of `inner`, each below `prefix`.
pub open spec fn nested(prefix: Seq<char>, inner: Seq<RouteSpec>) -> Seq<RouteSpec> {
    Seq::new(inner.len(), |i: int| RouteSpec { prefix: prefix + inner[i].prefix, ..inner[i] })
}

/// The table of the service.
pub open spec fn service_table() -> Seq<RouteSpec> {
    seq![
        RouteSpec { method: Method::Get, prefix: "/alive"@, endpoint: Endpoint::Alive },
        RouteSpec { method: Method::Get, prefix: "/ready"@, endpoint: Endpoint::Ready },
    ] + nested(
        "/v1"@,
        seq![
            RouteSpec { method: Method::Get, prefix: "/todos"@, endpoint: Endpoint::TodoList },
            RouteSpec { method: Method::Post, prefix: "/todos"@, endpoint: Endpoint::TodoCreate },
            RouteSpec { method: Method::Get, prefix: "/todos"@, endpoint: Endpoint::TodoRead },
            RouteSpec { method: Method::Put, prefix: "/todos"@, endpoint: Endpoint::TodoUpdate },
            RouteSpec { method: Method::Delete, prefix: "/todos"@, endpoint: Endpoint::TodoDelete },
        ],
    )
}

/// Whether `path` is that of one to-do: the path of the collection, a slash and one further
/// segment.
pub open spec fn names_one_todo(path: Seq<char>) -> bool {
    &&& path.len() > "/v1/todos/"@.len()
    &&& path.take("/v1/todos/"@.len() as int) == "/v1/todos/"@
    &&& !todo_segment(path).contains('/')
}

/// The last segment of the path of one to-do.
pub open spec fn todo_segment(path: Seq<char>) -> Seq<char> {
    path.skip("/v1/todos/"@.len() as int)
}

/// What a request line leads to in the service, read off its interface.
pub open spec fn service_resolution(method: Method, path: Seq<char>) -> Resolution {
    if path == "/alive"@ {
        match method {
            Method::Get => Resolution::Found(Target::Alive),
            _ => Resolution::WrongMethod,
        }
    } else if path == "/ready"@ {
        match method {
            Method::Get => Resolution::Found(Target::Ready),
            _ => Resolution::WrongMethod,
        }
    } else if path == "/v1/todos"@ {
        match method {
            Method::Get => Resolution::Found(Target::TodoList),
            Method::Post => Resolution::Found(Target::TodoCreate),
            _ => Resolution::WrongMethod,
        }
    } else if names_one_todo(path) {
        match (method, id_of(todo_segment(path))) {
            (Method::Get, Some(id)) => Resolution::Found(Target::TodoRead(id)),
            (Method::Put, Some(id)) => Resolution::Found(Target::TodoUpdate(id)),
            (Method::Delete, Some(id)) => Resolution::Found(Target::TodoDelete(id)),
            (Method::Get, None) => Resolution::InvalidId,
            (Method::Put, None) => Resolution::InvalidId,
            (Method::Delete, None) => Resolution::InvalidId,
            _ => Resolution::WrongMethod,
        }
    } else {
        Resolution::NoRoute
    }
}

/// The table of the service resolves every request line as the interface of the service
/// says.
pub proof fn lemma_service_routes(method: Method, path: Seq<char>)
    ensures
        resolve_in(service_table(), method, path) == service_resolution(method, path),
{
    reveal_strlit("/alive");
    reveal_strlit("/ready");
    reveal_strlit("/v1");
    reveal_strlit("/todos");
    reveal_strlit("/v1/todos");
    reveal_strlit("/v1/todos/");
    let table = service_table();
    let collection = "/v1"@ + "/todos"@;
    assert(collection =~= "/v1/todos"@);
    assert(table.len() == 7);
    assert(table[0].prefix == "/alive"@ && table[1].prefix == "/ready"@);
    assert(table[2].prefix == collection && table[3].prefix == collection);
    assert(table[4].prefix == collection && table[5].prefix == collection);
    assert(table[6].prefix == collection);
    assert(table.skip(0) == table);
    lemma_resolve_from(table, method, path, 6);
    lemma_resolve_from(table, method, path, 5);
    lemma_resolve_from(table, method, path, 4);
    lemma_resolve_from(table, method, path, 3);
    lemma_resolve_from(table, method, path, 2);
    lemma_resolve_from(table, method, path, 1);
    lemma_resolve_from(table, method, path, 0);
    assert(resolve_in(table.skip(7), method, path) == Resolution::NoRoute);
    if names_one_todo(path) {
        assert(path.take(9) =~= path.take(10).take(9));
        assert(path.take(9) =~= collection);
        assert(path[9] == path.take(10)[9]);
        assert(table[4].serves(path) && table[5].serves(path) && table[6].serves(path));
    }
    if table[4].serves(path) {
        assert(path.take(10) =~= path.take(9).push(path[9]));
        assert(path.take(10) =~= "/v1/todos/"@);
        assert(names_one_todo(path));
    }
}

/// How the resolution against the routes from position `from` on unfolds.
proof fn lemma_resolve_from(table: Seq<RouteSpec>, method: Method, path: Seq<char>, from: int)
    requires
        0 <= from < table.len(),
    ensures
        resolve_in(table.skip(from), method, path) == ({
            let rest = resolve_in(table.skip(from + 1), method, path);
            if !table[from].serves(path) {
                rest
            } else if table[from].method == method {
                table[from].outcome(path)
            } else if rest is NoRoute {
                Resolution::WrongMethod
            } else {
                rest
            }
        }),
{
    assert(table.skip(from).first() == table[from]);
    assert(table.skip(from).drop_first() == table.skip(from + 1));
}

/// The mathematical content of a [`Router`].
pub ghost struct RouterSpec {
    /// The routes, in table order.
    pub routes: Seq<RouteSpec>,
    /// Whether responses allow requests from any origin.
    pub any_origin: bool,
    /// Whether every request is traced with its method, path, status and latency.
    pub traced: bool,
}

impl View for Router {
    type V = RouterSpec;

    closed spec fn view(&self) -> RouterSpec {
        RouterSpec {
            routes: Seq::new(self.routes@.len(), |i: int| self.routes@[i]@),
            any_origin: self.any_origin,
            traced: self.traced,
        }
    }
}

impl Router {
    /// A router without routes or layers.
    pub fn new() -> (router: Router)
        ensures
            router@.routes == Seq::<RouteSpec>::empty(),
            !router@.any_origin,
            !router@.traced,
    {
        let router = Router { routes: Vec::new(), any_origin: false, traced: false };
        assert(router@.routes =~= Seq::<RouteSpec>::empty());
        router
    }

    /// Adds a route after those already there.
    pub fn route(self, method: Method, prefix: &str, endpoint: Endpoint) -> (router: Router)
        ensures
            router@.routes == self@.routes.push(RouteSpec { method, prefix: prefix@, endpoint }),
            router@.any_origin == self@.any_origin,
            router@.traced == self@.traced,
    {
        let mut routes = self.routes;
        routes.push(Route::new(method, prefix, endpoint));
        let router = Router { routes, any_origin: self.any_origin, traced: self.traced };
        assert(router@.routes =~= self@.routes.push(RouteSpec { method, prefix: prefix@, endpoint }));
        router
    }

    /// Adds the routes of `inner`, each below `prefix`, after those already there.
    pub fn nest(self, prefix: &str, inner: Router) -> (router: Router)
        ensures
            router@.routes == self@.routes + nested(prefix@, inner@.routes),
            router@.any_origin == self@.any_origin,
            router@.traced == self@.traced,
    {
        let mut routes = self.routes;
        let ghost before = routes@;
        let mut i: usize = 0;
        while i < inner.routes.len()
            invariant
                i <= inner.routes.len(),
                routes@.len() == before.len() + i,
                forall|j: int| 0 <= j < before.len() ==> routes@[j] == before[j],
                forall|j: int|
                    0 <= j < i ==> (#[trigger] routes@[before.len() + j])@ == nested(
                        prefix@,
                        inner@.routes,
                    )[j],
            decreases inner.routes.len() - i,
        {
            let route = &inner.routes[i];
            let path = String::from_str(prefix).concat(route.prefix.as_str());
            routes.push(Route { method: route.method, prefix: path, endpoint: route.endpoint });
            i = i + 1;
        }
        let router = Router { routes, any_origin: self.any_origin, traced: self.traced };
        assert forall|j: int| 0 <= j < router@.routes.len() implies router@.routes[j] == (self@.routes + nested(
            prefix@,
            inner@.routes,
        ))[j] by {
            if j >= before.len() {
                assert(router.routes@[before.len() + (j - before.len())]@ == nested(
                    prefix@,
                    inner@.routes,
                )[j - before.len()]);
            }
        }
        assert(router@.routes =~= self@.routes + nested(prefix@, inner@.routes));
        router
    }

    /// Lets responses allow requests from any origin.
    pub fn allow_any_origin(self) -> (router: Router)
        ensures
            router@.routes == self@.routes,
            router@.any_origin,
            router@.traced == self@.traced,
    {
        Router { routes: self.routes, any_origin: true, traced: self.traced }
    }

    /// Has every request traced.
    pub fn trace_requests(self) -> (router: Router)
        ensures
            router@.routes == self@.routes,
            router@.any_origin == self@.any_origin,
            router@.traced,
    {
        Router { routes: self.routes, any_origin: self.any_origin, traced: true }
    }

    /// The routes, in table order.
    pub fn routes(&self) -> (routes: &Vec<Route>)
        ensures
            routes@.len() == self@.routes.len(),
            forall|i: int| 0 <= i < routes@.len() ==> (#[trigger] routes@[i])@ == self@.routes[i],
    {
        &self.routes
    }

    pub fn any_origin(&self) -> (yes: bool)
        ensures
            yes == self@.any_origin,
    {
        self.any_origin
    }

    pub fn traced(&self) -> (yes: bool)
        ensures
            yes == self@.traced,
    {
        self.traced
    }

    /// Resolves a request line against the table.
    pub fn resolve(&self, method: Method, path: &str) -> (found: Resolution)
        ensures
            found == resolve_in(self@.routes, method, path@),
    {
        let chars = chars_of(path);
        let mut served = false;
        let mut i: usize = 0;
        assert(self@.routes.skip(0) == self@.routes);
        while i < self.routes.len()
            invariant
                i <= self.routes.len(),
                self.routes@.len() == self@.routes.len(),
                chars@ == path@,
                resolve_in(self@.routes, method, path@) == after_served(
                    served,
                    resolve_in(self@.routes.skip(i as int), method, path@),
                ),
            decreases self.routes.len() - i,
        {
            let route = &self.routes[i];
            proof {
                let tail = self@.routes.skip(i as int);
                assert(tail.first() == route@);
                assert(tail.drop_first() == self@.routes.skip(i + 1));
            }
            if route.serves(&chars) {
                if route.method == method {
                    return route.outcome(&chars);
                }
                served = true;
            }
            i = i + 1;
        }
        if served {
            Resolution::WrongMethod
        } else {
            Resolution::NoRoute
        }
    }
}

/// The router of the service: liveness and readiness at the top, the to-do resource below
/// `/v1`, any origin allowed and every request traced.
pub fn create_router() -> (router: Router)
    ensures
        router@.routes == service_table(),
        router@.any_origin,
        router@.traced,
{
    let todos = Router::new()
        .route(Method::Get, "/todos", Endpoint::TodoList)
        .route(Method::Post, "/todos", Endpoint::TodoCreate)
        .route(Method::Get, "/todos", Endpoint::TodoRead)
        .route(Method::Put, "/todos", Endpoint::TodoUpdate)
        .route(Method::Delete, "/todos", Endpoint::TodoDelete);
    let router = Router::new()
        .route(Method::Get, "/alive", Endpoint::Alive)
        .route(Method::Get, "/ready", Endpoint::Ready)
        .nest("/v1", todos)
        .allow_any_origin()
        .trace_requests();
    assert(router@.routes =~= service_table());
    router
}

} // verus!
