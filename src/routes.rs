//! Route exclusion for the request-logging middleware.
//!
//! A [`CustomLoggerBuilder`] collects excluded routes one at a time; `build`
//! publishes them into a [`CustomFilterRootSpanBuilder`], which then decides for
//! each incoming request path whether a root span is recorded.

use vstd::prelude::*;

verus! {

/// The routes as character sequences, in the order they were given.
pub open spec fn routes_view(routes: Seq<String>) -> Seq<Seq<char>> {
    routes.map_values(|s: String| s@)
}

/// Whether `path` is excluded by `routes`: exact, case-sensitive equality
/// with one of them.
pub open spec fn is_excluded_by(routes: Seq<Seq<char>>, path: Seq<char>) -> bool {
    routes.contains(path)
}

/// What the middleware does when a request starts.
#[derive(PartialEq, Eq, Structural, Debug, Clone, Copy)]
pub enum RootSpanDecision {
    /// The path is excluded: a no-op span, nothing about the request is recorded.
    Suppress,
    /// The path is not excluded: a standard root span for the request.
    Record,
}

/// The published list after a build of a builder holding `built`: the
/// builder's routes, in order, with nothing kept of the `prior` list.
pub open spec fn published_after_build(prior: Seq<Seq<char>>, built: Seq<Seq<char>>) -> Seq<Seq<char>> {
    built
}

/// The decision for `path` under the exclusion list `routes`.
pub open spec fn decision_for(routes: Seq<Seq<char>>, path: Seq<char>) -> RootSpanDecision {
    if is_excluded_by(routes, path) {
        RootSpanDecision::Suppress
    } else {
        RootSpanDecision::Record
    }
}

/// The published exclusion list, read on every request.
pub struct CustomFilterRootSpanBuilder {
    excluded_routes: Vec<String>,
}

impl View for CustomFilterRootSpanBuilder {
    type V = Seq<Seq<char>>;

    closed spec fn view(&self) -> Seq<Seq<char>> {
        routes_view(self.excluded_routes@)
    }
}

impl CustomFilterRootSpanBuilder {
    /// A filter that excludes no route.
    pub fn new() -> (r: Self)
        ensures
            r@ == Seq::<Seq<char>>::empty(),
    {
        let r = CustomFilterRootSpanBuilder { excluded_routes: Vec::new() };
        assert(r@ =~= Seq::<Seq<char>>::empty());
        r
    }

    /// Replaces the whole exclusion list by `routes`.
    pub fn set_excluded_routes(&mut self, routes: Vec<String>)
        ensures
            final(self)@ == routes_view(routes@),
    {
        self.excluded_routes = routes;
    }

    /// The excluded routes, in order.
    pub fn excluded_routes(&self) -> (r: &Vec<String>)
        ensures
            routes_view(r@) == self@,
    {
        &self.excluded_routes
    }

    /// Whether `path` equals one of the excluded routes exactly.
    pub fn is_excluded(&self, path: &str) -> (r: bool)
        ensures
            r == is_excluded_by(self@, path@),
    {
        let target: String = path.to_owned();
        let n: usize = self.excluded_routes.len();
        let mut i: usize = 0;
        while i < n
            invariant
                n == self.excluded_routes@.len(),
                target@ == path@,
                0 <= i <= n,
                forall|j: int| 0 <= j < i ==> self@[j] != path@,
            decreases n - i,
        {
            if self.excluded_routes[i] == target {
                assert(self@[i as int] == path@);
                return true;
            }
            i = i + 1;
        }
        assert(!self@.contains(path@)) by {
            if self@.contains(path@) {
                let k = choose|k: int| 0 <= k < self@.len() && self@[k] == path@;
                assert(self@[k] != path@);
            }
        }
        false
    }

    /// The decision taken when a request for `path` starts: a no-op span for
    /// an excluded path, a standard root span otherwise.
    pub fn on_request_start(&self, path: &str) -> (r: RootSpanDecision)
        ensures
            r == decision_for(self@, path@),
    {
        if self.is_excluded(path) {
            RootSpanDecision::Suppress
        } else {
            RootSpanDecision::Record
        }
    }
}

impl Default for CustomFilterRootSpanBuilder {
    fn default() -> (r: Self)
        ensures
            r@ == Seq::<Seq<char>>::empty(),
    {
        CustomFilterRootSpanBuilder::new()
    }
}

/// Collects the routes to exclude from request logging.
pub struct CustomLoggerBuilder {
    excluded_routes: Vec<String>,
}

impl View for CustomLoggerBuilder {
    type V = Seq<Seq<char>>;

    closed spec fn view(&self) -> Seq<Seq<char>> {
        routes_view(self.excluded_routes@)
    }
}

impl CustomLoggerBuilder {
    /// A builder with no excluded route.
    pub fn new() -> (r: Self)
        ensures
            r@ == Seq::<Seq<char>>::empty(),
    {
        let r = CustomLoggerBuilder { excluded_routes: Vec::new() };
        assert(r@ =~= Seq::<Seq<char>>::empty());
        r
    }

    /// Adds `route` at the end of the exclusion list.
    pub fn exclude(self, route: &str) -> (r: Self)
        ensures
            r@ == self@.push(route@),
    {
        let mut excluded_routes = self.excluded_routes;
        excluded_routes.push(route.to_owned());
        assert(routes_view(excluded_routes@) =~= self@.push(route@));
        CustomLoggerBuilder { excluded_routes }
    }

    /// The routes excluded so far, in order.
    pub fn excluded_routes(&self) -> (r: &Vec<String>)
        ensures
            routes_view(r@) == self@,
    {
        &self.excluded_routes
    }

    /// Publishes the collected routes into `published`, replacing whatever
    /// list it held.
    pub fn build(self, published: &mut CustomFilterRootSpanBuilder)
        ensures
            final(published)@ == published_after_build(old(published)@, self@),
    {
        published.set_excluded_routes(self.excluded_routes);
    }
}

impl Default for CustomLoggerBuilder {
    fn default() -> (r: Self)
        ensures
            r@ == Seq::<Seq<char>>::empty(),
    {
        CustomLoggerBuilder::new()
    }
}

/// Excluding `a` and then `b` on a fresh builder gives the list `[a, b]`, in
/// that order; once built, exactly `a` and `b` are excluded.
pub proof fn lemma_builder_composition(a: Seq<char>, b: Seq<char>)
    ensures
        Seq::<Seq<char>>::empty().push(a).push(b) == seq![a, b],
        seq![a, b].to_set() == set![a, b],
        forall|p: Seq<char>| is_excluded_by(seq![a, b], p) <==> (p == a || p == b),
{
    assert(Seq::<Seq<char>>::empty().push(a).push(b) =~= seq![a, b]);
    assert(seq![a, b].to_set() =~= set![a, b]) by {
        assert forall|p: Seq<char>| seq![a, b].to_set().contains(p) <==> set![a, b].contains(p) by {
            if p == b {
                assert(seq![a, b][1] == b);
            }
            if p == a {
                assert(seq![a, b][0] == a);
            }
        }
    }
    assert forall|p: Seq<char>| is_excluded_by(seq![a, b], p) <==> (p == a || p == b) by {
        if p == b {
            assert(seq![a, b][1] == b);
        }
        if p == a {
            assert(seq![a, b][0] == a);
        }
    }
}

/// Two builds in a row leave the routes of the later one published, whatever
/// the earlier one and the list before them held.
pub proof fn lemma_last_build_wins(prior: Seq<Seq<char>>, earlier: Seq<Seq<char>>, later: Seq<Seq<char>>)
    ensures
        published_after_build(published_after_build(prior, earlier), later) == later,
        forall|path: Seq<char>|
            decision_for(published_after_build(published_after_build(prior, earlier), later), path)
                == decision_for(later, path),
{
}

/// Starts a builder chain for the request-logging middleware.
pub fn get_tracing_logger() -> (r: CustomLoggerBuilder)
    ensures
        r@ == Seq::<Seq<char>>::empty(),
{
    CustomLoggerBuilder::new()
}

} // verus!
