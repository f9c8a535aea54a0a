//! Exact-match routing of request paths to REST or streaming handlers.

use vstd::hash_map::StringHashMap;
use vstd::prelude::*;
use vstd::seq_lib::seq_to_set_is_finite;

verus! {

/// The body and content type that a REST handler produces for one request.
#[derive(Clone, Debug, PartialEq, Eq)]
pub struct RestResponse {
    pub body: String,
    pub content_type: &'static str,
}

impl RestResponse {
    /// A plain-text response.
    pub fn text(body: &str) -> (resp: Self)
        ensures
            resp.body@ == body@,
            resp.content_type@ == "text/plain"@,
    {
        RestResponse { body: body.to_owned(), content_type: "text/plain" }
    }

    /// A JSON response.
    pub fn json(body: &str) -> (resp: Self)
        ensures
            resp.body@ == body@,
            resp.content_type@ == "application/json"@,
    {
        RestResponse { body: body.to_owned(), content_type: "application/json" }
    }
}

/// A registered handler. The variant is fixed when the route is registered:
/// a REST handler answers once, a stream handler owns the stream.
#[derive(Clone, Copy, Debug, PartialEq, Eq)]
pub enum Handler<R, S> {
    Rest(R),
    Stream(S),
}

/// What a lookup of `path` in `table` yields.
pub open spec fn resolved<R, S>(table: Map<Seq<char>, Handler<R, S>>, path: Seq<char>) -> Option<
    Handler<R, S>,
> {
    if table.contains_key(path) {
        Some(table[path])
    } else {
        None
    }
}

/// The texts of the listed paths, in order.
spec fn listed<R, S>(paths: Seq<String>) -> Seq<Seq<char>> {
    Seq::new(paths.len(), |i: int| paths[i]@)
}

/// A path-based router: exact-match lookup in a hash table, one handler
/// per path.
#[verifier::reject_recursive_types(R)]
#[verifier::reject_recursive_types(S)]
pub struct Router<R, S> {
    table: StringHashMap<Handler<R, S>>,
    paths: Vec<String>,
}

impl<R, S> View for Router<R, S> {
    type V = Map<Seq<char>, Handler<R, S>>;

    closed spec fn view(&self) -> Map<Seq<char>, Handler<R, S>> {
        self.table@
    }
}

impl<R, S> Router<R, S> {
    /// The list of paths holds every key of the table, each once.
    #[verifier::type_invariant]
    spec fn well_formed(&self) -> bool {
        &&& listed::<R, S>(self.paths@).no_duplicates()
        &&& listed::<R, S>(self.paths@).to_set() == self.table@.dom()
    }

    /// An empty router: every lookup misses.
    pub fn new() -> (router: Self)
        ensures
            router@ == Map::<Seq<char>, Handler<R, S>>::empty(),
    {
        let table: StringHashMap<Handler<R, S>> = StringHashMap::new();
        let paths: Vec<String> = Vec::new();
        assert(listed::<R, S>(paths@).to_set() =~= table@.dom());
        Router { table, paths }
    }

    fn insert(self, path: &str, handler: Handler<R, S>) -> (router: Self)
        ensures
            router@ == self@.insert(path@, handler),
    {
        proof {
            use_type_invariant(&self);
        }
        let mut table = self.table;
        let mut paths = self.paths;
        let ghost before = listed::<R, S>(paths@);
        if !table.contains_key(path) {
            paths.push(path.to_owned());
            proof {
                let after = listed::<R, S>(paths@);
                assert(after =~= before.push(path@));
                assert(!before.contains(path@)) by {
                    if before.contains(path@) {
                        assert(before.to_set().contains(path@));
                    }
                }
                assert(after.no_duplicates());
                assert(after.to_set() =~= before.to_set().insert(path@)) by {
                    assert forall|k: Seq<char>| after.to_set().contains(k) implies before.to_set().insert(
                        path@,
                    ).contains(k) by {
                        let i = choose|i: int| 0 <= i < after.len() && after[i] == k;
                        if i < before.len() {
                            assert(before[i] == k);
                        }
                    }
                    assert forall|k: Seq<char>|
                        before.to_set().insert(path@).contains(k) implies after.to_set().contains(
                        k,
                    ) by {
                        if k == path@ {
                            assert(after[before.len() as int] == k);
                        } else {
                            let i = choose|i: int| 0 <= i < before.len() && before[i] == k;
                            assert(after[i] == k);
                        }
                    }
                }
            }
        }
        table.insert(path.to_owned(), handler);
        assert(listed::<R, S>(paths@).to_set() =~= table@.dom());
        Router { table, paths }
    }

    /// Registers a REST handler for `path`, replacing whatever was registered
    /// for that path before.
    pub fn route(self, path: &str, handler: R) -> (router: Self)
        ensures
            router@ == self@.insert(path@, Handler::Rest(handler)),
    {
        self.insert(path, Handler::Rest(handler))
    }

    /// Registers a streaming handler for `path`, replacing whatever was
    /// registered for that path before.
    pub fn stream(self, path: &str, handler: S) -> (router: Self)
        ensures
            router@ == self@.insert(path@, Handler::Stream(handler)),
    {
        self.insert(path, Handler::Stream(handler))
    }

    /// Looks `path` up: the handler registered last for exactly this path, or
    /// `None` where there is none. No prefix or wildcard matching.
    pub fn get(&self, path: &str) -> (found: Option<&Handler<R, S>>)
        ensures
            match found {
                Some(handler) => resolved(self@, path@) == Some(*handler),
                None => resolved(self@, path@).is_none(),
            },
    {
        self.table.get(path)
    }

    /// Whether a handler is registered for exactly this path.
    pub fn contains(&self, path: &str) -> (present: bool)
        ensures
            present == self@.contains_key(path@),
    {
        self.table.contains_key(path)
    }

    /// The registered paths, each once.
    pub fn routes(&self) -> (paths: Vec<&str>)
        ensures
            paths@.len() == self@.dom().len(),
            self@.dom().finite(),
            forall|i: int| 0 <= i < paths@.len() ==> self@.contains_key(#[trigger] paths@[i]@),
            forall|k: Seq<char>| #[trigger]
                self@.contains_key(k) ==> exists|i: int| 0 <= i < paths@.len() && paths@[i]@ == k,
            forall|i: int, j: int| 0 <= i < j < paths@.len() ==> paths@[i]@ != paths@[j]@,
    {
        let ghost keys = listed::<R, S>(self.paths@);
        proof {
            use_type_invariant(self);
            keys.unique_seq_to_set();
            seq_to_set_is_finite(keys);
        }
        let mut paths: Vec<&str> = Vec::new();
        let mut i: usize = 0;
        while i < self.paths.len()
            invariant
                i <= self.paths@.len(),
                paths@.len() == i,
                forall|j: int| 0 <= j < i ==> (#[trigger] paths@[j])@ == self.paths@[j]@,
            decreases self.paths@.len() - i,
        {
            paths.push(self.paths[i].as_str());
            i += 1;
        }
        proof {
            assert forall|j: int| 0 <= j < paths@.len() implies self@.contains_key(
                #[trigger] paths@[j]@,
            ) by {
                assert(keys[j] == paths@[j]@);
                assert(keys.to_set().contains(keys[j]));
            }
            assert forall|k: Seq<char>| #[trigger] self@.contains_key(k) implies exists|j: int|
                0 <= j < paths@.len() && paths@[j]@ == k by {
                assert(keys.to_set().contains(k));
                let a = choose|a: int| 0 <= a < keys.len() && keys[a] == k;
                assert(paths@[a]@ == k);
            }
            assert forall|a: int, b: int| 0 <= a < b < paths@.len() implies paths@[a]@
                != paths@[b]@ by {
                assert(keys[a] == paths@[a]@);
                assert(keys[b] == paths@[b]@);
            }
        }
        paths
    }
}

impl<R, S> Default for Router<R, S> {
    /// An empty router.
    fn default() -> (router: Self)
        ensures
            router@ == Map::<Seq<char>, Handler<R, S>>::empty(),
    {
        Router::new()
    }
}

/// The table that a sequence of registrations leaves behind, starting from
/// an empty router.
pub open spec fn registered<R, S>(registrations: Seq<(Seq<char>, Handler<R, S>)>) -> Map<
    Seq<char>,
    Handler<R, S>,
>
    decreases registrations.len(),
{
    if registrations.len() == 0 {
        Map::empty()
    } else {
        registered(registrations.drop_last()).insert(
            registrations.last().0,
            registrations.last().1,
        )
    }
}

/// Every registered path resolves to its handler: to the one of the last
/// registration for that path.
pub proof fn lemma_registered_resolves<R, S>(
    registrations: Seq<(Seq<char>, Handler<R, S>)>,
    i: int,
)
    requires
        0 <= i < registrations.len(),
        forall|j: int| i < j < registrations.len() ==> registrations[j].0 != registrations[i].0,
    ensures
        resolved(registered(registrations), registrations[i].0) == Some(registrations[i].1),
    decreases registrations.len(),
{
    if i < registrations.len() - 1 {
        let front = registrations.drop_last();
        assert(front[i] == registrations[i]);
        lemma_registered_resolves(front, i);
    }
}

/// A path that was never registered resolves to nothing.
pub proof fn lemma_unregistered_misses<R, S>(
    registrations: Seq<(Seq<char>, Handler<R, S>)>,
    path: Seq<char>,
)
    requires
        forall|j: int| 0 <= j < registrations.len() ==> registrations[j].0 != path,
    ensures
        resolved(registered(registrations), path).is_none(),
    decreases registrations.len(),
{
    if registrations.len() > 0 {
        let front = registrations.drop_last();
        assert forall|j: int| 0 <= j < front.len() implies front[j].0 != path by {
            assert(front[j] == registrations[j]);
        }
        lemma_unregistered_misses(front, path);
    }
}

/// Registering a path again overwrites: the table is the one that the
/// second registration alone would have given, the path resolves to the
/// second handler, and the set of registered paths does not grow.
pub proof fn lemma_reregistration_overwrites<R, S>(
    table: Map<Seq<char>, Handler<R, S>>,
    path: Seq<char>,
    first: Handler<R, S>,
    second: Handler<R, S>,
)
    ensures
        table.insert(path, first).insert(path, second) == table.insert(path, second),
        resolved(table.insert(path, first).insert(path, second), path) == Some(second),
        table.insert(path, first).insert(path, second).dom() == table.insert(path, first).dom(),
{
    assert(table.insert(path, first).insert(path, second) =~= table.insert(path, second));
    assert(table.insert(path, first).insert(path, second).dom() =~= table.insert(
        path,
        first,
    ).dom());
}

} // verus!
