//! Route registration and dispatch.
//!
//! A [`Router`] accumulates (verb, path) -> handler bindings; [`Router::seal`]
//! turns it into an immutable [`RouteTable`] on which [`RouteTable::resolve`]
//! performs exact-match lookup. The abstract model of a router is the
//! sequence of registrations made so far; the model of a sealed table is the
//! map [`table_of`] that sequence denotes, where a later registration for the
//! same route overwrites an earlier one.

use vstd::prelude::*;

use crate::http::Verb;
use std::sync::Arc;

verus! {

/// One registration: a route key and the handler bound to it.
pub ghost struct Registration<H> {
    pub verb: Verb,
    pub path: Seq<char>,
    pub handler: H,
}

/// The registration with the given route key and handler.
pub open spec fn registration<H>(verb: Verb, path: Seq<char>, handler: H) -> Registration<H> {
    Registration { verb, path, handler }
}

/// Whether a registration is keyed by exactly this verb and this path.
pub open spec fn reg_matches<H>(r: Registration<H>, verb: Verb, path: Seq<char>) -> bool {
    r.verb == verb && r.path == path
}

/// The route map denoted by a sequence of registrations: each registration
/// binds its route key, and a later registration for the same key overwrites
/// an earlier one (last write wins).
pub open spec fn table_of<H>(regs: Seq<Registration<H>>) -> Map<(Verb, Seq<char>), H>
    decreases regs.len(),
{
    if regs.len() == 0 {
        Map::empty()
    } else {
        table_of(regs.drop_last()).insert(
            (regs.last().verb, regs.last().path),
            regs.last().handler,
        )
    }
}

/// Exact-match lookup in a route map: the bound handler, or the not-found
/// outcome `None`.
pub open spec fn lookup<H>(m: Map<(Verb, Seq<char>), H>, verb: Verb, path: Seq<char>) -> Option<
    H,
> {
    if m.contains_key((verb, path)) {
        Some(m[(verb, path)])
    } else {
        None
    }
}

struct RouteEntry<H> {
    verb: Verb,
    path: String,
    handler: H,
}

spec fn reg_of<H>(e: RouteEntry<H>) -> Registration<H> {
    Registration { verb: e.verb, path: e.path@, handler: e.handler }
}

/// The route table while it is being built: a single-owner accumulator of
/// registrations. Sealing it produces the immutable [`RouteTable`].
pub struct Router<H> {
    entries: Vec<RouteEntry<H>>,
}

/// A sealed, immutable route table. It offers only read access: every method
/// takes `&self`, so once sealed it can be shared by reference across any
/// number of concurrent request tasks without a lock.
pub struct RouteTable<H> {
    entries: Vec<RouteEntry<H>>,
}

proof fn lemma_table_of_push<H>(regs: Seq<Registration<H>>, r: Registration<H>)
    ensures
        table_of(regs.push(r)) == table_of(regs).insert((r.verb, r.path), r.handler),
{
    assert(regs.push(r).drop_last() =~= regs);
    assert(regs.push(r).last() == r);
}

proof fn lemma_table_of_no_match<H>(regs: Seq<Registration<H>>, verb: Verb, path: Seq<char>)
    requires
        forall|j: int| 0 <= j < regs.len() ==> !reg_matches(regs[j], verb, path),
    ensures
        !table_of(regs).contains_key((verb, path)),
    decreases regs.len(),
{
    if regs.len() > 0 {
        assert(forall|j: int|
            0 <= j < regs.drop_last().len() ==> !reg_matches(regs.drop_last()[j], verb, path));
        lemma_table_of_no_match(regs.drop_last(), verb, path);
        assert(!reg_matches(regs.last(), verb, path));
    }
}

proof fn lemma_table_of_last_match<H>(
    regs: Seq<Registration<H>>,
    verb: Verb,
    path: Seq<char>,
    i: int,
)
    requires
        0 <= i < regs.len(),
        reg_matches(regs[i], verb, path),
        forall|j: int| i < j < regs.len() ==> !reg_matches(regs[j], verb, path),
    ensures
        table_of(regs).contains_key((verb, path)),
        table_of(regs)[(verb, path)] == regs[i].handler,
    decreases regs.len(),
{
    if i == regs.len() - 1 {
        assert(regs.last() == regs[i]);
        assert((regs.last().verb, regs.last().path) == (verb, path));
    } else {
        assert(reg_matches(regs.drop_last()[i], verb, path));
        assert(forall|j: int|
            i < j < regs.drop_last().len() ==> !reg_matches(regs.drop_last()[j], verb, path));
        lemma_table_of_last_match(regs.drop_last(), verb, path, i);
        assert(!reg_matches(regs.last(), verb, path));
    }
}

impl<H> Router<H> {
    /// The sequence of registrations made on this router so far, oldest first.
    pub closed spec fn regs(self) -> Seq<Registration<H>> {
        self.entries@.map_values(|e: RouteEntry<H>| reg_of(e))
    }

    /// The route map this router denotes.
    pub open spec fn routes(self) -> Map<(Verb, Seq<char>), H> {
        table_of(self.regs())
    }

    /// An empty router: nothing registered yet.
    pub fn new() -> (r: Router<H>)
        ensures
            r.regs() == Seq::<Registration<H>>::empty(),
            r.routes() == Map::<(Verb, Seq<char>), H>::empty(),
    {
        let r = Router { entries: Vec::new() };
        proof {
            assert(r.regs() =~= Seq::<Registration<H>>::empty());
        }
        r
    }

    /// Bind `handler` to the exact route (`verb`, `path`). Any verb of the
    /// closed set and any path string are accepted; a route already bound is
    /// silently overwritten (last registration wins).
    pub fn register(self, verb: Verb, path: &str, handler: H) -> (r: Router<H>)
        ensures
            r.regs() == self.regs().push(registration(verb, path@, handler)),
            r.routes() == self.routes().insert((verb, path@), handler),
    {
        let ghost old_self = self;
        let mut entries = self.entries;
        entries.push(RouteEntry { verb, path: path.to_owned(), handler });
        let r = Router { entries };
        proof {
            assert(r.regs() =~= old_self.regs().push(registration(verb, path@, handler)));
            lemma_table_of_push(old_self.regs(), registration(verb, path@, handler));
        }
        r
    }

    /// Register a handler for `GET path`.
    pub fn get(self, path: &str, handler: H) -> (r: Router<H>)
        ensures
            r.regs() == self.regs().push(registration(Verb::Get, path@, handler)),
            r.routes() == self.routes().insert((Verb::Get, path@), handler),
    {
        self.register(Verb::Get, path, handler)
    }

    /// Register a handler for `PUT path`.
    pub fn put(self, path: &str, handler: H) -> (r: Router<H>)
        ensures
            r.regs() == self.regs().push(registration(Verb::Put, path@, handler)),
            r.routes() == self.routes().insert((Verb::Put, path@), handler),
    {
        self.register(Verb::Put, path, handler)
    }

    /// Register a handler for `POST path`.
    pub fn post(self, path: &str, handler: H) -> (r: Router<H>)
        ensures
            r.regs() == self.regs().push(registration(Verb::Post, path@, handler)),
            r.routes() == self.routes().insert((Verb::Post, path@), handler),
    {
        self.register(Verb::Post, path, handler)
    }

    /// Register a handler for `DELETE path`.
    pub fn delete(self, path: &str, handler: H) -> (r: Router<H>)
        ensures
            r.regs() == self.regs().push(registration(Verb::Delete, path@, handler)),
            r.routes() == self.routes().insert((Verb::Delete, path@), handler),
    {
        self.register(Verb::Delete, path, handler)
    }

    /// Register a handler for `PATCH path`.
    pub fn patch(self, path: &str, handler: H) -> (r: Router<H>)
        ensures
            r.regs() == self.regs().push(registration(Verb::Patch, path@, handler)),
            r.routes() == self.routes().insert((Verb::Patch, path@), handler),
    {
        self.register(Verb::Patch, path, handler)
    }

    /// Register a handler for `OPTIONS path`.
    pub fn options(self, path: &str, handler: H) -> (r: Router<H>)
        ensures
            r.regs() == self.regs().push(registration(Verb::Options, path@, handler)),
            r.routes() == self.routes().insert((Verb::Options, path@), handler),
    {
        self.register(Verb::Options, path, handler)
    }

    /// Register a handler for `HEAD path`.
    pub fn head(self, path: &str, handler: H) -> (r: Router<H>)
        ensures
            r.regs() == self.regs().push(registration(Verb::Head, path@, handler)),
            r.routes() == self.routes().insert((Verb::Head, path@), handler),
    {
        self.register(Verb::Head, path, handler)
    }

    /// Register a handler for `TRACE path`.
    pub fn trace(self, path: &str, handler: H) -> (r: Router<H>)
        ensures
            r.regs() == self.regs().push(registration(Verb::Trace, path@, handler)),
            r.routes() == self.routes().insert((Verb::Trace, path@), handler),
    {
        self.register(Verb::Trace, path, handler)
    }

    /// Seal the router: consume the single-owner builder and produce the
    /// immutable table. This is the one irreversible transition from the
    /// building state to the sealed state; no registration is possible
    /// afterwards, because no builder remains.
    pub fn seal(self) -> (t: RouteTable<H>)
        ensures
            t.regs() == self.regs(),
            t.routes() == self.routes(),
    {
        let t = RouteTable { entries: self.entries };
        proof {
            assert(t.regs() =~= self.regs());
        }
        t
    }
}

impl<H> RouteTable<H> {
    /// The registrations this table was sealed from, oldest first.
    pub closed spec fn regs(self) -> Seq<Registration<H>> {
        self.entries@.map_values(|e: RouteEntry<H>| reg_of(e))
    }

    /// The route map this table denotes.
    pub open spec fn routes(self) -> Map<(Verb, Seq<char>), H> {
        table_of(self.regs())
    }

    /// Exact-match dispatch: the handler bound to (`verb`, `path`), or `None`
    /// as the not-found outcome. A missed lookup is an expected result, never
    /// a fault, and the lookup reads the table without changing it.
    pub fn resolve(&self, verb: Verb, path: &str) -> (r: Option<&H>)
        ensures
            match r {
                Some(h) => lookup(self.routes(), verb, path@) == Some(*h),
                None => lookup(self.routes(), verb, path@) is None,
            },
    {
        let key: String = path.to_owned();
        let mut i: usize = self.entries.len();
        while i > 0
            invariant
                i <= self.entries@.len(),
                key@ == path@,
                forall|j: int|
                    i <= j < self.entries@.len() ==> !reg_matches(self.regs()[j], verb, path@),
            decreases i,
        {
            i = i - 1;
            let e = &self.entries[i];
            if e.verb == verb && e.path == key {
                proof {
                    lemma_table_of_last_match(self.regs(), verb, path@, i as int);
                }
                return Some(&e.handler);
            }
        }
        proof {
            lemma_table_of_no_match(self.regs(), verb, path@);
        }
        None
    }

    /// Hand the sealed table to the serving tasks as a reference-counted
    /// shared handle. The table behind it never changes — every method takes
    /// a shared reference — so any number of concurrent tasks may resolve
    /// through the handle at once, without a lock.
    pub fn into_shared(self) -> (a: Arc<RouteTable<H>>)
        ensures
            a.regs() == self.regs(),
            a.routes() == self.routes(),
    {
        Arc::new(self)
    }
}

/// Last registration wins: after any sequence of registrations that ends in a
/// registration for route `r`, looking the route up yields exactly the
/// handler of that final registration.
pub proof fn lemma_last_registration_wins<H>(regs: Seq<Registration<H>>, r: Registration<H>)
    ensures
        lookup(table_of(regs.push(r)), r.verb, r.path) == Some(r.handler),
{
    lemma_table_of_push(regs, r);
}

/// A route never registered resolves to the not-found outcome: if no
/// registration in the sequence is keyed by (`verb`, `path`), looking that
/// route up yields `None`.
pub proof fn lemma_unregistered_route_misses<H>(
    regs: Seq<Registration<H>>,
    verb: Verb,
    path: Seq<char>,
)
    requires
        forall|j: int| 0 <= j < regs.len() ==> !reg_matches(regs[j], verb, path),
    ensures
        lookup(table_of(regs), verb, path) is None,
{
    lemma_table_of_no_match(regs, verb, path);
}

/// A match requires both the verb and the path: a registration whose key
/// differs in either component leaves the lookup of (`verb`, `path`) exactly
/// as it was, so there is no partial matching.
pub proof fn lemma_match_requires_verb_and_path<H>(
    regs: Seq<Registration<H>>,
    r: Registration<H>,
    verb: Verb,
    path: Seq<char>,
)
    requires
        !reg_matches(r, verb, path),
    ensures
        lookup(table_of(regs.push(r)), verb, path) == lookup(table_of(regs), verb, path),
{
    lemma_table_of_push(regs, r);
}

} // verus!
