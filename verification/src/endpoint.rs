//! The per-request half of the adapter: an endpoint that wraps an inner
//! handler, gives every request its own copy of the shared template set,
//! runs the registered transformers on that copy, and stores the result in
//! the request's typed extension slot.

use vstd::prelude::*;
use crate::engine::clone_tera;
use crate::request::Request;

verus! {

/// A user-supplied transformation applied to each request's private copy
/// of the template set (for instance, registering a dynamic filter or
/// extra templates) before the request handler runs.
pub trait Transformer: Sized {
    /// What the transformation does, as a mathematical function of the
    /// template copy and the request.
    spec fn spec_apply(&self, engine: tera::Tera, req: Request) -> (tera::Tera, Request);

    /// Applies the transformation; behaves exactly as `spec_apply` says.
    fn apply(&self, engine: tera::Tera, req: Request) -> (out: (tera::Tera, Request))
        ensures
            out == self.spec_apply(engine, req),
    ;
}

/// The template copy and request after every transformer in `ts` has run,
/// in registration order, starting from `engine` and `req`.
pub open spec fn apply_all<T: Transformer>(ts: Seq<T>, engine: tera::Tera, req: Request) -> (tera::Tera, Request)
    decreases ts.len(),
{
    if ts.len() == 0 {
        (engine, req)
    } else {
        let prev = apply_all(ts.drop_last(), engine, req);
        ts.last().spec_apply(prev.0, prev.1)
    }
}

/// One step of the chain: running the first `i + 1` transformers is running
/// the first `i` and then the next one on their outcome.
proof fn lemma_apply_all_take_step<T: Transformer>(ts: Seq<T>, i: int, engine: tera::Tera, req: Request)
    requires
        0 <= i < ts.len(),
    ensures
        apply_all(ts.take(i + 1), engine, req) == ts[i].spec_apply(
            apply_all(ts.take(i), engine, req).0,
            apply_all(ts.take(i), engine, req).1,
        ),
{
    assert(ts.take(i + 1).drop_last() =~= ts.take(i));
    assert(ts.take(i + 1).last() == ts[i]);
}

/// Law: transformers run in registration order — a transformer registered
/// last is applied last, to the outcome of all those registered before it.
pub proof fn lemma_apply_all_push<T: Transformer>(ts: Seq<T>, t: T, engine: tera::Tera, req: Request)
    ensures
        apply_all(ts.push(t), engine, req) == t.spec_apply(
            apply_all(ts, engine, req).0,
            apply_all(ts, engine, req).1,
        ),
{
    assert(ts.push(t).drop_last() =~= ts);
    assert(ts.push(t).last() == t);
}

/// Endpoint that equips each request with its own template set before
/// delegating to the inner handler.
pub struct TeraTemplatingEndpoint<E, T> {
    /// The shared template set, cloned once per request.
    pub tera: tera::Tera,
    /// The wrapped handler.
    pub inner: E,
    /// Transformations applied, in order, to every request's copy.
    pub transformers: Vec<T>,
}

impl<E, T: Transformer> TeraTemplatingEndpoint<E, T> {
    /// Registers one more transformer, to run after those already present.
    pub fn using(self, transformer: T) -> (ep: Self)
        ensures
            ep.tera == self.tera,
            ep.inner == self.inner,
            ep.transformers@ == self.transformers@.push(transformer),
    {
        let mut ep = self;
        ep.transformers.push(transformer);
        ep
    }

    /// The request as `prepare` hands it on: every transformer applied to a
    /// fresh copy of the shared set, the outcome stored in the typed slot.
    pub open spec fn prepared(self, req: Request) -> Request {
        let after = apply_all(self.transformers@, self.tera, req);
        Request { path: after.1.path, tera_slot: Some(after.0) }
    }

    /// Per-request step of the endpoint: clone the shared template set, run
    /// every registered transformer on the clone, and store the outcome in
    /// the request's typed slot. It takes `&self`, so the shared set is
    /// untouched: what one request's transformers do to its copy is
    /// invisible to every other request.
    pub fn prepare(&self, req: Request) -> (out: Request)
        ensures
            out == self.prepared(req),
    {
        let ghost req0 = req;
        let mut engine = clone_tera(&self.tera);
        let mut cur = req;
        let mut i: usize = 0;
        while i < self.transformers.len()
            invariant
                i <= self.transformers@.len(),
                engine == apply_all(self.transformers@.take(i as int), self.tera, req0).0,
                cur == apply_all(self.transformers@.take(i as int), self.tera, req0).1,
            decreases self.transformers@.len() - i,
        {
            proof {
                lemma_apply_all_take_step(self.transformers@, i as int, self.tera, req0);
            }
            let step = self.transformers[i].apply(engine, cur);
            engine = step.0;
            cur = step.1;
            i = i + 1;
        }
        proof {
            assert(self.transformers@.take(self.transformers@.len() as int) =~= self.transformers@);
        }
        let mut out = cur;
        out.tera_slot = Some(engine);
        out
    }
}

/// A transformer that swaps the request's template copy for a fixed
/// replacement set, for instance one with extra templates registered.
pub struct ReplaceTemplates {
    /// The template set every request passing this transformer receives.
    pub replacement: tera::Tera,
}

impl Transformer for ReplaceTemplates {
    open spec fn spec_apply(&self, engine: tera::Tera, req: Request) -> (tera::Tera, Request) {
        (self.replacement, req)
    }

    fn apply(&self, engine: tera::Tera, req: Request) -> (out: (tera::Tera, Request)) {
        (clone_tera(&self.replacement), req)
    }
}

/// Law: on one endpoint, the template copy a request receives is determined
/// by the endpoint's shared template set, its transformers, and that request
/// alone. Preparing a request never changes the endpoint, so two requests,
/// however interleaved, each start from the same shared set and cannot
/// observe each other's transformations; with no transformers registered,
/// each receives exactly the shared set.
pub proof fn lemma_request_isolation<E, T: Transformer>(
    ep: TeraTemplatingEndpoint<E, T>,
    first: Request,
    second: Request,
)
    ensures
        ep.prepared(first).tera_slot == Some(apply_all(ep.transformers@, ep.tera, first).0),
        ep.prepared(second).tera_slot == Some(apply_all(ep.transformers@, ep.tera, second).0),
        ep.transformers@.len() == 0 ==> ep.prepared(first).tera_slot == Some(ep.tera),
{
}

} // verus!
