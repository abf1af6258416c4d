//! The request as this adapter sees it: the host framework's request object
//! reduced to what the templating layer reads and writes — the path it was
//! made for and the typed extension slot that carries the per-request
//! template set to downstream handlers.

use vstd::prelude::*;
use crate::engine::clone_tera;

verus! {

/// An incoming request together with its typed extension slot for the
/// per-request template set.
pub struct Request {
    /// The path the request was made for.
    pub path: String,
    /// The typed slot the templating endpoint fills and handlers read.
    pub tera_slot: Option<tera::Tera>,
}

impl Request {
    /// A fresh request for `path`, its extension slot still empty.
    pub fn new(path: String) -> (req: Request)
        ensures
            req.path == path,
            req.tera_slot is None,
    {
        Request { path, tera_slot: None }
    }

    /// Fills the typed extension slot with the per-request template set.
    pub fn insert_tera(&mut self, engine: tera::Tera)
        ensures
            final(self).path == old(self).path,
            final(self).tera_slot == Some(engine),
    {
        self.tera_slot = Some(engine);
    }
}

/// The extractor: hands a handler its own copy of the per-request template
/// set. The templating endpoint must already have filled the slot; a request
/// that never passed through it is excluded, where the host framework would
/// abort the handler.
pub fn from_request(req: &Request) -> (engine: tera::Tera)
    requires
        req.tera_slot is Some,
    ensures
        Some(engine) == req.tera_slot,
{
    let stored = req.tera_slot.as_ref().unwrap();
    clone_tera(stored)
}

} // verus!
