//! Middleware that wires the Tera template engine into a request pipeline:
//! the compiled template set is built once at startup, cloned for every
//! request, reshaped by registered transformers, stored in the request's
//! typed extension slot, and render outcomes are mapped to HTTP responses.

pub mod endpoint;
pub mod engine;
pub mod middleware;
pub mod request;
pub mod response;

pub use endpoint::{ReplaceTemplates, TeraTemplatingEndpoint, Transformer};
pub use middleware::{TemplateLoadError, TeraTemplatingMiddleware};
pub use request::{from_request, Request};
pub use response::{Html, RenderError, Response, TeraTemplatingResult};
