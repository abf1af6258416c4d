//! The configuration-time half of the adapter: building the shared template
//! set at startup and turning it into a per-request endpoint.

use vstd::prelude::*;
use crate::endpoint::{TeraTemplatingEndpoint, Transformer};
use crate::engine::{clone_tera, error_text, pattern_walker_safe, tera_new};

verus! {

/// Middleware holding the template set compiled at startup; each request
/// later receives its own copy of it.
pub struct TeraTemplatingMiddleware {
    /// The shared, compiled template set.
    pub tera: tera::Tera,
}

/// Startup failure: the template files could not be parsed. The policy for
/// it is fail-fast — the caller terminates the process, reporting `message`.
#[derive(Debug)]
pub struct TemplateLoadError {
    /// The engine's description of the parse failure, for the report.
    pub message: String,
}

/// Builds the glob pattern that selects every file below a template
/// directory, as the directory-based constructor uses it.
pub fn directory_glob(template_directory: &str) -> (pattern: String)
    ensures
        pattern@ == template_directory@ + "/**/*"@,
{
    let base = template_directory.to_owned();
    base.concat("/**/*")
}

/// Appending the directory constructor's glob suffix keeps a pattern free
/// of the walker's metacharacters: the suffix consists of slashes and
/// stars only.
proof fn lemma_glob_suffix_safe(dir: Seq<char>)
    requires
        pattern_walker_safe(dir),
    ensures
        pattern_walker_safe(dir + "/**/*"@),
{
    reveal_strlit("/**/*");
    let joined = dir + "/**/*"@;
    assert forall|i: int| 0 <= i < joined.len() implies joined[i] != '[' && joined[i] != ']'
        && joined[i] != '{' && joined[i] != '}' && joined[i] != '\\' by {
        if i < dir.len() {
            assert(joined[i] == dir[i]);
        } else {
            assert(joined[i] == "/**/*"@[i - dir.len()]);
        }
    }
}

impl TeraTemplatingMiddleware {
    /// Turns the engine's load outcome into the middleware or a startup
    /// error: a compiled set is taken over unchanged, a parse failure is
    /// mapped to a `TemplateLoadError`, each exactly when the engine said so.
    pub fn from_load_result(loaded: Result<tera::Tera, tera::Error>) -> (result: Result<TeraTemplatingMiddleware, TemplateLoadError>)
        ensures
            loaded matches Ok(engine) ==> result matches Ok(middleware) && middleware.tera == engine,
            loaded matches Err(_) ==> result matches Err(_),
    {
        match loaded {
            Ok(engine) => Ok(TeraTemplatingMiddleware { tera: engine }),
            Err(err) => Err(TemplateLoadError { message: error_text(&err) }),
        }
    }

    /// Compiles all templates matched by the glob into a middleware. What
    /// comes back depends on the files on disk: whatever the engine
    /// returned is mapped by `from_load_result`, so an `Err` here is
    /// exactly a parse or pattern failure, on which the caller is expected
    /// to terminate startup.
    pub fn from_glob(glob: &str) -> Result<TeraTemplatingMiddleware, TemplateLoadError>
        requires
            pattern_walker_safe(glob@),
    {
        Self::from_load_result(tera_new(glob))
    }

    /// Compiles every template below the directory, through the same glob
    /// the engine would get from `directory_glob`.
    pub fn from_directory(template_directory: &str) -> Result<TeraTemplatingMiddleware, TemplateLoadError>
        requires
            pattern_walker_safe(template_directory@),
    {
        let pattern = directory_glob(template_directory);
        proof {
            lemma_glob_suffix_safe(template_directory@);
        }
        Self::from_glob(pattern.as_str())
    }

    /// Wraps an already configured engine, for callers that tuned settings
    /// (autoescaping, filters) themselves.
    pub fn custom(tera: tera::Tera) -> (middleware: TeraTemplatingMiddleware)
        ensures
            middleware.tera == tera,
    {
        TeraTemplatingMiddleware { tera }
    }

    /// The conventional setup: every template below the `templates`
    /// directory.
    pub fn default() -> Result<TeraTemplatingMiddleware, TemplateLoadError> {
        proof {
            reveal_strlit("templates");
        }
        Self::from_directory("templates")
    }

    /// Wraps an inner handler into the templating endpoint: the shared set
    /// is carried over and no transformer is registered yet.
    pub fn transform<E, T: Transformer>(&self, inner: E) -> (ep: TeraTemplatingEndpoint<E, T>)
        ensures
            ep.tera == self.tera,
            ep.inner == inner,
            ep.transformers@ == Seq::<T>::empty(),
    {
        TeraTemplatingEndpoint { tera: clone_tera(&self.tera), inner, transformers: Vec::new() }
    }
}

} // verus!
