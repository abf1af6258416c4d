//! Bindings to the Tera template engine. Everything the library assumes
//! about the engine is stated here and nowhere else.

use vstd::prelude::*;

verus! {

#[verifier::external_type_specification]
#[verifier::external_body]
pub struct ExTera(tera::Tera);

#[verifier::external_type_specification]
#[verifier::external_body]
pub struct ExTeraError(tera::Error);

/// Patterns free of the glob walker's class, alternate and escape
/// metacharacters. The walker accepts every such pattern, so the engine's
/// loader below never panics on one; a pattern without `*` is rejected by
/// the engine before the walker runs.
pub open spec fn pattern_walker_safe(pattern: Seq<char>) -> bool {
    forall|i: int|
        0 <= i < pattern.len() ==> pattern[i] != '[' && pattern[i] != ']' && pattern[i] != '{'
            && pattern[i] != '}' && pattern[i] != '\\'
}

/// Relies on tera::Tera::new: parses every template file matched by the
/// glob pattern, returning the compiled set or a parse/pattern error.
/// The outcome depends on the files on disk, so nothing is promised of it.
/// The loader unwraps the glob walker's construction, which can reject a
/// pattern using class or alternate syntax; such patterns are excluded
/// here, and template paths on disk are assumed representable as text.
#[verifier::external_body]
pub(crate) fn tera_new(pattern: &str) -> Result<tera::Tera, tera::Error>
    requires
        pattern_walker_safe(pattern@),
{
    tera::Tera::new(pattern)
}

/// Relies on tera::Tera's derived Clone: every field is cloned, so the
/// copy equals the original as a value.
#[verifier::external_body]
pub(crate) fn clone_tera(engine: &tera::Tera) -> (copy: tera::Tera)
    ensures
        copy == *engine,
{
    engine.clone()
}

/// Relies on tera::Error's Display implementation to render the error as
/// text for logging. Nothing is promised of the text.
#[verifier::external_body]
pub(crate) fn error_text(err: &tera::Error) -> String {
    format!("{err}")
}

} // verus!
