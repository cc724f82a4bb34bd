//! Bearer tokens for the data plane: where they come from and what they are asked for.

use vstd::prelude::*;

use crate::error::{in_context, Error, ErrorView};
use crate::text::{ends_with, eq_ignore_ascii_case, same_but_for_case, trim_end_char, without_trailing};

verus! {

/// Yields a bearer token for the data-plane audience.
pub trait TokenSource {
    /// A bearer token.
    fn token(&self) -> (r: Result<String, Error>);
}

/// A token source with one fixed token.
pub struct FakeTokenSource(pub String);

impl TokenSource for FakeTokenSource {
    fn token(&self) -> (r: Result<String, Error>)
        ensures
            r == Ok::<String, Error>(self.0),
    {
        Ok(self.0.clone())
    }
}

/// Which chain of credentials a token is asked from.
#[derive(Clone, Copy, Debug, PartialEq, Eq, Structural)]
pub enum AuthMode {
    /// The system-assigned managed identity of the machine this process runs on.
    Managed,
    /// The developer's own sign-in.
    Developer,
}

/// Reads the value of `ACA_AUTH_MODE`: `managed`, in any case, asks for the managed
/// identity; every other value, and none at all, for the developer's sign-in.
pub fn auth_mode_from_env_value(value: Option<&str>) -> (r: AuthMode)
    ensures
        r == AuthMode::Managed <==> value is Some && same_but_for_case(value->Some_0@, "managed"@),
{
    match value {
        Some(v) => if eq_ignore_ascii_case(v, "managed") {
            AuthMode::Managed
        } else {
            AuthMode::Developer
        },
        None => AuthMode::Developer,
    }
}

/// What an unusable credential is reported as.
pub open spec fn credential_failure_text(mode: AuthMode) -> Seq<char> {
    match mode {
        AuthMode::Managed => "Failed to build Entra managed-identity credential"@,
        AuthMode::Developer => "Failed to build Entra developer-tools credential"@,
    }
}

/// The error for a credential of the given mode that could not be built.
pub fn credential_failure(mode: AuthMode, cause: String) -> (r: Error)
    ensures
        r@ == in_context(credential_failure_text(mode), ErrorView::Outside(cause@)),
{
    match mode {
        AuthMode::Managed => Error::outside(
            "Failed to build Entra managed-identity credential",
            cause,
        ),
        AuthMode::Developer => Error::outside(
            "Failed to build Entra developer-tools credential",
            cause,
        ),
    }
}

/// The error for a token that could not be acquired.
pub fn token_failure(cause: String) -> (r: Error)
    ensures
        r@ == in_context(
            "Failed to acquire Entra token for ACA audience"@,
            ErrorView::Outside(cause@),
        ),
{
    Error::outside("Failed to acquire Entra token for ACA audience", cause)
}

/// The scope that stands for all permissions on an audience: the audience without the slashes
/// at its end, and `/.default`. An audience that is such a scope already stays as it is.
pub open spec fn scope_of(audience: Seq<char>) -> Seq<char> {
    if "/.default"@.is_suffix_of(audience) {
        audience
    } else {
        without_trailing(audience, '/') + "/.default"@
    }
}

/// The scope to ask a token for.
pub fn token_scope(audience: &str) -> (r: String)
    ensures
        r@ == scope_of(audience@),
{
    if ends_with(audience, "/.default") {
        audience.to_owned()
    } else {
        let mut scope = trim_end_char(audience, '/');
        scope.append("/.default");
        scope
    }
}

/// Whatever the audience, a token is asked for a scope that ends in `/.default`.
pub proof fn scope_is_always_a_default_scope(audience: Seq<char>)
    ensures
        "/.default"@.is_suffix_of(scope_of(audience)),
{
    if !"/.default"@.is_suffix_of(audience) {
        let s = scope_of(audience);
        let suffix = "/.default"@;
        assert(s.subrange(s.len() - suffix.len(), s.len() as int) =~= suffix);
    }
}

/// A scope stays what it is when it is taken for an audience.
pub proof fn scope_of_a_scope(audience: Seq<char>)
    ensures
        scope_of(scope_of(audience)) == scope_of(audience),
{
    scope_is_always_a_default_scope(audience);
}

} // verus!
