//! External capability integration.

use vstd::prelude::*;
use crate::tools::registry::ToolError;
use crate::text::owned;

verus! {

/// Authentication kind for external capabilities.
#[derive(Debug, Clone, Copy, PartialEq, Eq, Structural)]
pub enum AuthKind {
    /// No authentication.
    NoAuth,
    ApiKey,
    OAuth,
    MTls,
}

/// External capability definition.
#[derive(Debug)]
pub struct ExternalCapability {
    /// Capability name.
    pub name: String,
    /// Endpoint URL.
    pub endpoint: String,
    /// Authentication kind.
    pub auth_kind: AuthKind,
    /// Required scopes.
    pub required_scopes: Vec<String>,
}

/// A capability that asks for scopes must authenticate.
pub open spec fn capability_valid(c: ExternalCapability) -> bool {
    !(c.required_scopes@.len() > 0 && c.auth_kind == AuthKind::NoAuth)
}

/// Validate an external capability: it fails, with a registration error,
/// exactly when scopes are required but no authentication is.
pub fn validate_capability(c: &ExternalCapability) -> (r: Result<(), ToolError>)
    ensures
        r is Ok <==> capability_valid(*c),
        r matches Err(ToolError::RegistrationFailed(m)) ==> m@
            == "auth_kind must not be None when required_scopes is non-empty"@,
        r matches Err(e) ==> e is RegistrationFailed,
{
    if c.required_scopes.len() > 0 && c.auth_kind == AuthKind::NoAuth {
        return Err(
            ToolError::RegistrationFailed(
                owned("auth_kind must not be None when required_scopes is non-empty"),
            ),
        );
    }
    Ok(())
}

/// Exercise the capability contracts on an API-key capability that needs
/// the "read" scope. Returns whether it validated, which it does.
pub fn reference_external_capability_contracts() -> (r: bool)
    ensures
        r,
{
    let mut scopes: Vec<String> = Vec::new();
    scopes.push(owned("read"));
    let cap = ExternalCapability {
        name: owned("test-capability"),
        endpoint: owned("https://example.com"),
        auth_kind: AuthKind::ApiKey,
        required_scopes: scopes,
    };
    let validation = validate_capability(&cap);
    validation.is_ok()
}

} // verus!
