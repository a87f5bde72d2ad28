//! The default-builder registry.
//!
//! A [`Registry`] decides which [`CredentialBuilder`] backs convenience
//! entry construction.  It holds at most one explicitly installed override
//! and, independently, the lazily built platform fallback.  An override,
//! once installed, wins over the fallback for every later resolution; the
//! fallback is built at most once and never rebuilt.  The registry is an
//! explicit value handed to entry construction; a host application that
//! wants a process-wide default keeps one registry behind a lock of its
//! own and serializes access to it there.

use vstd::prelude::*;

use crate::credential::CredentialBuilder;
use crate::mock::default_credential_builder;
use crate::mock::platform_default_builder;

verus! {

/// The abstract state of a [`Registry`]: the installed override, if any,
/// and the platform fallback, if it has been built.
pub struct RegistryView {
    pub override_builder: Option<CredentialBuilder>,
    pub platform_default: Option<CredentialBuilder>,
}

/// The builder a resolution returns in state `r`: the override if one is
/// installed, else the already built fallback, else the platform default.
pub open spec fn resolved_builder(r: RegistryView) -> CredentialBuilder {
    match r.override_builder {
        Some(b) => b,
        None => match r.platform_default {
            Some(d) => d,
            None => platform_default_builder(),
        },
    }
}

/// The registry state after a resolution: unchanged, except that the
/// platform fallback now exists if neither an override nor the fallback
/// did before.
pub open spec fn after_resolve(r: RegistryView) -> RegistryView {
    match r.override_builder {
        Some(_) => r,
        None => RegistryView {
            override_builder: None,
            platform_default: Some(resolved_builder(r)),
        },
    }
}

/// The registry state after installing `b` as the override: any prior
/// override is replaced whole; the fallback slot is untouched.
pub open spec fn after_set_default(r: RegistryView, b: CredentialBuilder) -> RegistryView {
    RegistryView { override_builder: Some(b), platform_default: r.platform_default }
}

/// The registry of default credential builders.
#[derive(Debug)]
pub struct Registry {
    override_builder: Option<CredentialBuilder>,
    platform_default: Option<CredentialBuilder>,
}

impl View for Registry {
    type V = RegistryView;

    closed spec fn view(&self) -> RegistryView {
        RegistryView {
            override_builder: self.override_builder,
            platform_default: self.platform_default,
        }
    }
}

impl Default for Registry {
    /// A registry with no override installed and the fallback not yet
    /// built.
    fn default() -> (r: Registry)
        ensures
            r@ == (RegistryView { override_builder: None, platform_default: None }),
    {
        Registry { override_builder: None, platform_default: None }
    }
}

impl Registry {
    /// Create a registry with no override installed and the fallback not
    /// yet built.
    pub fn new() -> (r: Registry)
        ensures
            r@ == (RegistryView { override_builder: None, platform_default: None }),
    {
        Registry { override_builder: None, platform_default: None }
    }

    /// Install `builder` as the override, replacing any prior override
    /// whole.  Every later resolution returns it.
    pub fn set_default(&mut self, builder: CredentialBuilder)
        ensures
            final(self)@ == after_set_default(old(self)@, builder),
    {
        self.override_builder = Some(builder);
    }

    /// Return the builder that currently backs convenience entry
    /// construction: the override if one is installed, otherwise the
    /// platform fallback, built now if this is the first resolution to
    /// need it and cached for every later one.
    pub fn resolve(&mut self) -> (b: CredentialBuilder)
        ensures
            b == resolved_builder(old(self)@),
            final(self)@ == after_resolve(old(self)@),
    {
        match &self.override_builder {
            Some(b) => *b,
            None => match &self.platform_default {
                Some(d) => *d,
                None => {
                    let d = default_credential_builder();
                    self.platform_default = Some(d);
                    d
                },
            },
        }
    }

    /// Whether an override is installed.
    pub fn has_override(&self) -> (r: bool)
        ensures
            r == (self@.override_builder is Some),
    {
        self.override_builder.is_some()
    }

    /// Whether the platform fallback has been built.
    pub fn default_built(&self) -> (r: bool)
        ensures
            r == (self@.platform_default is Some),
    {
        self.platform_default.is_some()
    }
}

/// Resolving the default builder twice without an intervening override
/// returns the same builder, and the second resolution neither changes the
/// registry nor builds the platform fallback again: once built, the
/// fallback is fixed.
pub proof fn lemma_resolve_idempotent(r: RegistryView)
    ensures
        resolved_builder(after_resolve(r)) == resolved_builder(r),
        after_resolve(after_resolve(r)) == after_resolve(r),
{
}

/// A fallback that has been built is never rebuilt: a later resolution
/// keeps it exactly.
pub proof fn lemma_default_never_rebuilt(r: RegistryView, d: CredentialBuilder)
    requires
        r.platform_default == Some(d),
    ensures
        after_resolve(r).platform_default == Some(d),
{
}

/// An installed override takes precedence: after installing `b`, every
/// resolution returns `b`, however many resolutions follow, and none of
/// them changes the registry.
pub proof fn lemma_override_precedence(r: RegistryView, b: CredentialBuilder)
    ensures
        resolved_builder(after_set_default(r, b)) == b,
        after_resolve(after_set_default(r, b)) == after_set_default(r, b),
{
}

} // verus!
