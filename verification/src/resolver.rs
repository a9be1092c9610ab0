//! Precedence between the three sources of a setting: the command line, the
//! defaults file, and the built-in fallback.

use vstd::prelude::*;
use crate::config::{
    view_of, EffectiveConfig, EffectiveView, Overrides, OverridesView, PersistedConfig,
    PersistedView, DEFAULT_AKKA_VERSION, DEFAULT_PROJECT_VERSION, DEFAULT_SCALA_VERSION,
};

verus! {

/// The first source that has a value wins: the override, else the stored
/// value, else the fallback.
pub open spec fn first_of(
    given: Option<Seq<char>>,
    stored: Option<Seq<char>>,
    fallback: Seq<char>,
) -> Seq<char> {
    match given {
        Some(s) => s,
        None => match stored {
            Some(s) => s,
            None => fallback,
        },
    }
}

/// The stored Scala version, if a defaults file was loaded.
pub open spec fn stored_scala(persisted: Option<PersistedView>) -> Option<Seq<char>> {
    match persisted {
        Some(p) => Some(p.scala_version),
        None => None,
    }
}

/// The stored Akka version, if a defaults file was loaded.
pub open spec fn stored_akka(persisted: Option<PersistedView>) -> Option<Seq<char>> {
    match persisted {
        Some(p) => Some(p.akka_version),
        None => None,
    }
}

/// The stored organization, if a defaults file was loaded and names one.
pub open spec fn stored_organization(persisted: Option<PersistedView>) -> Option<Seq<char>> {
    match persisted {
        Some(p) => p.organization,
        None => None,
    }
}

/// The configuration that a project named `project_name` is generated from.
pub open spec fn generated(
    project_name: Seq<char>,
    overrides: OverridesView,
    persisted: Option<PersistedView>,
) -> EffectiveView {
    EffectiveView {
        organization: first_of(
            overrides.organization,
            stored_organization(persisted),
            project_name,
        ),
        scala_version: first_of(
            overrides.scala_version,
            stored_scala(persisted),
            DEFAULT_SCALA_VERSION@,
        ),
        akka_version: first_of(
            overrides.akka_version,
            stored_akka(persisted),
            DEFAULT_AKKA_VERSION@,
        ),
        project_version: first_of(overrides.project_version, None, DEFAULT_PROJECT_VERSION@),
    }
}

/// The defaults that an install run stores.
///
/// The organization is the override alone: one stored earlier is not carried
/// over, so installing without an organization clears it.
pub open spec fn installed(
    overrides: OverridesView,
    persisted: Option<PersistedView>,
) -> PersistedView {
    PersistedView {
        organization: overrides.organization,
        scala_version: first_of(
            overrides.scala_version,
            stored_scala(persisted),
            DEFAULT_SCALA_VERSION@,
        ),
        akka_version: first_of(
            overrides.akka_version,
            stored_akka(persisted),
            DEFAULT_AKKA_VERSION@,
        ),
    }
}

/// Picks the override, else the stored value, else the fallback.
fn pick(given: &Option<String>, stored: Option<&String>, fallback: &str) -> (r: String)
    ensures
        r@ == first_of(given.deep_view(), stored.deep_view(), fallback@),
{
    match given {
        Some(s) => s.clone(),
        None => match stored {
            Some(s) => s.clone(),
            None => fallback.to_owned(),
        },
    }
}

/// Resolves the configuration of a generate run.
///
/// Each field is resolved by itself. The organization falls back to the
/// project's name, the project version has no stored value.
pub fn resolve_generate(
    project_name: &str,
    overrides: &Overrides,
    persisted: Option<&PersistedConfig>,
) -> (r: EffectiveConfig)
    ensures
        r@ == generated(project_name@, overrides@, view_of(persisted)),
{
    let (stored_org, stored_scala, stored_akka) = match persisted {
        Some(p) => (p.organization.as_ref(), Some(&p.scala_version), Some(&p.akka_version)),
        None => (None, None, None),
    };
    EffectiveConfig {
        organization: pick(&overrides.organization, stored_org, project_name),
        scala_version: pick(&overrides.scala_version, stored_scala, DEFAULT_SCALA_VERSION),
        akka_version: pick(&overrides.akka_version, stored_akka, DEFAULT_AKKA_VERSION),
        project_version: pick(&overrides.project_version, None, DEFAULT_PROJECT_VERSION),
    }
}

/// Resolves the defaults that an install run writes to the defaults file.
///
/// The project version plays no part here, whatever `overrides` holds for it.
pub fn resolve_install(overrides: &Overrides, persisted: Option<&PersistedConfig>) -> (r:
    PersistedConfig)
    ensures
        r@ == installed(overrides@, view_of(persisted)),
{
    let (stored_scala, stored_akka) = match persisted {
        Some(p) => (Some(&p.scala_version), Some(&p.akka_version)),
        None => (None, None),
    };
    PersistedConfig {
        organization: match &overrides.organization {
            Some(s) => Some(s.clone()),
            None => None,
        },
        scala_version: pick(&overrides.scala_version, stored_scala, DEFAULT_SCALA_VERSION),
        akka_version: pick(&overrides.akka_version, stored_akka, DEFAULT_AKKA_VERSION),
    }
}

/// A value given on the command line always wins, whatever the defaults
/// file holds: in a generate run for all four settings, in an install run
/// for the three that are stored.
pub proof fn lemma_override_wins(
    project_name: Seq<char>,
    overrides: OverridesView,
    persisted: Option<PersistedView>,
)
    ensures
        overrides.organization matches Some(o) ==> generated(
            project_name,
            overrides,
            persisted,
        ).organization == o,
        overrides.scala_version matches Some(s) ==> {
            &&& generated(project_name, overrides, persisted).scala_version == s
            &&& installed(overrides, persisted).scala_version == s
        },
        overrides.akka_version matches Some(a) ==> {
            &&& generated(project_name, overrides, persisted).akka_version == a
            &&& installed(overrides, persisted).akka_version == a
        },
        overrides.project_version matches Some(v) ==> generated(
            project_name,
            overrides,
            persisted,
        ).project_version == v,
        installed(overrides, persisted).organization == overrides.organization,
{
}

/// Where the command line leaves a version out, the one from the defaults
/// file is used; the same holds of the organization, if the file names one.
pub proof fn lemma_stored_values_used(
    project_name: Seq<char>,
    overrides: OverridesView,
    persisted: PersistedView,
)
    ensures
        overrides.scala_version is None ==> {
            &&& generated(project_name, overrides, Some(persisted)).scala_version
                == persisted.scala_version
            &&& installed(overrides, Some(persisted)).scala_version == persisted.scala_version
        },
        overrides.akka_version is None ==> {
            &&& generated(project_name, overrides, Some(persisted)).akka_version
                == persisted.akka_version
            &&& installed(overrides, Some(persisted)).akka_version == persisted.akka_version
        },
        overrides.organization is None ==> (persisted.organization matches Some(o) ==> generated(
            project_name,
            overrides,
            Some(persisted),
        ).organization == o),
{
}

/// Without a defaults file, a version that the command line leaves out is
/// the built-in one. The project version is the built-in one whenever the
/// command line leaves it out, file or no file.
pub proof fn lemma_fallbacks_without_stored(
    project_name: Seq<char>,
    overrides: OverridesView,
    persisted: Option<PersistedView>,
)
    ensures
        overrides.scala_version is None ==> {
            &&& generated(project_name, overrides, None).scala_version == DEFAULT_SCALA_VERSION@
            &&& installed(overrides, None).scala_version == DEFAULT_SCALA_VERSION@
        },
        overrides.akka_version is None ==> {
            &&& generated(project_name, overrides, None).akka_version == DEFAULT_AKKA_VERSION@
            &&& installed(overrides, None).akka_version == DEFAULT_AKKA_VERSION@
        },
        overrides.project_version is None ==> generated(
            project_name,
            overrides,
            persisted,
        ).project_version == DEFAULT_PROJECT_VERSION@,
{
}

/// A project for which neither the command line nor the defaults file names
/// an organization is organized under its own name.
pub proof fn lemma_organization_falls_back_to_name(
    project_name: Seq<char>,
    overrides: OverridesView,
    persisted: Option<PersistedView>,
)
    requires
        overrides.organization is None,
        stored_organization(persisted) is None,
    ensures
        generated(project_name, overrides, persisted).organization == project_name,
{
}

/// The organization of a generated project is never empty, as long as the
/// project has a name and no source supplies an empty organization.
pub proof fn lemma_organization_not_empty(
    project_name: Seq<char>,
    overrides: OverridesView,
    persisted: Option<PersistedView>,
)
    requires
        project_name.len() > 0,
        overrides.organization matches Some(o) ==> o.len() > 0,
        stored_organization(persisted) matches Some(o) ==> o.len() > 0,
    ensures
        generated(project_name, overrides, persisted).organization.len() > 0,
{
}

} // verus!
