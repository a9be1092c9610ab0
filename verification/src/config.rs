//! The values that the rest of the library passes around, each with the
//! mathematical view that the contracts speak of.

use vstd::prelude::*;

verus! {

/// Scala version used when neither the command line nor the defaults file names one.
pub const DEFAULT_SCALA_VERSION: &'static str = "2.11.7";

/// Akka version used when neither the command line nor the defaults file names one.
pub const DEFAULT_AKKA_VERSION: &'static str = "2.4.0";

/// Version given to a new project when the command line names none.
pub const DEFAULT_PROJECT_VERSION: &'static str = "0.1-SNAPSHOT";

/// The defaults that a user keeps in the per-user file.
///
/// Both versions are always there; the organization may be missing, in which
/// case a new project is organized under its own name.
#[derive(Debug, Clone, PartialEq, Eq)]
pub struct PersistedConfig {
    pub organization: Option<String>,
    pub scala_version: String,
    pub akka_version: String,
}

/// What a [`PersistedConfig`] holds, as sequences of characters.
pub struct PersistedView {
    pub organization: Option<Seq<char>>,
    pub scala_version: Seq<char>,
    pub akka_version: Seq<char>,
}

impl View for PersistedConfig {
    type V = PersistedView;

    open spec fn view(&self) -> PersistedView {
        PersistedView {
            organization: self.organization.deep_view(),
            scala_version: self.scala_version@,
            akka_version: self.akka_version@,
        }
    }
}

/// The view of a value that may be missing.
pub open spec fn view_of<T: View>(value: Option<T>) -> Option<T::V> {
    match value {
        Some(v) => Some(v@),
        None => None,
    }
}

/// The values given on the command line; `None` where an option was left out.
#[derive(Debug, Clone, PartialEq, Eq)]
pub struct Overrides {
    pub organization: Option<String>,
    pub project_version: Option<String>,
    pub scala_version: Option<String>,
    pub akka_version: Option<String>,
}

/// What an [`Overrides`] holds, as sequences of characters.
pub struct OverridesView {
    pub organization: Option<Seq<char>>,
    pub project_version: Option<Seq<char>>,
    pub scala_version: Option<Seq<char>>,
    pub akka_version: Option<Seq<char>>,
}

impl View for Overrides {
    type V = OverridesView;

    open spec fn view(&self) -> OverridesView {
        OverridesView {
            organization: self.organization.deep_view(),
            project_version: self.project_version.deep_view(),
            scala_version: self.scala_version.deep_view(),
            akka_version: self.akka_version.deep_view(),
        }
    }
}

impl Overrides {
    /// No option given: every field falls through to the next source.
    pub fn none() -> (r: Overrides)
        ensures
            r@ == (OverridesView {
                organization: None,
                project_version: None,
                scala_version: None,
                akka_version: None,
            }),
    {
        Overrides {
            organization: None,
            project_version: None,
            scala_version: None,
            akka_version: None,
        }
    }
}

/// The configuration that one run generates a project from.
#[derive(Debug, Clone, PartialEq, Eq)]
pub struct EffectiveConfig {
    pub organization: String,
    pub scala_version: String,
    pub akka_version: String,
    pub project_version: String,
}

/// What an [`EffectiveConfig`] holds, as sequences of characters.
pub struct EffectiveView {
    pub organization: Seq<char>,
    pub scala_version: Seq<char>,
    pub akka_version: Seq<char>,
    pub project_version: Seq<char>,
}

impl View for EffectiveConfig {
    type V = EffectiveView;

    open spec fn view(&self) -> EffectiveView {
        EffectiveView {
            organization: self.organization@,
            scala_version: self.scala_version@,
            akka_version: self.akka_version@,
            project_version: self.project_version@,
        }
    }
}

} // verus!
