//! One run of the tool, from the command line as it was parsed to what is to
//! be written: either the defaults file or a new project.
//!
//! Nothing here touches a file. The caller reads the defaults file, hands
//! its text to [`crate::store::load`], and carries out the [`Action`].

use vstd::prelude::*;
use crate::config::{
    EffectiveConfig, EffectiveView, Overrides, OverridesView, PersistedConfig, PersistedView,
    DEFAULT_AKKA_VERSION, DEFAULT_SCALA_VERSION,
};
use crate::resolver::{generated, installed, resolve_generate, resolve_install};
use crate::scaffold::{planned, ScaffoldPlan, ScaffoldView};
use crate::store::{
    create_toml, loaded, parsed_strings, toml_text, Loaded, LoadedView, AKKA_KEY, SCALA_KEY,
};

verus! {

/// A command line that asks for two things that do not go together.
#[derive(Debug, Clone, Copy, PartialEq, Eq)]
pub enum UsageError {
    /// `--install` together with a project name.
    InstallWithProjectName,
    /// `--install` together with `--ver`.
    InstallWithProjectVersion,
    /// `--install` together with `--no-git`.
    InstallWithNoGit,
    /// Neither `--install` nor a project name.
    MissingProjectName,
}

/// What the user asked for.
#[derive(Debug, Clone, PartialEq, Eq)]
pub enum Request {
    /// Store the given options as the new defaults; make no project.
    Install { overrides: Overrides },
    /// Make a project of this name.
    Generate { project_name: String, overrides: Overrides, init_repository: bool },
}

/// What a [`Request`] holds, as sequences of characters.
pub enum RequestView {
    Install { overrides: OverridesView },
    Generate { project_name: Seq<char>, overrides: OverridesView, init_repository: bool },
}

impl View for Request {
    type V = RequestView;

    open spec fn view(&self) -> RequestView {
        match self {
            Request::Install { overrides } => RequestView::Install { overrides: overrides@ },
            Request::Generate { project_name, overrides, init_repository } => {
                RequestView::Generate {
                    project_name: project_name@,
                    overrides: overrides@,
                    init_repository: *init_repository,
                }
            },
        }
    }
}

/// The view of a request or of the error in its place.
pub open spec fn request_view(r: Result<Request, UsageError>) -> Result<RequestView, UsageError> {
    match r {
        Ok(request) => Ok(request@),
        Err(e) => Err(e),
    }
}

/// The request that a command line stands for.
///
/// With `--install` there may be no project name, no `--ver` and no
/// `--no-git`; where several of them are there, the first of these is
/// named. Without `--install` there must be a project name, and a
/// repository is made unless `--no-git` was given.
pub open spec fn requested(
    install: bool,
    project_name: Option<Seq<char>>,
    overrides: OverridesView,
    no_git: bool,
) -> Result<RequestView, UsageError> {
    if install {
        if project_name is Some {
            Err(UsageError::InstallWithProjectName)
        } else if overrides.project_version is Some {
            Err(UsageError::InstallWithProjectVersion)
        } else if no_git {
            Err(UsageError::InstallWithNoGit)
        } else {
            Ok(RequestView::Install { overrides })
        }
    } else {
        match project_name {
            Some(name) => Ok(
                RequestView::Generate {
                    project_name: name,
                    overrides,
                    init_repository: !no_git,
                },
            ),
            None => Err(UsageError::MissingProjectName),
        }
    }
}

impl Request {
    /// Checks the options of a command line against each other and says what
    /// they ask for.
    pub fn from_arguments(
        install: bool,
        project_name: Option<&str>,
        overrides: Overrides,
        no_git: bool,
    ) -> (r: Result<Request, UsageError>)
        ensures
            request_view(r) == requested(install, project_name.deep_view(), overrides@, no_git),
    {
        if install {
            if project_name.is_some() {
                Err(UsageError::InstallWithProjectName)
            } else if overrides.project_version.is_some() {
                Err(UsageError::InstallWithProjectVersion)
            } else if no_git {
                Err(UsageError::InstallWithNoGit)
            } else {
                Ok(Request::Install { overrides })
            }
        } else {
            match project_name {
                Some(name) => Ok(
                    Request::Generate {
                        project_name: name.to_owned(),
                        overrides,
                        init_repository: !no_git,
                    },
                ),
                None => Err(UsageError::MissingProjectName),
            }
        }
    }
}

/// What the caller is to do for a request.
#[derive(Debug, Clone, PartialEq, Eq)]
pub enum Action {
    /// Overwrite the defaults file with `content`, then show the user the
    /// file's path and `content`.
    WriteDefaults { config: PersistedConfig, content: String },
    /// Create the directories of `plan` in their order, write its build
    /// descriptor, enter its root directory and, if `init_repository` is
    /// set, run `git init` there. The first step that fails ends the run;
    /// what was created before it stays.
    CreateProject { config: EffectiveConfig, plan: ScaffoldPlan, init_repository: bool },
}

/// What an [`Action`] holds, as sequences of characters.
pub enum ActionView {
    WriteDefaults { config: PersistedView, content: Seq<char> },
    CreateProject { config: EffectiveView, plan: ScaffoldView, init_repository: bool },
}

impl View for Action {
    type V = ActionView;

    open spec fn view(&self) -> ActionView {
        match self {
            Action::WriteDefaults { config, content } => ActionView::WriteDefaults {
                config: config@,
                content: content@,
            },
            Action::CreateProject { config, plan, init_repository } => ActionView::CreateProject {
                config: config@,
                plan: plan@,
                init_repository: *init_repository,
            },
        }
    }
}

/// The action that answers a request, given what the defaults file held.
pub open spec fn decided(request: RequestView, stored: LoadedView) -> ActionView {
    match request {
        RequestView::Install { overrides } => {
            let config = installed(overrides, stored.config());
            ActionView::WriteDefaults { config, content: toml_text(config) }
        },
        RequestView::Generate { project_name, overrides, init_repository } => {
            let config = generated(project_name, overrides, stored.config());
            ActionView::CreateProject {
                config,
                plan: planned(project_name, config),
                init_repository,
            }
        },
    }
}

/// Resolves the configuration for a request and prepares what is to be
/// written.
pub fn decide(request: &Request, stored: &Loaded) -> (r: Action)
    ensures
        r@ == decided(request@, stored@),
{
    match request {
        Request::Install { overrides } => {
            let config = resolve_install(overrides, stored.config());
            let content = create_toml(&config);
            Action::WriteDefaults { config, content }
        },
        Request::Generate { project_name, overrides, init_repository } => {
            let config = resolve_generate(project_name.as_str(), overrides, stored.config());
            let plan = ScaffoldPlan::new(project_name.as_str(), &config);
            Action::CreateProject { config, plan, init_repository: *init_repository }
        },
    }
}

/// A run without a defaults file works with the built-in versions, unless
/// the command line names others.
pub proof fn lemma_absent_file_gives_fallbacks(project_name: Seq<char>, overrides: OverridesView)
    ensures
        loaded(None).config() is None,
        ({
            let config = generated(project_name, overrides, loaded(None).config());
            &&& config.scala_version == match overrides.scala_version {
                Some(s) => s,
                None => DEFAULT_SCALA_VERSION@,
            }
            &&& config.akka_version == match overrides.akka_version {
                Some(a) => a,
                None => DEFAULT_AKKA_VERSION@,
            }
        }),
{
}

/// A defaults file that is no TOML, or that lacks one of the two versions as
/// a string, changes nothing: every request is answered as if there were no
/// file, so neither the version that is there nor the organization is used.
pub proof fn lemma_unusable_file_counts_as_absent(request: RequestView, content: Seq<char>)
    ensures
        (parsed_strings(content) matches Some(strings) ==> !strings.contains_key(AKKA_KEY@)
            || !strings.contains_key(SCALA_KEY@)) ==> {
            &&& loaded(Some(content)) is Malformed
            &&& decided(request, loaded(Some(content))) == decided(request, loaded(None))
        },
{
}

/// A defaults file that supplies both versions as strings decides the
/// versions of every run in which the command line leaves them out.
pub proof fn lemma_complete_file_decides_versions(
    project_name: Seq<char>,
    overrides: OverridesView,
    content: Seq<char>,
)
    ensures
        (parsed_strings(content) matches Some(strings) && strings.contains_key(AKKA_KEY@)
            && strings.contains_key(SCALA_KEY@)) ==> {
            let strings = parsed_strings(content)->0;
            let config = generated(project_name, overrides, loaded(Some(content)).config());
            &&& loaded(Some(content)) is Config
            &&& overrides.scala_version is None ==> config.scala_version == strings[SCALA_KEY@]
            &&& overrides.akka_version is None ==> config.akka_version == strings[AKKA_KEY@]
            &&& overrides.scala_version matches Some(s) ==> config.scala_version == s
            &&& overrides.akka_version matches Some(a) ==> config.akka_version == a
        },
{
}

} // verus!
