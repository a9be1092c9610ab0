//! The plan of a new project: the directories to create and the text of its
//! `build.sbt`.

use vstd::prelude::*;
use crate::config::{EffectiveConfig, EffectiveView};

verus! {

/// The build descriptor up to the quote before the project's name.
pub const NAME_HEAD: &'static str = "name := \"";

/// From the project's name to the quote before the organization.
pub const ORGANIZATION_HEAD: &'static str = "\"\n\norganization := \"";

/// From the organization to the quote before the project's version.
pub const VERSION_HEAD: &'static str = "\"\n\nversion := \"";

/// From the project's version to the quote before the Scala version.
pub const SCALA_HEAD: &'static str = "\"\n\nscalaVersion := \"";

/// From the Scala version to the quote before the Akka version.
pub const AKKA_HEAD: &'static str = "\"\n\nlibraryDependencies ++= {\n  val akkaVersion = \"";

/// From the Akka version to the end of the build descriptor.
pub const DEPENDENCIES_TAIL: &'static str =
    "\"\n  Seq(\n    \"com.typesafe.akka\" %% \"akka-actor\" % akkaVersion,\n    \"com.typesafe.akka\" %% \"akka-testkit\" % akkaVersion % \"test\"\n  )\n}\n";

/// What stands before a project's name in the path of its root directory.
pub const ROOT_PREFIX: &'static str = "./";

/// Path of the build descriptor below the project's root.
pub const DESCRIPTOR_SUFFIX: &'static str = "/build.sbt";

/// How many directories a project is made of, its root included.
pub const DIRECTORY_COUNT: usize = 10;

/// The text of `build.sbt`: the five values, each put in its place as it
/// is, between the fixed pieces of the template.
pub open spec fn build_sbt_text(
    name: Seq<char>,
    organization: Seq<char>,
    version: Seq<char>,
    scala: Seq<char>,
    akka: Seq<char>,
) -> Seq<char> {
    NAME_HEAD@ + name + ORGANIZATION_HEAD@ + organization + VERSION_HEAD@ + version + SCALA_HEAD@
        + scala + AKKA_HEAD@ + akka + DEPENDENCIES_TAIL@
}

/// Renders the build descriptor of a project.
///
/// The values are neither checked nor escaped.
pub fn create_build_sbt(
    project_name: &str,
    project_organization: &str,
    project_version: &str,
    scala_version: &str,
    akka_version: &str,
) -> (r: String)
    ensures
        r@ == build_sbt_text(
            project_name@,
            project_organization@,
            project_version@,
            scala_version@,
            akka_version@,
        ),
{
    let mut text = NAME_HEAD.to_owned();
    text.append(project_name);
    text.append(ORGANIZATION_HEAD);
    text.append(project_organization);
    text.append(VERSION_HEAD);
    text.append(project_version);
    text.append(SCALA_HEAD);
    text.append(scala_version);
    text.append(AKKA_HEAD);
    text.append(akka_version);
    text.append(DEPENDENCIES_TAIL);
    text
}

/// The directories of a project, each as its path below the root: the root
/// itself, then the source and test trees for Scala, Java and resources.
/// A directory never comes before its parent.
pub open spec fn directory_suffixes() -> Seq<Seq<char>> {
    seq![
        ""@,
        "/src"@,
        "/src/main"@,
        "/src/main/scala"@,
        "/src/main/java"@,
        "/src/main/resources"@,
        "/src/test"@,
        "/src/test/scala"@,
        "/src/test/java"@,
        "/src/test/resources"@,
    ]
}

/// The path of a project's root directory, relative to where it is made.
pub open spec fn root_of(project_name: Seq<char>) -> Seq<char> {
    ROOT_PREFIX@ + project_name
}

/// The directories to create for a project, in the order of creation.
pub open spec fn directories_of(project_name: Seq<char>) -> Seq<Seq<char>> {
    Seq::new(
        directory_suffixes().len(),
        |i: int| root_of(project_name) + directory_suffixes()[i],
    )
}

/// What is to be created for one new project.
#[derive(Debug, Clone, PartialEq, Eq)]
pub struct ScaffoldPlan {
    /// Path of the project's root, `./` and the project's name.
    pub root_directory: String,
    /// Every directory to create, the root first.
    pub subdirectories: Vec<String>,
    /// The text of `build.sbt`.
    pub build_descriptor_content: String,
}

/// What a [`ScaffoldPlan`] holds, as sequences of characters.
pub struct ScaffoldView {
    pub root_directory: Seq<char>,
    pub subdirectories: Seq<Seq<char>>,
    pub build_descriptor_content: Seq<char>,
}

impl View for ScaffoldPlan {
    type V = ScaffoldView;

    open spec fn view(&self) -> ScaffoldView {
        ScaffoldView {
            root_directory: self.root_directory@,
            subdirectories: self.subdirectories.deep_view(),
            build_descriptor_content: self.build_descriptor_content@,
        }
    }
}

/// The plan for a project of this name and configuration.
pub open spec fn planned(project_name: Seq<char>, config: EffectiveView) -> ScaffoldView {
    ScaffoldView {
        root_directory: root_of(project_name),
        subdirectories: directories_of(project_name),
        build_descriptor_content: build_sbt_text(
            project_name,
            config.organization,
            config.project_version,
            config.scala_version,
            config.akka_version,
        ),
    }
}

/// The directory suffixes as strings to build paths from.
fn suffixes() -> (r: [&'static str; DIRECTORY_COUNT])
    ensures
        r@.len() == directory_suffixes().len(),
        forall|i: int| 0 <= i < r@.len() ==> (#[trigger] r@[i])@ == directory_suffixes()[i],
{
    [
        "",
        "/src",
        "/src/main",
        "/src/main/scala",
        "/src/main/java",
        "/src/main/resources",
        "/src/test",
        "/src/test/scala",
        "/src/test/java",
        "/src/test/resources",
    ]
}

impl ScaffoldPlan {
    /// Plans the directories and the build descriptor of a new project.
    pub fn new(project_name: &str, config: &EffectiveConfig) -> (r: ScaffoldPlan)
        ensures
            r@ == planned(project_name@, config@),
    {
        let mut root = ROOT_PREFIX.to_owned();
        root.append(project_name);
        let tails = suffixes();
        let mut directories: Vec<String> = Vec::new();
        let mut i: usize = 0;
        while i < DIRECTORY_COUNT
            invariant
                i <= DIRECTORY_COUNT,
                root@ == root_of(project_name@),
                tails@.len() == DIRECTORY_COUNT,
                directory_suffixes().len() == DIRECTORY_COUNT,
                forall|j: int|
                    0 <= j < DIRECTORY_COUNT ==> (#[trigger] tails@[j])@ == directory_suffixes()[j],
                directories@.len() == i,
                forall|j: int|
                    0 <= j < i ==> (#[trigger] directories@[j])@ == directories_of(
                        project_name@,
                    )[j],
            decreases DIRECTORY_COUNT - i,
        {
            let mut path = root.clone();
            path.append(tails[i]);
            directories.push(path);
            i = i + 1;
        }
        assert(directories.deep_view() =~= directories_of(project_name@));
        ScaffoldPlan {
            root_directory: root,
            subdirectories: directories,
            build_descriptor_content: create_build_sbt(
                project_name,
                config.organization.as_str(),
                config.project_version.as_str(),
                config.scala_version.as_str(),
                config.akka_version.as_str(),
            ),
        }
    }

    /// The path at which `build.sbt` is written.
    pub fn descriptor_path(&self) -> (r: String)
        ensures
            r@ == self@.root_directory + DESCRIPTOR_SUFFIX@,
    {
        let mut path = self.root_directory.clone();
        path.append(DESCRIPTOR_SUFFIX);
        path
    }
}

} // verus!
