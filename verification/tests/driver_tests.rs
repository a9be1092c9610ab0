use hakk::config::{Overrides, PersistedConfig};
use hakk::driver::{decide, Action, Request, UsageError};
use hakk::store::{load, Loaded};

fn given(
    organization: Option<&str>,
    project_version: Option<&str>,
    scala: Option<&str>,
    akka: Option<&str>,
) -> Overrides {
    Overrides {
        organization: organization.map(|o| o.to_string()),
        project_version: project_version.map(|v| v.to_string()),
        scala_version: scala.map(|s| s.to_string()),
        akka_version: akka.map(|a| a.to_string()),
    }
}

#[test]
fn install_with_project_name_is_refused() {
    let r = Request::from_arguments(true, Some("foo"), Overrides::none(), false);
    assert_eq!(r, Err(UsageError::InstallWithProjectName));
}

#[test]
fn install_with_project_version_is_refused() {
    let r = Request::from_arguments(true, None, given(None, Some("1.0"), None, None), false);
    assert_eq!(r, Err(UsageError::InstallWithProjectVersion));
}

#[test]
fn install_with_no_git_is_refused() {
    let r = Request::from_arguments(true, None, Overrides::none(), true);
    assert_eq!(r, Err(UsageError::InstallWithNoGit));
}

#[test]
fn generate_without_project_name_is_refused() {
    let r = Request::from_arguments(false, None, Overrides::none(), false);
    assert_eq!(r, Err(UsageError::MissingProjectName));
    let r = Request::from_arguments(false, None, Overrides::none(), true);
    assert_eq!(r, Err(UsageError::MissingProjectName));
}

#[test]
fn first_conflict_is_the_one_named() {
    let all = given(None, Some("1.0"), None, None);
    assert_eq!(
        Request::from_arguments(true, Some("foo"), all.clone(), true),
        Err(UsageError::InstallWithProjectName)
    );
    assert_eq!(
        Request::from_arguments(true, None, all, true),
        Err(UsageError::InstallWithProjectVersion)
    );
}

#[test]
fn install_request_keeps_its_overrides() {
    let overrides = given(Some("acme"), None, Some("2.12.1"), None);
    let r = Request::from_arguments(true, None, overrides.clone(), false);
    assert_eq!(r, Ok(Request::Install { overrides }));
}

#[test]
fn generate_request_makes_a_repository_unless_told_not_to() {
    let r = Request::from_arguments(false, Some("foo"), Overrides::none(), false);
    assert_eq!(
        r,
        Ok(Request::Generate {
            project_name: "foo".to_string(),
            overrides: Overrides::none(),
            init_repository: true,
        })
    );
    let r = Request::from_arguments(false, Some("foo"), Overrides::none(), true);
    assert_eq!(
        r,
        Ok(Request::Generate {
            project_name: "foo".to_string(),
            overrides: Overrides::none(),
            init_repository: false,
        })
    );
}

#[test]
fn generate_foo_without_file_or_overrides() {
    let request = Request::from_arguments(false, Some("foo"), Overrides::none(), false).unwrap();
    match decide(&request, &load(None)) {
        Action::CreateProject { config, plan, init_repository } => {
            assert!(init_repository);
            assert_eq!(config.organization, "foo");
            assert_eq!(config.project_version, "0.1-SNAPSHOT");
            assert_eq!(config.scala_version, "2.11.7");
            assert_eq!(config.akka_version, "2.4.0");
            assert_eq!(plan.root_directory, "./foo");
            assert_eq!(plan.subdirectories.len(), 10);
            for dir in plan.subdirectories.iter() {
                assert!(dir == "./foo" || dir.starts_with("./foo/"));
            }
            let text = plan.build_descriptor_content;
            let name = text.find("name := \"foo\"").unwrap();
            let org = text.find("organization := \"foo\"").unwrap();
            let version = text.find("\"0.1-SNAPSHOT\"").unwrap();
            let scala = text.find("\"2.11.7\"").unwrap();
            let akka = text.find("\"2.4.0\"").unwrap();
            assert!(name < org && org < version && version < scala && scala < akka);
        }
        other => panic!("expected a project, got {:?}", other),
    }
}

#[test]
fn install_acme_with_scala_override_and_no_file() {
    let overrides = given(Some("acme"), None, Some("2.12.1"), None);
    let request = Request::from_arguments(true, None, overrides, false).unwrap();
    match decide(&request, &load(None)) {
        Action::WriteDefaults { config, content } => {
            assert_eq!(
                config,
                PersistedConfig {
                    organization: Some("acme".to_string()),
                    scala_version: "2.12.1".to_string(),
                    akka_version: "2.4.0".to_string(),
                }
            );
            assert!(content.contains("[metadata]\norganization = \"acme\""));
            assert!(content.contains("[versions]\n"));
            assert!(content.contains("scala = \"2.12.1\""));
            assert!(content.contains("akka = \"2.4.0\""));
            assert_eq!(load(Some(&content)), Loaded::Config(config));
        }
        other => panic!("expected new defaults, got {:?}", other),
    }
}

#[test]
fn malformed_file_then_generate_uses_fallbacks() {
    let text = "[metadata]\norganization = \"acme\"\n\n[versions]\nscala = \"2.12.1\"\n";
    let stored = load(Some(text));
    assert!(stored.is_reported());
    assert_eq!(stored.config(), None);
    let request = Request::from_arguments(false, Some("foo"), Overrides::none(), true).unwrap();
    assert_eq!(decide(&request, &stored), decide(&request, &load(None)));
    match decide(&request, &stored) {
        Action::CreateProject { config, init_repository, .. } => {
            assert!(!init_repository);
            assert_eq!(config.organization, "foo");
            assert_eq!(config.scala_version, "2.11.7");
            assert_eq!(config.akka_version, "2.4.0");
        }
        other => panic!("expected a project, got {:?}", other),
    }
}

#[test]
fn complete_file_decides_what_the_command_line_leaves_out() {
    let text = "[metadata]\norganization = \"initech\"\n[versions]\nscala = \"2.10.6\"\nakka = \"2.3.14\"";
    let stored = load(Some(text));
    let overrides = given(None, None, None, Some("2.5.3"));
    let request = Request::from_arguments(false, Some("foo"), overrides, false).unwrap();
    match decide(&request, &stored) {
        Action::CreateProject { config, plan, .. } => {
            assert_eq!(config.organization, "initech");
            assert_eq!(config.scala_version, "2.10.6");
            assert_eq!(config.akka_version, "2.5.3");
            assert!(plan.build_descriptor_content.contains("organization := \"initech\""));
            assert!(plan.build_descriptor_content.contains("scalaVersion := \"2.10.6\""));
            assert!(plan.build_descriptor_content.contains("val akkaVersion = \"2.5.3\""));
        }
        other => panic!("expected a project, got {:?}", other),
    }
}

#[test]
fn install_over_an_existing_file_keeps_its_versions() {
    let text = "[metadata]\norganization = \"initech\"\n[versions]\nscala = \"2.10.6\"\nakka = \"2.3.14\"";
    let request = Request::from_arguments(true, None, Overrides::none(), false).unwrap();
    match decide(&request, &load(Some(text))) {
        Action::WriteDefaults { content, .. } => {
            assert_eq!(content, "[versions]\nscala = \"2.10.6\"\nakka = \"2.3.14\"");
        }
        other => panic!("expected new defaults, got {:?}", other),
    }
}
