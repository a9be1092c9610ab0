use hakk::config::{EffectiveConfig, Overrides};
use hakk::resolver::resolve_generate;
use hakk::scaffold::{create_build_sbt, ScaffoldPlan};

fn expected_descriptor(name: &str, org: &str, version: &str, scala: &str, akka: &str) -> String {
    format!(
        "name := \"{}\"\n\norganization := \"{}\"\n\nversion := \"{}\"\n\nscalaVersion := \"{}\"\n\nlibraryDependencies ++= {{\n  val akkaVersion = \"{}\"\n  Seq(\n    \"com.typesafe.akka\" %% \"akka-actor\" % akkaVersion,\n    \"com.typesafe.akka\" %% \"akka-testkit\" % akkaVersion % \"test\"\n  )\n}}\n",
        name, org, version, scala, akka
    )
}

#[test]
fn build_sbt_holds_the_five_values_in_order() {
    let text = create_build_sbt("foo", "acme", "0.1-SNAPSHOT", "2.11.7", "2.4.0");
    assert_eq!(text, expected_descriptor("foo", "acme", "0.1-SNAPSHOT", "2.11.7", "2.4.0"));
    let name = text.find("\"foo\"").unwrap();
    let org = text.find("\"acme\"").unwrap();
    let version = text.find("\"0.1-SNAPSHOT\"").unwrap();
    let scala = text.find("\"2.11.7\"").unwrap();
    let akka = text.find("\"2.4.0\"").unwrap();
    assert!(name < org && org < version && version < scala && scala < akka);
}

#[test]
fn build_sbt_tells_the_values_apart() {
    let text = create_build_sbt("a", "b", "c", "d", "e");
    assert!(text.contains("name := \"a\""));
    assert!(text.contains("organization := \"b\""));
    assert!(text.contains("version := \"c\""));
    assert!(text.contains("scalaVersion := \"d\""));
    assert!(text.contains("val akkaVersion = \"e\""));
}

#[test]
fn build_sbt_puts_values_in_as_they_are() {
    let text = create_build_sbt("a\"b", "{}", "%s", "\\n", "");
    assert_eq!(text, expected_descriptor("a\"b", "{}", "%s", "\\n", ""));
}

#[test]
fn plan_for_foo_with_fallbacks() {
    let config = resolve_generate("foo", &Overrides::none(), None);
    let plan = ScaffoldPlan::new("foo", &config);
    assert_eq!(plan.root_directory, "./foo");
    assert_eq!(
        plan.subdirectories,
        vec![
            "./foo",
            "./foo/src",
            "./foo/src/main",
            "./foo/src/main/scala",
            "./foo/src/main/java",
            "./foo/src/main/resources",
            "./foo/src/test",
            "./foo/src/test/scala",
            "./foo/src/test/java",
            "./foo/src/test/resources",
        ]
    );
    assert_eq!(plan.subdirectories.len(), 10);
    assert_eq!(
        plan.build_descriptor_content,
        expected_descriptor("foo", "foo", "0.1-SNAPSHOT", "2.11.7", "2.4.0")
    );
    assert_eq!(plan.descriptor_path(), "./foo/build.sbt");
}

#[test]
fn plan_uses_the_configuration_it_is_given() {
    let config = EffectiveConfig {
        organization: "acme".to_string(),
        scala_version: "2.12.1".to_string(),
        akka_version: "2.5.3".to_string(),
        project_version: "1.0".to_string(),
    };
    let plan = ScaffoldPlan::new("rocket", &config);
    assert_eq!(plan.root_directory, "./rocket");
    assert_eq!(
        plan.build_descriptor_content,
        expected_descriptor("rocket", "acme", "1.0", "2.12.1", "2.5.3")
    );
    assert_eq!(plan.subdirectories[0], "./rocket");
    assert_eq!(plan.subdirectories[9], "./rocket/src/test/resources");
}

#[test]
fn plan_never_names_a_directory_before_its_parent() {
    let config = resolve_generate("p", &Overrides::none(), None);
    let plan = ScaffoldPlan::new("p", &config);
    for (i, dir) in plan.subdirectories.iter().enumerate() {
        if let Some(cut) = dir.rfind('/') {
            let parent = &dir[..cut];
            if parent != "." {
                assert!(plan.subdirectories[..i].iter().any(|d| d == parent));
            }
        }
    }
}
