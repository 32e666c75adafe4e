use commons::display::sentence_list;
use commons::log::BuildLog;
use commons::ruby_install_layer::{cache_state, Changed, RubyInstallLayerMetadata};
use commons::cache_buddy::Disposition;
use commons::create_bundle_path_layer::{CreateBundlePathLayer, CreateBundlePathMetadata};
use commons::install_agentmon::{existing_layer_strategy, Metadata};

#[test]
fn sentence_list_joins_naturally() {
    assert_eq!("", sentence_list(&Vec::new()));
    assert_eq!("one", sentence_list(&vec!["one".to_string()]));
    assert_eq!(
        "one and two",
        sentence_list(&vec!["one".to_string(), "two".to_string()])
    );
    assert_eq!(
        "one, two and three",
        sentence_list(&vec![
            "one".to_string(),
            "two".to_string(),
            "three".to_string()
        ])
    );
}

#[test]
fn build_log_walks_its_states() {
    let log = BuildLog::new(0);
    let (log, line) = log.buildpack_name("Heroku Ruby Buildpack");
    assert_eq!(
        "\x1B[1;35m\x1B[0m\n\x1B[1;35m# Heroku Ruby Buildpack\x1B[0m\n\n",
        line
    );
    let (log, line) = log.section("Ruby version");
    assert_eq!("- Ruby version\n", line);
    let line = log.step("Installing");
    assert_eq!("  - Installing\n", line);
    let log = log.end_section();
    let (_log, line) = log.finish_logging(99);
    assert_eq!("- Done (finished in < 0.1s)\n", line);
}

#[test]
fn ruby_cache_state_checks_stack_then_version() {
    let old = RubyInstallLayerMetadata { stack: "heroku-20".to_string(), version: "3.1.3".to_string() };
    let now = RubyInstallLayerMetadata { stack: "heroku-22".to_string(), version: "3.1.3".to_string() };
    assert!(matches!(cache_state(old, now), Changed::Stack(_, _)));

    let old = RubyInstallLayerMetadata { stack: "heroku-22".to_string(), version: "3.1.2".to_string() };
    let now = RubyInstallLayerMetadata { stack: "heroku-22".to_string(), version: "3.1.3".to_string() };
    assert!(matches!(cache_state(old, now), Changed::RubyVersion(_, _)));

    let old = RubyInstallLayerMetadata { stack: "heroku-22".to_string(), version: "3.1.3".to_string() };
    let now = RubyInstallLayerMetadata { stack: "heroku-22".to_string(), version: "3.1.3".to_string() };
    let Changed::Nothing(version) = cache_state(old, now) else {
        panic!("Expected no change");
    };
    assert_eq!(version, "3.1.3");
}

#[test]
fn bundle_path_layer_keeps_on_same_ruby_version() {
    let layer = CreateBundlePathLayer { ruby_version: "3.1.3".to_string() };
    let same = CreateBundlePathMetadata::new("3.1.3".to_string());
    let other = CreateBundlePathMetadata::new("3.2.0".to_string());
    assert!(matches!(layer.existing_layer_strategy(&same), Disposition::Keep));
    assert!(matches!(layer.existing_layer_strategy(&other), Disposition::Recreate));
}

#[test]
fn agentmon_layer_keeps_on_matching_url() {
    let wanted = "https://example.com/agent.tar.gz".to_string();
    let cached = Metadata { download_url: Some(wanted.clone()) };
    assert!(matches!(existing_layer_strategy(&cached, &wanted), Disposition::Keep));

    let stale = Metadata { download_url: Some("https://example.com/old.tar.gz".to_string()) };
    assert!(matches!(existing_layer_strategy(&stale, &wanted), Disposition::Recreate));

    let unknown = Metadata { download_url: None };
    assert!(matches!(existing_layer_strategy(&unknown, &wanted), Disposition::Recreate));
}
