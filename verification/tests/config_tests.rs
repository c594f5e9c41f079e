use trappo::config::{parse_config_file, ConfigError, FileRead, HostConfig};

const DOCS_CONFIG: &str = r#"
[global]
host            = "my-server"
repo-url        = "git@github.com:dcabrejas/example-project.git"
linked-files    = ['app/etc/env.php', 'public/gtm.txt']
linked-dirs     = ['public/media', 'public/feeds']

[develop]
deploy-path     = "/var/www/my-website/___deploy"
keep-releases   = 3
branch          = "develop"

[staging]
deploy-path     = "/my-website-staging/___deploy"
keep-releases   = 1
branch          = "master"
"#;

fn read(text: &str, stage: &str) -> Option<Result<HostConfig, ConfigError>> {
    parse_config_file(".trappo/config.toml", FileRead::Contents(text.to_string()), stage)
}

fn strings(v: &[&str]) -> Vec<String> {
    v.iter().map(|s| s.to_string()).collect()
}

#[test]
fn documented_configuration_is_read_for_each_stage() {
    let develop = read(DOCS_CONFIG, "develop").unwrap().unwrap();
    assert_eq!(develop.host, "my-server");
    assert_eq!(develop.deploy_path, "/var/www/my-website/___deploy");
    assert_eq!(develop.keep_releases, 3);
    assert_eq!(develop.repo_url, "git@github.com:dcabrejas/example-project.git");
    assert_eq!(develop.link_files, strings(&["app/etc/env.php", "public/gtm.txt"]));
    assert_eq!(develop.link_dirs, strings(&["public/media", "public/feeds"]));

    let staging = read(DOCS_CONFIG, "staging").unwrap().unwrap();
    assert_eq!(staging.deploy_path, "/my-website-staging/___deploy");
    assert_eq!(staging.keep_releases, 1);
    assert_eq!(staging.host, "my-server");
}

#[test]
fn global_values_override_stage_values() {
    let text = "[global]\nhost = \"global-host\"\n[prod]\nhost = \"prod-host\"\ndeploy-path = \"/p\"\nrepo-url = \"r\"\nkeep-releases = 7\n";
    let c = read(text, "prod").unwrap().unwrap();
    assert_eq!(c.host, "global-host");
    assert_eq!(c.keep_releases, 7);
}

#[test]
fn optional_settings_have_defaults() {
    let text = "[prod]\nhost = \"h\"\ndeploy-path = \"/p\"\nrepo-url = \"r\"\n";
    let c = read(text, "prod").unwrap().unwrap();
    assert_eq!(c.keep_releases, 3);
    assert!(c.link_files.is_empty());
    assert!(c.link_dirs.is_empty());
    let text = "[prod]\nhost = \"h\"\ndeploy-path = \"/p\"\nrepo-url = \"r\"\nkeep-releases = \"five\"\nlinked-files = \"x\"\n";
    let c = read(text, "prod").unwrap().unwrap();
    assert_eq!(c.keep_releases, 3);
    assert!(c.link_files.is_empty());
}

#[test]
fn keep_releases_is_truncated_to_a_byte() {
    let text = "[prod]\nhost = \"h\"\ndeploy-path = \"/p\"\nrepo-url = \"r\"\nkeep-releases = 300\n";
    assert_eq!(read(text, "prod").unwrap().unwrap().keep_releases, 44);
    let text = "[prod]\nhost = \"h\"\ndeploy-path = \"/p\"\nrepo-url = \"r\"\nkeep-releases = -1\n";
    assert_eq!(read(text, "prod").unwrap().unwrap().keep_releases, -1);
}

#[test]
fn missing_stage_is_reported() {
    assert_eq!(read(DOCS_CONFIG, "production"), Some(Err(ConfigError::BadStage("production".to_string()))));
    let text = "production = { host = \"h\" }\n";
    assert_eq!(read(text, "production"), Some(Err(ConfigError::BadStage("production".to_string()))));
}

#[test]
fn required_fields_are_checked_in_order() {
    let text = "[prod]\ndeploy-path = \"/p\"\n";
    assert_eq!(read(text, "prod"), Some(Err(ConfigError::MissingField("host".to_string()))));
    let text = "[prod]\nhost = 5\n";
    assert_eq!(read(text, "prod"), Some(Err(ConfigError::BadType("host".to_string(), "string".to_string()))));
    let text = "[prod]\nhost = \"h\"\nrepo-url = \"r\"\n";
    assert_eq!(read(text, "prod"), Some(Err(ConfigError::MissingField("deploy-path".to_string()))));
    let text = "[prod]\nhost = \"h\"\ndeploy-path = \"/p\"\nrepo-url = []\n";
    assert_eq!(read(text, "prod"), Some(Err(ConfigError::BadType("repo-url".to_string(), "string".to_string()))));
}

#[test]
fn unreadable_files_are_reported() {
    assert_eq!(
        parse_config_file("cfg.toml", FileRead::NotFound, "prod"),
        Some(Err(ConfigError::NotFound("cfg.toml".to_string())))
    );
    assert_eq!(
        parse_config_file("cfg.toml", FileRead::OpenFailed, "prod"),
        Some(Err(ConfigError::NotFound("cfg.toml".to_string())))
    );
    assert_eq!(parse_config_file("cfg.toml", FileRead::ReadFailed, "prod"), Some(Err(ConfigError::IoError)));
}

#[test]
fn text_that_is_not_toml_gives_no_outcome() {
    assert_eq!(read("[prod\nhost = ", "prod"), None);
    let text = "[prod]\nhost = \"h\"\ndeploy-path = \"/p\"\nrepo-url = \"r\"\nlinked-dirs = ['a', 1]\n";
    assert_eq!(read(text, "prod"), None);
}

#[test]
fn config_error_messages() {
    assert_eq!(ConfigError::NotFound("c.toml".to_string()).message(), "Config file 'c.toml' was not found");
    assert_eq!(ConfigError::BadStage("prod".to_string()).message(), "Couldn't find stage 'prod' in config file");
    assert_eq!(
        ConfigError::BadType("host".to_string(), "string".to_string()).message(),
        "type mismatch for 'host'. expected string"
    );
    assert_eq!(
        ConfigError::MissingField("host".to_string()).message(),
        "Required field 'host' is missing from the config file"
    );
    assert_eq!(ConfigError::IoError.message(), "I/O error while reading the config file");
}
