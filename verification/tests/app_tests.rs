use ozy::app::App;
use ozy::conf::{ConfMap, ConfValue};
use ozy::installers::installer::Installer;

fn dict(entries: Vec<(&str, ConfValue)>) -> ConfValue {
    let mut m = ConfMap::new();
    for (k, v) in entries {
        m.insert(k.to_string(), v);
    }
    ConfValue::Dict(m)
}

fn s(v: &str) -> ConfValue {
    ConfValue::Str(v.to_string())
}

fn get_test_config() -> ConfMap {
    let mut apps = ConfMap::new();
    apps.insert(
        "single_binary_zip_app".to_string(),
        dict(vec![
            ("type", s("single_binary_zip")),
            ("version", s("1.10.1")),
            ("url", s("http://example.test/single_binary_zip_app.zip")),
            ("executable_path", s("bin/single_binary_zip_app")),
        ]),
    );
    apps.insert(
        "explicitly_relocatable_app".to_string(),
        dict(vec![
            ("type", s("single_file")),
            ("version", s("1.0")),
            ("url", s("http://example.test/a")),
            ("relocatable", ConfValue::Bool(true)),
        ]),
    );
    apps.insert(
        "explicitly_nonrelocatable_app".to_string(),
        dict(vec![
            ("type", s("single_file")),
            ("version", s("1.0")),
            ("url", s("http://example.test/b")),
            ("relocatable", ConfValue::Bool(false)),
        ]),
    );
    apps.insert(
        "unspecified_relocatability_app".to_string(),
        dict(vec![
            ("type", s("single_file")),
            ("version", s("1.0")),
            ("url", s("http://example.test/c")),
        ]),
    );
    apps.insert(
        "tarball_app".to_string(),
        dict(vec![
            ("type", s("tarball")),
            ("version", s("0.7.0")),
            ("url", s("http://example.test/tarball_app.tar.gz")),
        ]),
    );
    apps.insert(
        "shell_app".to_string(),
        dict(vec![
            ("type", s("shell_install")),
            ("version", s("4.11.0")),
            ("url", s("http://example.test/install.sh")),
        ]),
    );
    apps.insert(
        "pip_app".to_string(),
        dict(vec![
            ("type", s("pip")),
            ("version", s("1.20.4")),
            ("package", s("pip_package")),
        ]),
    );
    apps.insert(
        "conda_app".to_string(),
        dict(vec![
            ("type", s("conda")),
            ("version", s("45")),
            ("package", s("conda-package")),
        ]),
    );
    apps.insert(
        "file_app".to_string(),
        dict(vec![
            ("type", s("single_file")),
            ("version", s("6.6.0")),
            ("url", s("http://example.test/file_app")),
        ]),
    );
    let mut config = ConfMap::new();
    config.insert("apps".to_string(), ConfValue::Dict(apps));
    config
}

fn build(name: &str) -> Result<App, ozy::errors::OzyError> {
    let config = get_test_config();
    App::new(name, &config, "linux", "x86_64")
}

#[test]
fn general_constructor_test() {
    let app = build("single_binary_zip_app").expect("Failed to construct App");
    assert_eq!(app.name, "single_binary_zip_app");
    assert_eq!(app.version, "1.10.1");
    assert_eq!(app.relocatable, true);
    assert_eq!(app.executable_path, "bin/single_binary_zip_app");
}

#[test]
fn reloctable_detection_test() {
    let app = build("explicitly_relocatable_app").expect("Failed to construct App");
    assert_eq!(app.relocatable, true);

    let app = build("explicitly_nonrelocatable_app").expect("Failed to construct App");
    assert_eq!(app.relocatable, false);

    let app = build("unspecified_relocatability_app").expect("Failed to construct App");
    assert_eq!(app.relocatable, true);
}

#[test]
fn single_binary_zip_test() {
    let app = build("single_binary_zip_app").expect("Failed to construct App");
    assert_eq!(
        app.installer.describe(),
        "single binary zip installer for single_binary_zip_app v.1.10.1"
    );
}

#[test]
fn tarball_test() {
    let app = build("tarball_app").expect("Failed to construct App");
    assert_eq!(app.installer.describe(), "tarball installer for tarball_app v.0.7.0");
}

#[test]
fn shell_test() {
    let app = build("shell_app").expect("Failed to construct App");
    assert_eq!(app.installer.describe(), "shell installer for shell_app v.4.11.0");
}

#[test]
fn pip_test() {
    let app = build("pip_app").expect("Failed to construct App");
    assert_eq!(app.installer.describe(), "pip installer for pip_package=1.20.4");
}

#[test]
fn conda_test() {
    let app = build("conda_app").expect("Failed to construct App");
    assert_eq!(app.installer.describe(), "conda installer for conda-package=45");
}

#[test]
fn file_test() {
    let app = build("file_app").expect("Failed to construct App");
    assert_eq!(app.installer.describe(), "file installer for file_app v.6.6.0");
}

#[test]
fn unknown_app_is_not_found() {
    let err = build("no_such_app").unwrap_err();
    assert!(matches!(err, ozy::errors::OzyError::NotFoundError(_)));
}

#[test]
fn missing_version_is_schema_error() {
    let mut apps = ConfMap::new();
    apps.insert(
        "broken".to_string(),
        dict(vec![("type", s("single_file")), ("url", s("http://example.test/x"))]),
    );
    let mut config = ConfMap::new();
    config.insert("apps".to_string(), ConfValue::Dict(apps));
    let err = App::new("broken", &config, "linux", "x86_64").unwrap_err();
    assert!(matches!(err, ozy::errors::OzyError::SchemaError(_)));
}

#[test]
fn unknown_type_is_schema_error() {
    let mut apps = ConfMap::new();
    apps.insert(
        "broken".to_string(),
        dict(vec![("type", s("msi")), ("version", s("1")), ("url", s("http://example.test/x"))]),
    );
    let mut config = ConfMap::new();
    config.insert("apps".to_string(), ConfValue::Dict(apps));
    let err = App::new("broken", &config, "linux", "x86_64").unwrap_err();
    assert!(matches!(err, ozy::errors::OzyError::SchemaError(_)));
}

#[test]
fn missing_url_is_schema_error() {
    let mut apps = ConfMap::new();
    apps.insert(
        "broken".to_string(),
        dict(vec![("type", s("tarball")), ("version", s("1"))]),
    );
    let mut config = ConfMap::new();
    config.insert("apps".to_string(), ConfValue::Dict(apps));
    let err = App::new("broken", &config, "linux", "x86_64").unwrap_err();
    assert!(matches!(err, ozy::errors::OzyError::SchemaError(_)));
}
