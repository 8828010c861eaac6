use devspace::config::Config;
use devspace::config::ValidationError;
use devspace::config::get_sample_config;

fn cfg(name: &str, image: &str) -> Config {
    Config {
        shell: None,
        init: None,
        image: image.to_string(),
        name: name.to_string(),
        privileged: false,
        gui: false,
    }
}

#[test]
fn validate_accepts_a_plain_descriptor() {
    assert!(cfg("my-project_1", "alpine:latest").validate().is_ok());
}

#[test]
fn validate_rejects_an_empty_name() {
    let r = cfg("", "alpine").validate();
    assert_eq!(r, Err(ValidationError::EmptyName));
    assert_eq!(
        r.unwrap_err().message(),
        "Container name cannot be empty"
    );
}

#[test]
fn validate_rejects_a_name_with_a_space() {
    let r = cfg("my project", "alpine").validate();
    assert_eq!(r, Err(ValidationError::InvalidNameCharacter));
    assert_eq!(
        r.unwrap_err().message(),
        "Container name must contain only alphanumeric characters, hyphens, or underscores"
    );
}

#[test]
fn validate_rejects_a_name_with_a_non_ascii_letter() {
    let r = cfg("caf\u{e9}", "alpine").validate();
    assert_eq!(r, Err(ValidationError::InvalidNameCharacter));
}

#[test]
fn validate_rejects_an_empty_image() {
    let r = cfg("proj", "").validate();
    assert_eq!(r, Err(ValidationError::EmptyImage));
    assert_eq!(r.unwrap_err().message(), "Image cannot be empty");
}

#[test]
fn validate_reports_the_name_before_the_image() {
    let r = cfg("", "").validate();
    assert_eq!(r, Err(ValidationError::EmptyName));
}

#[test]
fn sample_config_names_a_project_and_an_image() {
    let sample = get_sample_config();
    assert!(sample.contains("name = \"myproject\""));
    assert!(sample.contains("image = \"docker.io/library/alpine:latest\""));
    assert!(sample.contains("init = \"\"\""));
}
