use keyport::error::Error;
use keyport::paths::{directory, make_filepath, public_key_path};

#[test]
fn bare_name_joins_ssh_dir() {
    let r = make_filepath("id_test", false, Some(String::from("/home/u")));
    assert_eq!(r, Ok(String::from("/home/u/.ssh/id_test")));
}

#[test]
fn existing_parent_returns_path_unchanged() {
    let r = make_filepath("keys/id_test", true, Some(String::from("/home/u")));
    assert_eq!(r, Ok(String::from("keys/id_test")));
}

#[test]
fn existing_parent_needs_no_home() {
    let r = make_filepath("/tmp/id_test", true, None);
    assert_eq!(r, Ok(String::from("/tmp/id_test")));
}

#[test]
fn missing_home_is_configuration_error() {
    let r = make_filepath("id_test", false, None);
    assert_eq!(r, Err(Error::ConfigurationError));
}

#[test]
fn directory_joins_home() {
    let d = directory(Some(String::from("/home/u")));
    assert_eq!(d, Some(String::from("/home/u/.ssh")));
}

#[test]
fn directory_without_home_is_none() {
    assert_eq!(directory(None), None);
}

#[test]
fn public_path_appends_pub_to_bare_name() {
    assert_eq!(public_key_path("id_test"), String::from("id_test.pub"));
}

#[test]
fn public_path_replaces_extension() {
    assert_eq!(public_key_path("id_rsa.pem"), String::from("id_rsa.pub"));
}

#[test]
fn public_path_keeps_directory_components() {
    assert_eq!(
        public_key_path("/home/u/.ssh/id.ed25519"),
        String::from("/home/u/.ssh/id.pub")
    );
}

#[test]
fn public_path_ignores_dot_in_directory() {
    assert_eq!(public_key_path("a.b/c"), String::from("a.b/c.pub"));
}

#[test]
fn public_path_leading_dot_is_no_extension() {
    assert_eq!(public_key_path(".bashrc"), String::from(".bashrc.pub"));
}

#[test]
fn public_path_of_empty_name() {
    assert_eq!(public_key_path(""), String::from(".pub"));
}
