use opendal::error::ErrorKind;
use opendal::gdrive::GdriveBuilder;
use opendal::http_model::HttpClient;

fn map(pairs: &[(&str, &str)]) -> Vec<(String, String)> {
    pairs.iter().map(|(k, v)| (k.to_string(), v.to_string())).collect()
}

#[test]
fn build_without_credential_fails_config_invalid() {
    let mut builder = GdriveBuilder::from_map(map(&[("root", "/data")]));
    let err = builder.build().err().expect("no backend may be produced");
    assert_eq!(err.kind(), ErrorKind::ConfigInvalid);
    assert_eq!(err.message, "access_token not set");
}

#[test]
fn build_from_empty_map_fails_config_invalid() {
    let mut builder = GdriveBuilder::from_map(Vec::new());
    assert_eq!(builder.build().err().unwrap().kind(), ErrorKind::ConfigInvalid);
}

#[test]
fn build_with_credential_succeeds() {
    let mut builder = GdriveBuilder::from_map(map(&[("access_token", "tok1"), ("root", "/work")]));
    let backend = builder.build().expect("build must succeed");
    assert_eq!(backend.access_token, "tok1");
    assert_eq!(backend.root(), "/work/");
}

#[test]
fn unknown_configuration_keys_are_ignored() {
    let mut builder = GdriveBuilder::from_map(map(&[
        ("access_token", "tok1"),
        ("color", "green"),
    ]));
    assert!(builder.build().is_ok());
}

#[test]
fn setters_chain_and_build_normalizes_the_root() {
    let mut builder = GdriveBuilder::default();
    builder.access_token("xxx").root("path/to/root");
    let backend = builder.build().unwrap();
    assert_eq!(backend.root(), "/path/to/root/");
}

#[test]
fn absent_root_defaults_to_root_scope() {
    let mut builder = GdriveBuilder::default();
    builder.access_token("xxx");
    assert_eq!(builder.build().unwrap().root(), "/");
}

#[test]
fn injected_transport_handle_is_used() {
    let client = HttpClient::new().unwrap();
    let mut builder = GdriveBuilder::default();
    builder.access_token("xxx").http_client(client);
    assert!(builder.build().is_ok());
}

#[test]
fn a_second_build_observes_taken_fields_and_fails() {
    let mut builder = GdriveBuilder::default();
    builder.access_token("xxx").root("/data");
    assert!(builder.build().is_ok());
    let err = builder.build().err().expect("a built builder must not build again");
    assert_eq!(err.kind(), ErrorKind::ConfigInvalid);
}
