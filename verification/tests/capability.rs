use opendal::capability::{check_operation, Capability, Operation};
use opendal::error::ErrorKind;
use opendal::gdrive::GdriveBuilder;
use opendal::http_model::HttpClient;
use opendal::vercel_artifacts::VercelArtifactsBackend;

fn vercel() -> VercelArtifactsBackend {
    VercelArtifactsBackend::new("tok".to_string(), HttpClient::new().unwrap())
}

#[test]
fn vercel_backend_advertises_read_and_write_only() {
    let info = vercel().info();
    assert!(info.capability.read);
    assert!(info.capability.write);
    assert!(!info.capability.delete);
    assert!(!info.capability.list);
    assert!(!info.capability.rename);
    assert!(!info.capability.copy);
}

#[test]
fn advertised_operations_pass_the_capability_check() {
    let info = vercel().info();
    assert!(check_operation(&info, Operation::Read).is_ok());
    assert!(check_operation(&info, Operation::Write).is_ok());
}

#[test]
fn unadvertised_operation_fails_unsupported_without_any_request() {
    let info = vercel().info();
    for op in [Operation::Delete, Operation::List, Operation::Rename, Operation::Copy] {
        let err = check_operation(&info, op).err().expect("refusal expected");
        assert_eq!(err.kind(), ErrorKind::Unsupported);
        assert!(!err.is_temporary());
    }
}

#[test]
fn gdrive_backend_advertises_delete_too() {
    let mut builder = GdriveBuilder::default();
    builder.access_token("xxx");
    let info = builder.build().unwrap().info();
    assert!(info.capability.read && info.capability.write && info.capability.delete);
    assert!(!info.capability.list && !info.capability.rename && !info.capability.copy);
    assert!(check_operation(&info, Operation::Delete).is_ok());
    let err = check_operation(&info, Operation::Copy).err().unwrap();
    assert_eq!(err.kind(), ErrorKind::Unsupported);
    assert_eq!(err.operation, "copy");
}

#[test]
fn default_capability_advertises_nothing() {
    let cap = Capability::default();
    for op in [
        Operation::Read,
        Operation::Write,
        Operation::Delete,
        Operation::List,
        Operation::Rename,
        Operation::Copy,
    ] {
        assert!(!cap.allows(op));
    }
}
