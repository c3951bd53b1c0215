use opendal::error::ErrorKind;
use opendal::gdrive::GdriveBuilder;
use opendal::http_model::{HttpClient, HttpMethod, HttpRequest, HttpResponse};
use opendal::ops::{OpRead, OpWrite};
use opendal::vercel_artifacts::VercelArtifactsBackend;

/// A transport double: stores PUT bodies by URL, replies to GET from the
/// store, and counts every request it receives.
struct FakeRemote {
    store: Vec<(String, Vec<u8>)>,
    calls: usize,
}

impl FakeRemote {
    fn new() -> FakeRemote {
        FakeRemote { store: Vec::new(), calls: 0 }
    }

    fn send(&mut self, req: &HttpRequest) -> HttpResponse {
        self.calls += 1;
        match req.method {
            HttpMethod::Put => {
                self.store.retain(|(u, _)| *u != req.url);
                self.store.push((req.url.clone(), req.body.clone()));
                HttpResponse { status: 200, headers: Vec::new(), body: Vec::new() }
            }
            HttpMethod::Get => match self.store.iter().find(|(u, _)| *u == req.url) {
                Some((_, body)) => HttpResponse {
                    status: 200,
                    headers: vec![("content-length".to_string(), body.len().to_string())],
                    body: body.clone(),
                },
                None => HttpResponse { status: 404, headers: Vec::new(), body: Vec::new() },
            },
            HttpMethod::Delete => {
                self.store.retain(|(u, _)| *u != req.url);
                HttpResponse { status: 204, headers: Vec::new(), body: Vec::new() }
            }
        }
    }
}

fn vercel() -> VercelArtifactsBackend {
    VercelArtifactsBackend::new("tok".to_string(), HttpClient::new().unwrap())
}

#[test]
fn write_without_content_length_fails_before_any_request() {
    let remote = FakeRemote::new();
    let backend = vercel();
    let err = backend.write("abc", &OpWrite::new()).err().expect("must be refused");
    assert_eq!(err.kind(), ErrorKind::Unsupported);
    assert_eq!(remote.calls, 0);
}

#[test]
fn round_trip_returns_exactly_the_bytes_written() {
    for n in [0usize, 1, 16384] {
        let mut remote = FakeRemote::new();
        let backend = vercel();
        let bytes: Vec<u8> = (0..n).map(|i| (i % 251) as u8).collect();

        let (_, writer) = backend.write("hash1", &OpWrite::new().with_content_length(n as u64)).unwrap();
        let put = writer.write_request(bytes.clone());
        let ack = remote.send(&put);
        writer.write_response(ack.status, ack.body).expect("the write must close");

        let get = backend.read_request("hash1", &OpRead::new());
        let reply = remote.send(&get);
        let (rp, read_bytes) = backend.read_response("hash1", reply).expect("the read must succeed");
        assert_eq!(read_bytes, bytes);
        assert_eq!(rp.metadata.content_length as usize, n);
    }
}

#[test]
fn configured_backend_writes_reads_and_deletes() {
    let mut remote = FakeRemote::new();
    let mut builder = GdriveBuilder::from_map(vec![
        ("access_token".to_string(), "tok1".to_string()),
        ("root".to_string(), "/work".to_string()),
    ]);
    let backend = builder.build().expect("build must succeed");
    assert!(backend.info().capability.write);

    let body = b"who are you".to_vec();
    let (_, writer) = backend.write("abc.txt", &OpWrite::new().with_content_length(11)).unwrap();
    let put = writer.write_request(body.clone());
    assert_eq!(put.method, HttpMethod::Put);
    assert_eq!(put.url, "https://www.googleapis.com/drive/v3/files/work/abc.txt");
    assert_eq!(put.headers, vec![("authorization".to_string(), "Bearer tok1".to_string())]);
    assert_eq!(put.content_length, Some(11));
    let ack = remote.send(&put);
    assert_eq!(remote.calls, 1);
    writer.write_response(ack.status, ack.body).expect("the write must close");

    let reply = remote.send(&backend.read_request("abc.txt", &OpRead::new()));
    let (_, read_bytes) = backend.read_response("abc.txt", reply).expect("the read must succeed");
    assert_eq!(read_bytes, body);

    let ack = remote.send(&backend.delete_request("abc.txt"));
    backend.delete_response(ack.status, ack.body).expect("the delete must succeed");
    let reply = remote.send(&backend.read_request("abc.txt", &OpRead::new()));
    assert_eq!(backend.read_response("abc.txt", reply).err().unwrap().kind(), ErrorKind::NotFound);
}

#[test]
fn read_of_absent_object_is_not_found_after_exactly_one_attempt() {
    let mut remote = FakeRemote::new();
    let backend = vercel();
    let reply = remote.send(&backend.read_request("missing", &OpRead::new()));
    let err = backend.read_response("missing", reply).err().expect("the read must fail");
    assert_eq!(err.kind(), ErrorKind::NotFound);
    assert!(!err.is_temporary());
    assert_eq!(remote.calls, 1);
}

#[test]
fn failed_write_is_transient_and_backend_stays_usable() {
    let mut remote = FakeRemote::new();
    let backend = vercel();
    let (_, writer) = backend.write("hash2", &OpWrite::new().with_content_length(3)).unwrap();
    let put = writer.write_request(b"abc".to_vec());
    let err = writer
        .write_response(500, b"internal error".to_vec())
        .err()
        .expect("a 500 must fail the write");
    assert_eq!(err.kind(), ErrorKind::Unexpected);
    assert!(err.is_temporary());

    let ack = remote.send(&put);
    writer.write_response(ack.status, ack.body).expect("a later attempt may succeed");
    let reply = remote.send(&backend.read_request("hash2", &OpRead::new()));
    let (_, bytes) = backend.read_response("hash2", reply).unwrap();
    assert_eq!(bytes, b"abc".to_vec());
}

#[test]
fn reader_stream_of_a_successful_reply_is_the_reply_body() {
    let backend = vercel();
    let reply = HttpResponse {
        status: 206,
        headers: vec![
            ("content-length".to_string(), "3".to_string()),
            ("content-type".to_string(), "text/plain".to_string()),
            ("content-range".to_string(), "bytes 0-2/11".to_string()),
        ],
        body: b"who".to_vec(),
    };
    let (rp, bytes) = backend.read_response("abc", reply).unwrap();
    assert_eq!(bytes, b"who".to_vec());
    assert_eq!(rp.metadata.content_length, 3);
    assert_eq!(rp.metadata.content_type.as_deref(), Some("text/plain"));
    assert_eq!(rp.metadata.content_range.as_deref(), Some("bytes 0-2/11"));
}

#[test]
fn successful_reply_without_content_length_is_unexpected() {
    let backend = vercel();
    let reply = HttpResponse { status: 200, headers: Vec::new(), body: b"who".to_vec() };
    let err = backend.read_response("abc", reply).err().expect("the read must fail");
    assert_eq!(err.kind(), ErrorKind::Unexpected);
    assert!(!err.is_temporary());
}

#[test]
fn request_values_carry_the_bearer_credential() {
    let backend = vercel();
    let get = backend.read_request("hash3", &OpRead::new());
    assert_eq!(get.method, HttpMethod::Get);
    assert_eq!(get.url, "https://api.vercel.com/v8/artifacts/hash3");
    assert_eq!(get.headers, vec![("authorization".to_string(), "Bearer tok".to_string())]);
    assert_eq!(get.content_length, None);
    assert!(get.body.is_empty());

    let put = backend.vercel_artifacts_put("hash3", 2, b"ok".to_vec());
    assert_eq!(put.method, HttpMethod::Put);
    assert_eq!(put.url, "https://api.vercel.com/v8/artifacts/hash3");
    assert_eq!(put.content_length, Some(2));
    assert_eq!(put.body, b"ok".to_vec());
}
