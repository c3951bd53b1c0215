//! The artifact-store adapter.
//!
//! It speaks to a remote artifact cache whose objects are addressed by a
//! hash: reading is one GET and writing is one PUT of
//! `https://api.vercel.com/v8/artifacts/{hash}`, both authorized with a
//! bearer credential. The adapter advertises read and write only.

use vstd::prelude::*;
use crate::capability::AccessorInfo;
use crate::capability::Capability;
use crate::capability::Scheme;
use crate::error::Error;
use crate::error::ErrorKind;
use crate::error::kind_of_status;
use crate::error::parse_error;
use crate::error::status_is_transient;
use crate::http_model::HttpMethod;
use crate::http_model::HttpRequest;
use crate::http_model::HttpClient;
use crate::http_model::HttpResponse;
use crate::http_model::bearer;
use crate::http_model::format_bearer;
use crate::kv::kv_lookup;
use crate::ops::OpRead;
use crate::ops::OpWrite;
use crate::ops::RpRead;
use crate::ops::RpWrite;
use crate::ops::content_length_of;
use crate::ops::parse_read_reply;
use crate::ops::read_reply_ok;

verus! {

/// What this adapter advertises: read and write, nothing else.
pub open spec fn vercel_artifacts_capability() -> Capability {
    Capability { read: true, write: true, delete: false, list: false, rename: false, copy: false }
}

/// The URL addressing one artifact.
pub open spec fn vercel_artifact_url(hash: Seq<char>) -> Seq<char> {
    "https://api.vercel.com/v8/artifacts/"@ + hash
}

/// The request addressing the artifact `hash`, authorized with a bearer
/// credential.
fn artifact_request(
    access_token: &str,
    hash: &str,
    method: HttpMethod,
    content_length: Option<u64>,
    body: Vec<u8>,
) -> (r: HttpRequest)
    ensures
        r.method == method,
        r.url@ == vercel_artifact_url(hash@),
        r.headers@.len() == 1,
        r.headers@[0].0@ == "authorization"@,
        r.headers@[0].1@ == bearer(access_token@),
        r.content_length == content_length,
        r.body == body,
{
    let mut url = String::from_str("https://api.vercel.com/v8/artifacts/");
    url.append(hash);
    let mut headers: Vec<(String, String)> = Vec::new();
    headers.push(("authorization".to_owned(), format_bearer(access_token)));
    HttpRequest { method, url, headers, content_length, body }
}

/// A backend instance for the artifact store: immutable after
/// construction, safe to share across concurrent operations.
pub struct VercelArtifactsBackend {
    pub access_token: String,
    pub client: HttpClient,
}

impl VercelArtifactsBackend {
    pub fn new(access_token: String, client: HttpClient) -> (r: VercelArtifactsBackend)
        ensures
            r.access_token == access_token,
    {
        VercelArtifactsBackend { access_token, client }
    }

    /// The fixed capability descriptor of this backend. A pure read.
    pub fn info(&self) -> (r: AccessorInfo)
        ensures
            r.scheme == Scheme::VercelArtifacts,
            r.capability == vercel_artifacts_capability(),
    {
        AccessorInfo::new(
            Scheme::VercelArtifacts,
            Capability {
                read: true,
                write: true,
                delete: false,
                list: false,
                rename: false,
                copy: false,
            },
        )
    }

    /// The GET request addressing the artifact `hash`, authorized with the
    /// backend's bearer credential.
    fn vercel_artifacts_get(&self, hash: &str) -> (r: HttpRequest)
        ensures
            r.method == HttpMethod::Get,
            r.url@ == vercel_artifact_url(hash@),
            r.headers@.len() == 1,
            r.headers@[0].0@ == "authorization"@,
            r.headers@[0].1@ == bearer(self.access_token@),
            r.content_length is None,
            r.body@ == Seq::<u8>::empty(),
    {
        artifact_request(self.access_token.as_str(), hash, HttpMethod::Get, None, Vec::new())
    }

    /// The PUT request delivering `body` to the artifact `hash`, with the
    /// declared size as the integrity check the remote is expected to
    /// enforce.
    pub fn vercel_artifacts_put(&self, hash: &str, size: u64, body: Vec<u8>) -> (r: HttpRequest)
        ensures
            r.method == HttpMethod::Put,
            r.url@ == vercel_artifact_url(hash@),
            r.headers@.len() == 1,
            r.headers@[0].0@ == "authorization"@,
            r.headers@[0].1@ == bearer(self.access_token@),
            r.content_length == Some(size),
            r.body == body,
    {
        artifact_request(self.access_token.as_str(), hash, HttpMethod::Put, Some(size), body)
    }

    /// Begin a read: the request the transport must send. One remote call
    /// per operation; retrying is an external layer's concern.
    pub fn read_request(&self, path: &str, _args: &OpRead) -> (r: HttpRequest)
        ensures
            r.method == HttpMethod::Get,
            r.url@ == vercel_artifact_url(path@),
            r.headers@.len() == 1,
            r.headers@[0].0@ == "authorization"@,
            r.headers@[0].1@ == bearer(self.access_token@),
            r.content_length is None,
            r.body@ == Seq::<u8>::empty(),
    {
        self.vercel_artifacts_get(path)
    }

    /// Finish a read: interpret the remote reply. A successful status
    /// yields the parsed metadata and the body bytes untouched; any other
    /// status is normalized onto the error taxonomy.
    pub fn read_response(&self, path: &str, resp: HttpResponse) -> (r: Result<
        (RpRead, Vec<u8>),
        Error,
    >)
        ensures
            r is Ok <==> read_reply_ok(resp.status, resp.headers@),
            r matches Ok(p) ==> Some(p.0.metadata.content_length as int) == content_length_of(
                resp.headers@,
            ) && p.0.metadata.content_type == kv_lookup(resp.headers@, "content-type"@)
                && p.0.metadata.content_range == kv_lookup(resp.headers@, "content-range"@)
                && p.1 == resp.body,
            resp.status != 200 && resp.status != 206 ==> (r matches Err(e) && e.kind
                == kind_of_status(resp.status) && e.temporary == status_is_transient(resp.status)),
            (resp.status == 200 || resp.status == 206) && content_length_of(
                resp.headers@,
            ) is None ==> (r matches Err(e) && e.kind == ErrorKind::Unexpected && !e.temporary),
    {
        parse_read_reply(Scheme::VercelArtifacts, path, resp)
    }

    /// Begin a write. A write without a declared content length is not
    /// supported by this backend — it fails with `Unsupported` here, before
    /// any request value is constructed; this is deliberate, not an
    /// oversight. Otherwise the returned writer delivers the bytes.
    pub fn write(&self, path: &str, args: &OpWrite) -> (r: Result<
        (RpWrite, VercelArtifactsWriter),
        Error,
    >)
        ensures
            r is Ok <==> args.content_length is Some,
            r matches Ok(p) ==> p.1.access_token@ == self.access_token@ && p.1.path@ == path@
                && p.1.content_length == args.content_length.unwrap(),
            r matches Err(e) ==> e.kind == ErrorKind::Unsupported && !e.temporary
                && e.operation@ == "write"@,
    {
        if args.content_length.is_none() {
            return Err(
                Error::new(
                    ErrorKind::Unsupported,
                    "write without content length is not supported",
                ).with_operation("write"),
            );
        }
        Ok((RpWrite::new(), VercelArtifactsWriter::new(self, args, path)))
    }
}

/// The writer of one write operation: it holds the credential, the path
/// and the declared length, collects the bytes, and on close delivers them
/// with one PUT.
pub struct VercelArtifactsWriter {
    pub access_token: String,
    pub path: String,
    pub content_length: u64,
}

impl VercelArtifactsWriter {
    pub fn new(backend: &VercelArtifactsBackend, args: &OpWrite, path: &str) -> (r:
        VercelArtifactsWriter)
        requires
            args.content_length is Some,
        ensures
            r.access_token@ == backend.access_token@,
            r.path@ == path@,
            r.content_length == args.content_length.unwrap(),
    {
        let size = match args.content_length {
            Some(v) => v,
            None => 0,
        };
        VercelArtifactsWriter {
            access_token: backend.access_token.clone(),
            path: path.to_owned(),
            content_length: size,
        }
    }

    /// Close the writer over the collected bytes: the PUT request that
    /// delivers them, with the declared length as the integrity check.
    pub fn write_request(&self, body: Vec<u8>) -> (r: HttpRequest)
        ensures
            r.method == HttpMethod::Put,
            r.url@ == vercel_artifact_url(self.path@),
            r.headers@.len() == 1,
            r.headers@[0].0@ == "authorization"@,
            r.headers@[0].1@ == bearer(self.access_token@),
            r.content_length == Some(self.content_length),
            r.body == body,
    {
        artifact_request(
            self.access_token.as_str(),
            self.path.as_str(),
            HttpMethod::Put,
            Some(self.content_length),
            body,
        )
    }

    /// Interpret the remote acknowledgment of the delivery: any successful
    /// status closes the write; any other is normalized onto the taxonomy.
    pub fn write_response(&self, status: u16, body: Vec<u8>) -> (r: Result<RpWrite, Error>)
        ensures
            r is Ok <==> 200 <= status < 300,
            r matches Err(e) ==> e.kind == kind_of_status(status) && e.temporary
                == status_is_transient(status) && e.operation@ == "write"@,
    {
        if 200 <= status && status < 300 {
            Ok(RpWrite::new())
        } else {
            Err(parse_error("write", "vercel_artifacts", status, body))
        }
    }
}

} // verus!
