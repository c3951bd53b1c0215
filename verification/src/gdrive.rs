//! The cloud-drive adapter and its builder.
//!
//! [`GdriveBuilder`] accumulates configuration — credential, root, an
//! optionally injected transport handle — and is consumed by one `build`
//! that validates it and produces an immutable [`GdriveBackend`]. Build is
//! all-or-nothing: a missing credential is a `ConfigInvalid` error and no
//! backend is produced. The backend scopes every operation under its
//! normalized root and advertises read, write and delete.

use vstd::prelude::*;
use crate::capability::AccessorInfo;
use crate::capability::Capability;
use crate::capability::Scheme;
use crate::error::Error;
use crate::error::ErrorKind;
use crate::error::kind_of_status;
use crate::error::parse_error;
use crate::error::status_is_transient;
use crate::http_model::HttpClient;
use crate::http_model::HttpMethod;
use crate::http_model::HttpRequest;
use crate::http_model::HttpResponse;
use crate::http_model::bearer;
use crate::http_model::format_bearer;
use crate::kv::kv_get;
use crate::kv::kv_lookup;
use crate::ops::OpRead;
use crate::ops::OpWrite;
use crate::ops::RpDelete;
use crate::ops::RpRead;
use crate::ops::RpWrite;
use crate::ops::content_length_of;
use crate::ops::parse_read_reply;
use crate::ops::read_reply_ok;
use crate::path::normalize_root;
use crate::path::normalize_root_spec;

verus! {

/// The text of an optional configuration field.
pub open spec fn opt_text(o: Option<String>) -> Option<Seq<char>> {
    match o {
        Some(s) => Some(s@),
        None => None,
    }
}

/// What this adapter advertises: read, write and delete.
pub open spec fn gdrive_capability() -> Capability {
    Capability { read: true, write: true, delete: true, list: false, rename: false, copy: false }
}

/// The URL addressing one object: the remote file API, the backend's
/// normalized root, then the path within it.
pub open spec fn gdrive_url(root: Seq<char>, path: Seq<char>) -> Seq<char> {
    "https://www.googleapis.com/drive/v3/files"@ + root + path
}

/// The request addressing `path` under `root`, authorized with a bearer
/// credential.
fn object_request(
    root: &str,
    access_token: &str,
    method: HttpMethod,
    path: &str,
    content_length: Option<u64>,
    body: Vec<u8>,
) -> (r: HttpRequest)
    ensures
        r.method == method,
        r.url@ == gdrive_url(root@, path@),
        r.headers@.len() == 1,
        r.headers@[0].0@ == "authorization"@,
        r.headers@[0].1@ == bearer(access_token@),
        r.content_length == content_length,
        r.body == body,
{
    let mut url = String::from_str("https://www.googleapis.com/drive/v3/files");
    url.append(root);
    url.append(path);
    let mut headers: Vec<(String, String)> = Vec::new();
    headers.push(("authorization".to_owned(), format_bearer(access_token)));
    HttpRequest { method, url, headers, content_length, body }
}

/// Accumulates configuration for a cloud-drive backend. Setters perform no
/// validation; `build` validates everything and consumes the fields, so a
/// second build on the same builder observes empty fields and fails
/// rather than silently reusing stale configuration.
pub struct GdriveBuilder {
    pub access_token: Option<String>,
    pub root: Option<String>,
    pub http_client: Option<HttpClient>,
}

impl Default for GdriveBuilder {
    /// An empty builder: no credential, no root, no injected transport.
    fn default() -> (r: GdriveBuilder)
        ensures
            r.access_token is None,
            r.root is None,
            r.http_client is None,
    {
        GdriveBuilder { access_token: None, root: None, http_client: None }
    }
}

impl GdriveBuilder {
    /// Set the access token. Default: none, which makes `build` fail.
    pub fn access_token(&mut self, access_token: &str) -> (ret: &mut GdriveBuilder)
        ensures
            ret.access_token matches Some(t) && t@ == access_token@,
            ret.root == old(self).root,
            ret.http_client == old(self).http_client,
            *final(self) == *final(ret),
    {
        self.access_token = Some(access_token.to_owned());
        self
    }

    /// Set the working root of the backend.
    pub fn root(&mut self, root: &str) -> (ret: &mut GdriveBuilder)
        ensures
            ret.root matches Some(t) && t@ == root@,
            ret.access_token == old(self).access_token,
            ret.http_client == old(self).http_client,
            *final(self) == *final(ret),
    {
        self.root = Some(root.to_owned());
        self
    }

    /// Inject the transport handle this backend should share. When none is
    /// injected, `build` constructs a default one.
    pub fn http_client(&mut self, http_client: HttpClient) -> (ret: &mut GdriveBuilder)
        ensures
            ret.http_client is Some,
            ret.access_token == old(self).access_token,
            ret.root == old(self).root,
            *final(self) == *final(ret),
    {
        self.http_client = Some(http_client);
        self
    }

    /// A builder in the state an equivalent sequence of setter calls would
    /// leave it in: `root` and `access_token` are taken from the map when
    /// present, every other key is ignored.
    pub fn from_map(map: Vec<(String, String)>) -> (r: GdriveBuilder)
        ensures
            opt_text(r.root) == opt_text(kv_lookup(map@, "root"@)),
            opt_text(r.access_token) == opt_text(kv_lookup(map@, "access_token"@)),
            r.http_client is None,
    {
        let mut builder = GdriveBuilder::default();
        if let Some(v) = kv_get(&map, "root") {
            builder.root(v.as_str());
        }
        if let Some(v) = kv_get(&map, "access_token") {
            builder.access_token(v.as_str());
        }
        builder
    }

    /// Validate the configuration and produce the one backend instance, or
    /// fail with `ConfigInvalid` and produce nothing. In order: the root
    /// is normalized (an absent root means the root scope), the transport
    /// is resolved — the injected handle when present, a default one
    /// otherwise — and the credential is required. The fields are taken,
    /// so a second build observes an empty builder.
    pub fn build(&mut self) -> (r: Result<GdriveBackend, Error>)
        ensures
            r is Ok <==> old(self).access_token is Some,
            r matches Ok(b) ==> b.access_token == old(self).access_token.unwrap() && b.root@
                == normalize_root_spec(
                match old(self).root {
                    Some(rt) => rt@,
                    None => Seq::<char>::empty(),
                },
            ),
            r matches Err(e) ==> e.kind == ErrorKind::ConfigInvalid && e.message@
                == "access_token not set"@,
            final(self).access_token is None,
            final(self).root is None,
            final(self).http_client is None,
    {
        let root_input = match self.root.take() {
            Some(v) => v,
            None => String::new(),
        };
        let root = normalize_root(root_input.as_str());

        let client = match self.http_client.take() {
            Some(client) => client,
            None => match HttpClient::new() {
                Ok(client) => client,
                Err(err) => {
                    return Err(
                        err.with_operation("Builder::build").with_context(
                            "service",
                            Scheme::Gdrive.into_static(),
                        ),
                    );
                },
            },
        };

        match self.access_token.take() {
            Some(access_token) => Ok(GdriveBackend::new(root, access_token, client)),
            None => Err(Error::new(ErrorKind::ConfigInvalid, "access_token not set")),
        }
    }
}

/// A cloud-drive backend instance: immutable after construction, safe to
/// share across concurrent operations.
pub struct GdriveBackend {
    pub root: String,
    pub access_token: String,
    pub client: HttpClient,
}

impl GdriveBackend {
    pub fn new(root: String, access_token: String, client: HttpClient) -> (r: GdriveBackend)
        ensures
            r.root == root,
            r.access_token == access_token,
    {
        GdriveBackend { root, access_token, client }
    }

    /// The normalized root every operation of this instance is scoped
    /// under.
    pub fn root(&self) -> (r: &String)
        ensures
            r == &self.root,
    {
        &self.root
    }

    /// The fixed capability descriptor of this backend. A pure read.
    pub fn info(&self) -> (r: AccessorInfo)
        ensures
            r.scheme == Scheme::Gdrive,
            r.capability == gdrive_capability(),
    {
        AccessorInfo::new(
            Scheme::Gdrive,
            Capability {
                read: true,
                write: true,
                delete: true,
                list: false,
                rename: false,
                copy: false,
            },
        )
    }

    /// Begin a read: the GET request the transport must send. One remote
    /// call per operation; retrying is an external layer's concern.
    pub fn read_request(&self, path: &str, _args: &OpRead) -> (r: HttpRequest)
        ensures
            r.method == HttpMethod::Get,
            r.url@ == gdrive_url(self.root@, path@),
            r.headers@.len() == 1,
            r.headers@[0].0@ == "authorization"@,
            r.headers@[0].1@ == bearer(self.access_token@),
            r.content_length is None,
            r.body@ == Seq::<u8>::empty(),
    {
        object_request(
            self.root.as_str(),
            self.access_token.as_str(),
            HttpMethod::Get,
            path,
            None,
            Vec::new(),
        )
    }

    /// Finish a read: interpret the remote reply. A successful status
    /// yields the parsed metadata and the body bytes untouched; any other
    /// status is normalized onto the error taxonomy.
    pub fn read_response(&self, path: &str, resp: HttpResponse) -> (r: Result<
        (RpRead, Vec<u8>),
        Error,
    >)
        ensures
            r is Ok <==> read_reply_ok(resp.status, resp.headers@),
            r matches Ok(p) ==> Some(p.0.metadata.content_length as int) == content_length_of(
                resp.headers@,
            ) && p.0.metadata.content_type == kv_lookup(resp.headers@, "content-type"@)
                && p.0.metadata.content_range == kv_lookup(resp.headers@, "content-range"@)
                && p.1 == resp.body,
            resp.status != 200 && resp.status != 206 ==> (r matches Err(e) && e.kind
                == kind_of_status(resp.status) && e.temporary == status_is_transient(resp.status)),
            (resp.status == 200 || resp.status == 206) && content_length_of(
                resp.headers@,
            ) is None ==> (r matches Err(e) && e.kind == ErrorKind::Unexpected && !e.temporary),
    {
        parse_read_reply(Scheme::Gdrive, path, resp)
    }

    /// Begin a write. A write without a declared content length is not
    /// supported by this backend — it fails with `Unsupported` here,
    /// before any request value is constructed. Otherwise the returned
    /// writer delivers the bytes.
    pub fn write(&self, path: &str, args: &OpWrite) -> (r: Result<(RpWrite, GdriveWriter), Error>)
        ensures
            r is Ok <==> args.content_length is Some,
            r matches Ok(p) ==> p.1.root@ == self.root@ && p.1.access_token@
                == self.access_token@ && p.1.path@ == path@ && p.1.content_length
                == args.content_length.unwrap(),
            r matches Err(e) ==> e.kind == ErrorKind::Unsupported && !e.temporary
                && e.operation@ == "write"@,
    {
        let size = match args.content_length {
            Some(v) => v,
            None => {
                return Err(
                    Error::new(
                        ErrorKind::Unsupported,
                        "write without content length is not supported",
                    ).with_operation("write"),
                );
            },
        };
        Ok(
            (
                RpWrite::new(),
                GdriveWriter {
                    root: self.root.clone(),
                    access_token: self.access_token.clone(),
                    path: path.to_owned(),
                    content_length: size,
                },
            ),
        )
    }

    /// Begin a delete: the DELETE request the transport must send.
    pub fn delete_request(&self, path: &str) -> (r: HttpRequest)
        ensures
            r.method == HttpMethod::Delete,
            r.url@ == gdrive_url(self.root@, path@),
            r.headers@.len() == 1,
            r.headers@[0].0@ == "authorization"@,
            r.headers@[0].1@ == bearer(self.access_token@),
            r.content_length is None,
            r.body@ == Seq::<u8>::empty(),
    {
        object_request(
            self.root.as_str(),
            self.access_token.as_str(),
            HttpMethod::Delete,
            path,
            None,
            Vec::new(),
        )
    }

    /// Finish a delete. This adapter's documented policy for deleting an
    /// absent object is idempotent success: a 404 reply closes the delete
    /// like any successful status, deterministically on every repeat. Any
    /// other failure status is normalized onto the taxonomy.
    pub fn delete_response(&self, status: u16, body: Vec<u8>) -> (r: Result<RpDelete, Error>)
        ensures
            r is Ok <==> (200 <= status < 300 || status == 404),
            r matches Err(e) ==> e.kind == kind_of_status(status) && e.temporary
                == status_is_transient(status) && e.operation@ == "delete"@,
    {
        if (200 <= status && status < 300) || status == 404 {
            Ok(RpDelete::new())
        } else {
            Err(parse_error("delete", "gdrive", status, body))
        }
    }
}

/// The writer of one write operation: it holds the credential, the
/// addressed object and the declared length, collects the bytes, and on
/// close delivers them with one PUT.
pub struct GdriveWriter {
    pub root: String,
    pub access_token: String,
    pub path: String,
    pub content_length: u64,
}

impl GdriveWriter {
    /// Close the writer over the collected bytes: the PUT request that
    /// delivers them, with the declared length as the integrity check.
    pub fn write_request(&self, body: Vec<u8>) -> (r: HttpRequest)
        ensures
            r.method == HttpMethod::Put,
            r.url@ == gdrive_url(self.root@, self.path@),
            r.headers@.len() == 1,
            r.headers@[0].0@ == "authorization"@,
            r.headers@[0].1@ == bearer(self.access_token@),
            r.content_length == Some(self.content_length),
            r.body == body,
    {
        object_request(
            self.root.as_str(),
            self.access_token.as_str(),
            HttpMethod::Put,
            self.path.as_str(),
            Some(self.content_length),
            body,
        )
    }

    /// Interpret the remote acknowledgment of the delivery: any successful
    /// status closes the write; any other is normalized onto the taxonomy.
    pub fn write_response(&self, status: u16, body: Vec<u8>) -> (r: Result<RpWrite, Error>)
        ensures
            r is Ok <==> 200 <= status < 300,
            r matches Err(e) ==> e.kind == kind_of_status(status) && e.temporary
                == status_is_transient(status) && e.operation@ == "write"@,
    {
        if 200 <= status && status < 300 {
            Ok(RpWrite::new())
        } else {
            Err(parse_error("write", "gdrive", status, body))
        }
    }
}

/// A configuration map without a credential key never yields a credential,
/// so — by the contracts of `from_map` and `build` — building from such a
/// map fails with `ConfigInvalid` and produces no backend.
pub proof fn lemma_build_without_credential_fails(map: Seq<(String, String)>)
    requires
        !crate::kv::kv_has_key(map, "access_token"@),
    ensures
        kv_lookup(map, "access_token"@) is None,
{
    crate::kv::lemma_kv_lookup_none(map, "access_token"@);
}

} // verus!
