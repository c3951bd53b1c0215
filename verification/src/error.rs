//! The normalized error taxonomy.
//!
//! Every failure a caller can observe is an [`Error`]: a kind from a closed
//! set, a human-readable message, the operation that failed, a list of
//! diagnostic context pairs, a transient flag, and optionally the message of
//! a wrapped lower-level cause. Remote HTTP failures are folded onto the
//! taxonomy by [`parse_error`].

use vstd::prelude::*;

verus! {

/// The closed set of error kinds a caller can pattern-match on.
#[derive(Clone, Copy, Debug, PartialEq, Eq, Structural)]
pub enum ErrorKind {
    /// Build-time misconfiguration: missing credential, unusable transport.
    ConfigInvalid,
    /// The operation, or this combination of options, is not supported here.
    Unsupported,
    /// The addressed object is absent.
    NotFound,
    /// The remote service rejected the credential or the authorization.
    PermissionDenied,
    /// A conditional request did not match.
    ConditionNotMatch,
    /// Anything else; carries a transient flag for external retry layers.
    Unexpected,
}

/// The kind a remote HTTP status is normalized onto. A `2xx` status reaches
/// the normalizer only when its semantics were unexpected, so it maps to
/// `Unexpected` like every unclassified status.
pub open spec fn kind_of_status(status: u16) -> ErrorKind {
    if status == 401 || status == 403 {
        ErrorKind::PermissionDenied
    } else if status == 404 {
        ErrorKind::NotFound
    } else if status == 409 || status == 412 {
        ErrorKind::ConditionNotMatch
    } else {
        ErrorKind::Unexpected
    }
}

/// Statuses whose failures an external retry layer may retry.
pub open spec fn status_is_transient(status: u16) -> bool {
    status == 429 || (500 <= status && status <= 599)
}

/// A normalized failure value. Immutable once constructed; the `with_*`
/// methods consume and return it so call sites can chain enrichment.
#[derive(Debug)]
pub struct Error {
    /// The kind from the closed taxonomy. Never changed by enrichment.
    pub kind: ErrorKind,
    /// Human-readable diagnostic message; empty when nothing useful is known.
    pub message: String,
    /// The operation that failed, e.g. `Builder::build`; empty until set.
    pub operation: String,
    /// Diagnostic key/value pairs, e.g. which service, which path.
    pub context: Vec<(String, String)>,
    /// True when an external retry layer may reasonably retry the operation.
    pub temporary: bool,
    /// The message of a wrapped lower-level cause, if one exists.
    pub source: Option<String>,
}

impl Error {
    /// A fresh error of the given kind: no operation, no context, not
    /// transient, no cause.
    pub fn new(kind: ErrorKind, message: &str) -> (r: Error)
        ensures
            r.kind == kind,
            r.message@ == message@,
            r.operation@ == Seq::<char>::empty(),
            r.context@ == Seq::<(String, String)>::empty(),
            !r.temporary,
            r.source is None,
    {
        Error {
            kind,
            message: message.to_owned(),
            operation: String::new(),
            context: Vec::new(),
            temporary: false,
            source: None,
        }
    }

    /// The kind, for pattern matching.
    pub fn kind(&self) -> (r: ErrorKind)
        ensures
            r == self.kind,
    {
        self.kind
    }

    /// True when an external retry layer may act on this error.
    pub fn is_temporary(&self) -> (r: bool)
        ensures
            r == self.temporary,
    {
        self.temporary
    }

    /// Record the operation that failed. An operation recorded earlier is
    /// kept as a `called` context pair, so enrichment never loses history.
    pub fn with_operation(self, operation: &str) -> (r: Error)
        ensures
            r.kind == self.kind,
            r.message@ == self.message@,
            r.operation@ == operation@,
            self.operation@.len() == 0 ==> r.context@ == self.context@,
            self.operation@.len() > 0 ==> r.context@.len() == self.context@.len() + 1
                && r.context@.drop_last() == self.context@
                && r.context@.last().0@ == "called"@
                && r.context@.last().1 == self.operation,
            r.temporary == self.temporary,
            r.source == self.source,
    {
        let Error { kind, message, operation: previous, context, temporary, source } = self;
        let mut context = context;
        if !previous.as_str().is_empty() {
            context.push(("called".to_owned(), previous));
        }
        Error { kind, message, operation: operation.to_owned(), context, temporary, source }
    }

    /// Append one diagnostic context pair.
    pub fn with_context(self, key: &str, value: &str) -> (r: Error)
        ensures
            r.kind == self.kind,
            r.message@ == self.message@,
            r.operation@ == self.operation@,
            r.context@.len() == self.context@.len() + 1,
            r.context@.drop_last() == self.context@,
            r.context@.last().0@ == key@,
            r.context@.last().1@ == value@,
            r.temporary == self.temporary,
            r.source == self.source,
    {
        let mut e = self;
        e.context.push((key.to_owned(), value.to_owned()));
        e
    }

    /// Record the message of the lower-level cause this error wraps.
    pub fn with_source(self, source: &str) -> (r: Error)
        ensures
            r.kind == self.kind,
            r.message@ == self.message@,
            r.operation@ == self.operation@,
            r.context@ == self.context@,
            r.temporary == self.temporary,
            r.source matches Some(s) && s@ == source@,
    {
        let mut e = self;
        e.source = Some(source.to_owned());
        e
    }

    /// Flag this error as transient.
    pub fn set_temporary(self) -> (r: Error)
        ensures
            r.kind == self.kind,
            r.message@ == self.message@,
            r.operation@ == self.operation@,
            r.context@ == self.context@,
            r.temporary,
            r.source == self.source,
    {
        let mut e = self;
        e.temporary = true;
        e
    }
}

/// Relies on `String::from_utf8`: per its documentation it returns the
/// decoded string exactly when the bytes are valid UTF-8, and an error
/// value otherwise.
#[verifier::external_body]
fn body_to_text(body: Vec<u8>) -> (r: Option<String>)
    ensures
        r matches Some(s) ==> vstd::utf8::valid_utf8(body@) && s@ == vstd::utf8::decode_utf8(
            body@,
        ),
        r is None ==> !vstd::utf8::valid_utf8(body@),
{
    match String::from_utf8(body) {
        Ok(s) => Some(s),
        Err(_) => None,
    }
}

/// Normalize a remote failure reply onto the taxonomy: the status picks the
/// kind and the transient flag, the body becomes the diagnostic message when
/// it is valid text and degrades to an empty message otherwise, and the
/// operation and service names are recorded for diagnosis.
pub fn parse_error(op: &str, service: &str, status: u16, body: Vec<u8>) -> (r: Error)
    ensures
        r.kind == kind_of_status(status),
        r.temporary == status_is_transient(status),
        r.operation@ == op@,
        vstd::utf8::valid_utf8(body@) ==> r.message@ == vstd::utf8::decode_utf8(body@),
        !vstd::utf8::valid_utf8(body@) ==> r.message@ == Seq::<char>::empty(),
        r.context@.len() == 1,
        r.context@[0].0@ == "service"@,
        r.context@[0].1@ == service@,
        r.source is None,
{
    let kind = if status == 401 || status == 403 {
        ErrorKind::PermissionDenied
    } else if status == 404 {
        ErrorKind::NotFound
    } else if status == 409 || status == 412 {
        ErrorKind::ConditionNotMatch
    } else {
        ErrorKind::Unexpected
    };
    let message = match body_to_text(body) {
        Some(text) => text,
        None => String::new(),
    };
    let e = Error::new(kind, message.as_str()).with_operation(op).with_context(
        "service",
        service,
    );
    if status == 429 || (500 <= status && status <= 599) {
        e.set_temporary()
    } else {
        e
    }
}

} // verus!
