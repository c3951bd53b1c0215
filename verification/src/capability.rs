//! Capability negotiation.
//!
//! Every backend instance advertises a fixed [`Capability`] record through
//! its accessor info. Callers check it before issuing an operation; calling
//! an operation a backend does not advertise is a programming error the
//! core signals with an `Unsupported` error, before any remote request
//! value is constructed.

use vstd::prelude::*;
use crate::error::Error;
use crate::error::ErrorKind;

verus! {

/// The identifier of the concrete service behind a backend instance.
#[derive(Clone, Copy, Debug, PartialEq, Eq, Structural)]
pub enum Scheme {
    Gdrive,
    VercelArtifacts,
}

/// The stable textual name of a scheme.
pub open spec fn scheme_name(s: Scheme) -> Seq<char> {
    match s {
        Scheme::Gdrive => "gdrive"@,
        Scheme::VercelArtifacts => "vercel_artifacts"@,
    }
}

impl Scheme {
    /// The stable textual name of the service, for diagnostics.
    pub fn into_static(self) -> (r: &'static str)
        ensures
            r@ == scheme_name(self),
    {
        match self {
            Scheme::Gdrive => "gdrive",
            Scheme::VercelArtifacts => "vercel_artifacts",
        }
    }
}

/// The operations a caller can ask a backend to perform.
#[derive(Clone, Copy, Debug, PartialEq, Eq, Structural)]
pub enum Operation {
    Read,
    Write,
    Delete,
    List,
    Rename,
    Copy,
}

/// The stable textual name of an operation.
pub open spec fn operation_name(op: Operation) -> Seq<char> {
    match op {
        Operation::Read => "read"@,
        Operation::Write => "write"@,
        Operation::Delete => "delete"@,
        Operation::List => "list"@,
        Operation::Rename => "rename"@,
        Operation::Copy => "copy"@,
    }
}

impl Operation {
    /// The stable textual name of the operation, for diagnostics.
    pub fn into_static(self) -> (r: &'static str)
        ensures
            r@ == operation_name(self),
    {
        match self {
            Operation::Read => "read",
            Operation::Write => "write",
            Operation::Delete => "delete",
            Operation::List => "list",
            Operation::Rename => "rename",
            Operation::Copy => "copy",
        }
    }
}

/// The fixed record of operations one backend instance supports. Immutable
/// once the backend is constructed.
#[derive(Clone, Copy, Debug, PartialEq, Eq, Structural)]
pub struct Capability {
    pub read: bool,
    pub write: bool,
    pub delete: bool,
    pub list: bool,
    pub rename: bool,
    pub copy: bool,
}

/// Whether a capability record advertises an operation.
pub open spec fn capability_allows(cap: Capability, op: Operation) -> bool {
    match op {
        Operation::Read => cap.read,
        Operation::Write => cap.write,
        Operation::Delete => cap.delete,
        Operation::List => cap.list,
        Operation::Rename => cap.rename,
        Operation::Copy => cap.copy,
    }
}

impl Capability {
    /// Whether this record advertises `op`.
    pub fn allows(&self, op: Operation) -> (r: bool)
        ensures
            r == capability_allows(*self, op),
    {
        match op {
            Operation::Read => self.read,
            Operation::Write => self.write,
            Operation::Delete => self.delete,
            Operation::List => self.list,
            Operation::Rename => self.rename,
            Operation::Copy => self.copy,
        }
    }
}

impl Default for Capability {
    /// No operation is advertised by default.
    fn default() -> (r: Capability)
        ensures
            r == (Capability {
                read: false,
                write: false,
                delete: false,
                list: false,
                rename: false,
                copy: false,
            }),
    {
        Capability { read: false, write: false, delete: false, list: false, rename: false, copy: false }
    }
}

/// What a backend advertises: which service it speaks to and what it can do.
#[derive(Clone, Copy, Debug, PartialEq, Eq, Structural)]
pub struct AccessorInfo {
    pub scheme: Scheme,
    pub capability: Capability,
}

impl AccessorInfo {
    pub fn new(scheme: Scheme, capability: Capability) -> (r: AccessorInfo)
        ensures
            r == (AccessorInfo { scheme, capability }),
    {
        AccessorInfo { scheme, capability }
    }
}

/// The capability check: it succeeds exactly when the backend advertises the
/// operation, and otherwise signals `Unsupported` without any remote
/// request value being constructed.
pub fn check_operation(info: &AccessorInfo, op: Operation) -> (r: Result<(), Error>)
    ensures
        r is Ok <==> capability_allows(info.capability, op),
        r matches Err(e) ==> e.kind == ErrorKind::Unsupported && e.operation@ == operation_name(
            op,
        ) && !e.temporary,
{
    if info.capability.allows(op) {
        Ok(())
    } else {
        Err(
            Error::new(
                ErrorKind::Unsupported,
                "operation is not supported by this backend",
            ).with_operation(op.into_static()).with_context("service", info.scheme.into_static()),
        )
    }
}

} // verus!
