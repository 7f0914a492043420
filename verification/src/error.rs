//! Why a run stops early.

use vstd::prelude::*;
use crate::names::{ClassName, PermName, TypeName};

verus! {

/// A request to the policy store that may be turned down.
#[derive(Clone, Copy, Debug, PartialEq, Eq, Structural)]
pub enum StoreOp {
    CopyRoles,
    CopyAttributes,
    CopyRules,
}

/// The reason for which a run was given up. Each reason carries the name or
/// the request that it is about.
#[derive(Clone, Copy, Debug, PartialEq, Eq, Structural)]
pub enum PatchError {
    /// The policy has no type of this name.
    TypeNotFound(TypeName),
    /// The policy has no class of this name.
    ClassNotFound(ClassName),
    /// The permission's class has no permission of this name.
    PermissionNotFound(PermName),
    /// A type of this name exists already, so no clone can be made.
    TypeExists(TypeName),
    /// The policy store turned the request down.
    StoreFailed(StoreOp),
    /// The patched policy could not be written out.
    WriteFailed,
    /// The answer does not fit the request that was open.
    UnexpectedEvent,
}

/// The reason for which writing the policy out was given up.
#[derive(Clone, Copy, Debug, PartialEq, Eq, Structural)]
pub enum WriteError {
    /// The policy could not be turned into bytes.
    BuildFailed,
    /// The destination could not be opened.
    OpenFailed,
    /// The destination's length could not be read.
    StatFailed,
    /// The destination could not be cut to length zero.
    TruncateFailed,
    /// The write call failed.
    WriteFailed,
    /// The write call took fewer bytes than the whole policy.
    ShortWrite,
    /// The answer does not fit the request that was open.
    UnexpectedEvent,
}

impl PatchError {
    /// What went wrong, in words.
    pub open spec fn text(self) -> Seq<char> {
        match self {
            PatchError::TypeNotFound(_) => "Type not found"@,
            PatchError::ClassNotFound(_) => "Class not found"@,
            PatchError::PermissionNotFound(_) => "Permission not found"@,
            PatchError::TypeExists(_) => "Type already exists"@,
            PatchError::StoreFailed(StoreOp::CopyRoles) => "Failed to copy roles"@,
            PatchError::StoreFailed(StoreOp::CopyAttributes) => "Failed to copy attributes"@,
            PatchError::StoreFailed(StoreOp::CopyRules) => "Failed to copy rules"@,
            PatchError::WriteFailed => "Failed to write sepolicy"@,
            PatchError::UnexpectedEvent => "Unexpected answer from the policy store"@,
        }
    }

    /// The symbolic name that the error is about, if it is about one.
    pub open spec fn subject_text(self) -> Option<Seq<char>> {
        match self {
            PatchError::TypeNotFound(n) => Some(n.text()),
            PatchError::ClassNotFound(n) => Some(n.text()),
            PatchError::PermissionNotFound(n) => Some(n.text()),
            PatchError::TypeExists(n) => Some(n.text()),
            _ => None,
        }
    }

    /// The error is that a symbolic name could not be resolved.
    pub open spec fn is_lookup_failure(self) -> bool {
        self is TypeNotFound || self is ClassNotFound || self is PermissionNotFound
    }

    /// What went wrong, in words.
    pub fn message(self) -> (s: &'static str)
        ensures
            s@ == self.text(),
    {
        match self {
            PatchError::TypeNotFound(_) => "Type not found",
            PatchError::ClassNotFound(_) => "Class not found",
            PatchError::PermissionNotFound(_) => "Permission not found",
            PatchError::TypeExists(_) => "Type already exists",
            PatchError::StoreFailed(StoreOp::CopyRoles) => "Failed to copy roles",
            PatchError::StoreFailed(StoreOp::CopyAttributes) => "Failed to copy attributes",
            PatchError::StoreFailed(StoreOp::CopyRules) => "Failed to copy rules",
            PatchError::WriteFailed => "Failed to write sepolicy",
            PatchError::UnexpectedEvent => "Unexpected answer from the policy store",
        }
    }

    /// The symbolic name that the error is about, if it is about one.
    pub fn subject(self) -> (r: Option<&'static str>)
        ensures
            r.is_some() == self.subject_text().is_some(),
            r.is_some() ==> r.unwrap()@ == self.subject_text().unwrap(),
    {
        match self {
            PatchError::TypeNotFound(n) => Some(n.as_str()),
            PatchError::ClassNotFound(n) => Some(n.as_str()),
            PatchError::PermissionNotFound(n) => Some(n.as_str()),
            PatchError::TypeExists(n) => Some(n.as_str()),
            _ => None,
        }
    }
}

impl WriteError {
    /// What went wrong, in words.
    pub open spec fn text(self) -> Seq<char> {
        match self {
            WriteError::BuildFailed => "Failed to build sepolicy"@,
            WriteError::OpenFailed => "Failed to open for writing"@,
            WriteError::StatFailed => "Failed to stat file"@,
            WriteError::TruncateFailed => "Failed to truncate file"@,
            WriteError::WriteFailed => "Failed to write file"@,
            WriteError::ShortWrite => "Failed to write data in a single write call"@,
            WriteError::UnexpectedEvent => "Unexpected answer while writing"@,
        }
    }

    /// The error is about the destination, so its path belongs in the report.
    pub open spec fn is_about_path(self) -> bool {
        self == WriteError::OpenFailed || self == WriteError::StatFailed || self
            == WriteError::TruncateFailed || self == WriteError::WriteFailed
    }

    /// What went wrong, in words.
    pub fn message(self) -> (s: &'static str)
        ensures
            s@ == self.text(),
    {
        match self {
            WriteError::BuildFailed => "Failed to build sepolicy",
            WriteError::OpenFailed => "Failed to open for writing",
            WriteError::StatFailed => "Failed to stat file",
            WriteError::TruncateFailed => "Failed to truncate file",
            WriteError::WriteFailed => "Failed to write file",
            WriteError::ShortWrite => "Failed to write data in a single write call",
            WriteError::UnexpectedEvent => "Unexpected answer while writing",
        }
    }

    /// Tells whether the destination's path belongs in the report.
    pub fn names_path(self) -> (r: bool)
        ensures
            r == self.is_about_path(),
    {
        match self {
            WriteError::OpenFailed
            | WriteError::StatFailed
            | WriteError::TruncateFailed
            | WriteError::WriteFailed => true,
            _ => false,
        }
    }
}

} // verus!
