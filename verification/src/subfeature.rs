//! The `Subfeature` value object: one sysfs attribute file bound to its
//! resolved type and to the capability flags taken at construction.

use vstd::prelude::*;

use crate::parser::{spec_parse_name, SubfeatureError};
use crate::types::SubfeatureType;

verus! {

/// The owner-read permission bit of a sysfs file mode.
pub const MODE_OWNER_READ: u32 = 0o400;

/// The owner-write permission bit of a sysfs file mode.
pub const MODE_OWNER_WRITE: u32 = 0o200;

/// One scalar sysfs attribute file, bound to its typed classification and
/// to the readability and writability recorded once at construction.
///
/// The value is immutable for its lifetime; the capability flags are a
/// construction-time snapshot of the file-mode bits and are never
/// re-queried.
#[derive(Clone, Debug)]
pub struct Subfeature {
    name: String,
    path: String,
    subfeature_type: SubfeatureType,
    compute_statement: Option<String>,
    is_readable: bool,
    is_writable: bool,
}

impl Subfeature {
    /// The basename the subfeature was constructed from.
    pub closed spec fn spec_name(self) -> Seq<char> {
        self.name@
    }

    /// The filesystem path the subfeature is bound to.
    pub closed spec fn spec_path(self) -> Seq<char> {
        self.path@
    }

    /// The resolved typed classification.
    pub closed spec fn spec_type(self) -> SubfeatureType {
        self.subfeature_type
    }

    /// The deferred compute expression; always absent here.
    pub closed spec fn spec_compute_statement(self) -> Option<Seq<char>> {
        match self.compute_statement {
            Some(s) => Some(s@),
            None => None,
        }
    }

    /// The readability snapshot taken at construction.
    pub closed spec fn spec_is_readable(self) -> bool {
        self.is_readable
    }

    /// The writability snapshot taken at construction.
    pub closed spec fn spec_is_writable(self) -> bool {
        self.is_writable
    }

    /// Subfeature name
    pub fn name(&self) -> (r: &str)
        ensures
            r@ == self.spec_name(),
    {
        self.name.as_str()
    }

    /// Return the sysfs file path
    pub fn path(&self) -> (r: &str)
        ensures
            r@ == self.spec_path(),
    {
        self.path.as_str()
    }

    /// Get the subfeature type
    pub fn get_type(&self) -> (r: SubfeatureType)
        ensures
            r == self.spec_type(),
    {
        self.subfeature_type
    }

    /// Return the compute statement string if specified in the
    /// configuration file. Otherwise it returns None.
    pub fn compute_statement(&self) -> (r: Option<String>)
        ensures
            r is Some <==> self.spec_compute_statement() is Some,
            r is Some ==> r->0@ == self.spec_compute_statement()->0,
    {
        match &self.compute_statement {
            Some(s) => Some(s.clone()),
            None => None,
        }
    }

    /// Return `true` if the subfeature is readable
    pub fn is_readable(&self) -> (r: bool)
        ensures
            r == self.spec_is_readable(),
    {
        self.is_readable
    }

    /// Return `true` if the subfeature is writable
    pub fn is_writable(&self) -> (r: bool)
        ensures
            r == self.spec_is_writable(),
    {
        self.is_writable
    }

    /// Assemble a subfeature from its basename, its path and the file-mode
    /// bits found at the path, classifying the basename against the
    /// registry. Name-grammar failures propagate unchanged; the capability
    /// flags come from the owner permission bits of the given mode.
    pub fn from_parts(name: String, path: String, st_mode: u32) -> (r: Result<
        (u32, Subfeature),
        SubfeatureError,
    >)
        ensures
            match r {
                Ok((number, sf)) => {
                    &&& spec_parse_name(name@) == Ok::<_, SubfeatureError>((number, sf.spec_type()))
                    &&& sf.spec_name() == name@
                    &&& sf.spec_path() == path@
                    &&& sf.spec_compute_statement() is None
                    &&& sf.spec_is_readable() == (st_mode & MODE_OWNER_READ == MODE_OWNER_READ)
                    &&& sf.spec_is_writable() == (st_mode & MODE_OWNER_WRITE == MODE_OWNER_WRITE)
                },
                Err(e) => spec_parse_name(name@) == Err::<(u32, SubfeatureType), _>(e),
            },
    {
        let (feature_number, subfeature_type) = match Subfeature::get_properties_from_name(
            name.as_str(),
        ) {
            Ok(p) => p,
            Err(e) => {
                return Err(e);
            },
        };
        let is_readable = st_mode & MODE_OWNER_READ == MODE_OWNER_READ;
        let is_writable = st_mode & MODE_OWNER_WRITE == MODE_OWNER_WRITE;
        Ok(
            (
                feature_number,
                Subfeature {
                    name,
                    path,
                    subfeature_type,
                    compute_statement: None,
                    is_readable,
                    is_writable,
                },
            ),
        )
    }
}

} // verus!
