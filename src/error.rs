use vstd::prelude::*;
use vstd::std_specs::convert::FromSpec;

verus! {

// The outside failure types that an `Error` is built from; Verus sees none of
// their contents.
#[verifier::external_type_specification]
#[verifier::external_body]
pub struct ExErrno(nix::errno::Errno);

#[verifier::external_type_specification]
#[verifier::external_body]
pub struct ExIoError(std::io::Error);

#[verifier::external_type_specification]
#[verifier::external_body]
pub struct ExUtf8Error(std::str::Utf8Error);

/// The static text that nix gives for an errno value.
pub uninterp spec fn errno_text(e: nix::errno::Errno) -> &'static str;

/// Relies on nix's `Errno::desc`: a fixed table from each errno value to a
/// non-empty static text.
pub assume_specification[ nix::errno::Errno::desc ](e: nix::errno::Errno) -> (r: &'static str)
    ensures
        r == errno_text(e),
        r@.len() > 0,
;

/// The underlying failure that an [`Error`] keeps for diagnostics.
#[derive(Debug)]
pub enum Cause {
    /// A buffered I/O failure.
    Io(std::io::Error),
    /// Bytes that are not valid UTF-8.
    Utf8(std::str::Utf8Error),
}

/// An error arising from terminal operations.
#[derive(Debug)]
pub struct Error {
    description: &'static str,
    cause: Option<Cause>,
}

impl Error {
    #[verifier::type_invariant]
    spec fn inv(&self) -> bool {
        self.description@.len() > 0
    }

    /// The short text that describes the failure.
    pub closed spec fn spec_description(&self) -> Seq<char> {
        self.description@
    }

    /// The underlying failure, if one was kept.
    pub closed spec fn spec_cause(&self) -> Option<Cause> {
        self.cause
    }

    /// Creates a new `Error` with the given description and no cause.
    pub fn new(desc: &'static str) -> (r: Error)
        requires
            desc@.len() > 0,
        ensures
            r.spec_description() == desc@,
            r.spec_cause() is None,
    {
        Error { description: desc, cause: None }
    }

    /// The stored description; never empty.
    pub fn description(&self) -> (r: &'static str)
        ensures
            r@ == self.spec_description(),
            r@.len() > 0,
    {
        proof {
            use_type_invariant(self);
        }
        self.description
    }

    /// Borrows the underlying failure, if any.
    pub fn cause(&self) -> (r: Option<&Cause>)
        ensures
            r is None <==> self.spec_cause() is None,
            r is Some ==> self.spec_cause() == Some(*r->0),
    {
        match &self.cause {
            Some(c) => Some(c),
            None => None,
        }
    }

    /// The displayed form of the error: the description alone, without the
    /// cause.
    pub fn to_string(&self) -> (r: String)
        ensures
            r@ == self.spec_description(),
    {
        self.description.to_owned()
    }
}

impl From<nix::errno::Errno> for Error {
    fn from(err: nix::errno::Errno) -> (r: Error) {
        Error { description: err.desc(), cause: None }
    }
}

impl vstd::std_specs::convert::FromSpecImpl<nix::errno::Errno> for Error {
    open spec fn obeys_from_spec() -> bool {
        true
    }

    closed spec fn from_spec(err: nix::errno::Errno) -> Error {
        Error { description: errno_text(err), cause: None }
    }
}

impl From<std::io::Error> for Error {
    fn from(err: std::io::Error) -> (r: Error) {
        proof {
            reveal_strlit("internal io error");
        }
        Error { description: "internal io error", cause: Some(Cause::Io(err)) }
    }
}

impl vstd::std_specs::convert::FromSpecImpl<std::io::Error> for Error {
    open spec fn obeys_from_spec() -> bool {
        true
    }

    closed spec fn from_spec(err: std::io::Error) -> Error {
        Error { description: "internal io error", cause: Some(Cause::Io(err)) }
    }
}

impl From<std::str::Utf8Error> for Error {
    fn from(err: std::str::Utf8Error) -> (r: Error) {
        proof {
            reveal_strlit("utf8 translation error");
        }
        Error { description: "utf8 translation error", cause: Some(Cause::Utf8(err)) }
    }
}

impl vstd::std_specs::convert::FromSpecImpl<std::str::Utf8Error> for Error {
    open spec fn obeys_from_spec() -> bool {
        true
    }

    closed spec fn from_spec(err: std::str::Utf8Error) -> Error {
        Error { description: "utf8 translation error", cause: Some(Cause::Utf8(err)) }
    }
}

/// Converting an OS call failure gives the text that nix has for its errno
/// value as the description, and keeps no cause: the text says it all.
pub proof fn os_failure_conversion(e: nix::errno::Errno)
    ensures
        <Error as FromSpec<nix::errno::Errno>>::obeys_from_spec(),
        <Error as FromSpec<nix::errno::Errno>>::from_spec(e).spec_description()
            == errno_text(e)@,
        <Error as FromSpec<nix::errno::Errno>>::from_spec(e).spec_cause() is None,
{
}

/// Converting a buffered I/O failure gives the description "internal io
/// error" and keeps that very failure as the cause.
pub proof fn io_failure_conversion(e: std::io::Error)
    ensures
        <Error as FromSpec<std::io::Error>>::obeys_from_spec(),
        <Error as FromSpec<std::io::Error>>::from_spec(e).spec_description()
            == "internal io error"@,
        <Error as FromSpec<std::io::Error>>::from_spec(e).spec_cause() == Some(Cause::Io(e)),
{
}

/// Converting a decoding failure gives the description "utf8 translation
/// error" and keeps that very failure as the cause.
pub proof fn decoding_failure_conversion(e: std::str::Utf8Error)
    ensures
        <Error as FromSpec<std::str::Utf8Error>>::obeys_from_spec(),
        <Error as FromSpec<std::str::Utf8Error>>::from_spec(e).spec_description()
            == "utf8 translation error"@,
        <Error as FromSpec<std::str::Utf8Error>>::from_spec(e).spec_cause() == Some(
            Cause::Utf8(e),
        ),
{
}

} // verus!
