//! The error taxonomy shared by every component of the pipeline.
//!
//! Every fallible operation reports one of three kinds of failure:
//! [`Error::Internal`] for environment or OS level trouble,
//! [`Error::InvalidArguments`] for caller-supplied values that fail
//! validation before any external effect, and [`Error::External`] for a
//! failure attributed to one of the two external systems the pipeline
//! relies on.  Errors are created at the point of failure and propagated
//! unchanged.

use vstd::prelude::*;
use vstd::string::StringExecFns;

verus! {

/// A structured description of a lower-level failure: a message plus an
/// optional nested cause, so that the causal chain of `Internal` and
/// `External` errors is preserved for diagnostics.
#[derive(Debug)]
pub struct Cause {
    pub msg: String,
    pub source: Option<Box<Cause>>,
}

impl Cause {
    /// A leaf cause carrying only a message.
    pub fn new(msg: &str) -> (c: Cause)
        ensures
            c.msg@ == msg@,
            c.source is None,
    {
        Cause { msg: msg.to_owned(), source: None }
    }

    /// A cause that wraps a deeper one, extending the causal chain.
    pub fn wrap(msg: &str, source: Cause) -> (c: Cause)
        ensures
            c.msg@ == msg@,
            c.source matches Some(inner) && *inner == source,
    {
        Cause { msg: msg.to_owned(), source: Some(Box::new(source)) }
    }
}

/// The error type that every function and method of this crate returns.
#[non_exhaustive]
#[derive(Debug)]
pub enum Error {
    /// An unexpected failure of the system the application runs on, for
    /// example insufficient resources or an OS failure.
    Internal(Internal),
    /// A caller-supplied value failed validation before any external
    /// effect took place.
    InvalidArguments(Args),
    /// A failure reported by one of the external systems the application
    /// relies on.
    External(External),
}

/// Describes an invalid-arguments error.
///
/// `names` follows a convention for naming the faulty parameters: the bare
/// name for a single parameter, `name[i]` for a faulty element of a
/// list-valued parameter, `name{field}` for a faulty field of a
/// struct-valued parameter, a parenthesized list such as `(p1,p3)` when
/// several parameters are faulty, and `<all>` when all of them are.
#[derive(Debug)]
pub struct Args {
    pub names: String,
    pub msg: String,
}

/// An unexpected error caused by the state of the system the application
/// runs on; the received low-level error is kept as the cause.
#[derive(Debug)]
pub struct Internal {
    pub ctx_msg: String,
    pub error: Cause,
}

/// An error reported by one of the external systems the application
/// relies on.
#[derive(Debug)]
pub struct External {
    pub system: ExternalSystem,
    pub inner: Cause,
}

/// The external system that reported an error.
#[derive(Debug, PartialEq, Eq, Structural, Clone, Copy)]
pub enum ExternalSystem {
    /// The Ethereum ledger.
    Ethereum,
    /// The IPFS storage network.
    IPFS,
}

/// The display label of an external system.
pub open spec fn system_label(s: ExternalSystem) -> Seq<char> {
    match s {
        ExternalSystem::Ethereum => "Ethereum"@,
        ExternalSystem::IPFS => "IPFS"@,
    }
}

/// Holds when `e` is an invalid-arguments error naming exactly `names`
/// with the message `msg`.
pub open spec fn is_invalid_arguments(e: Error, names: Seq<char>, msg: Seq<char>) -> bool {
    &&& e matches Error::InvalidArguments(a)
    &&& a.names@ == names
    &&& a.msg@ == msg
}

/// Holds when `e` is an external error attributed to `system` and wrapping
/// exactly `cause`.
pub open spec fn is_external(e: Error, system: ExternalSystem, cause: Cause) -> bool {
    &&& e matches Error::External(x)
    &&& x.system == system
    &&& x.inner == cause
}

/// Holds when `e` is an internal error with the context message `ctx` and
/// wrapping exactly `cause`.
pub open spec fn is_internal(e: Error, ctx: Seq<char>, cause: Cause) -> bool {
    &&& e matches Error::Internal(i)
    &&& i.ctx_msg@ == ctx
    &&& i.error == cause
}

/// The human-readable line that [`Error::message`] renders.
pub open spec fn spec_error_message(e: Error) -> Seq<char> {
    match e {
        Error::InvalidArguments(a) => a.names@ + " arguments have invalid values. "@ + a.msg@,
        Error::Internal(i) => i.ctx_msg@,
        Error::External(x) => "External error produced by the "@ + system_label(x.system)
            + " system"@,
    }
}

impl Error {
    /// Convenient constructor for an `InvalidArguments` error.  See [`Args`]
    /// for the convention the `names` value follows.
    pub fn invalid_arguments(names: &str, msg: &str) -> (e: Error)
        ensures
            is_invalid_arguments(e, names@, msg@),
    {
        Error::InvalidArguments(Args::new(names, msg))
    }

    /// Convenient constructor for an `External` error.
    pub fn external(origin: Cause, system: ExternalSystem) -> (e: Error)
        ensures
            is_external(e, system, origin),
    {
        Error::External(External { system, inner: origin })
    }

    /// Convenient constructor for an `Internal` error.
    pub fn internal(ctx_msg: &str, error: Cause) -> (e: Error)
        ensures
            is_internal(e, ctx_msg@, error),
    {
        Error::Internal(Internal { ctx_msg: ctx_msg.to_owned(), error })
    }

    /// The originating lower-level cause: present for `Internal` and
    /// `External` errors, absent for `InvalidArguments`, which never
    /// reaches an external system.
    pub fn cause(&self) -> (r: Option<&Cause>)
        ensures
            match self {
                Error::InvalidArguments(_) => r is None,
                Error::Internal(i) => r matches Some(c) && *c == i.error,
                Error::External(x) => r matches Some(c) && *c == x.inner,
            },
    {
        match self {
            Error::InvalidArguments(_) => None,
            Error::Internal(i) => Some(&i.error),
            Error::External(x) => Some(&x.inner),
        }
    }

    /// The display message of the error, as the command-line front end
    /// prints it.
    pub fn message(&self) -> (r: String)
        ensures
            r@ == spec_error_message(*self),
    {
        match self {
            Error::InvalidArguments(a) => a.message(),
            Error::Internal(i) => i.message(),
            Error::External(x) => x.message(),
        }
    }
}

impl Args {
    /// Builds the description of an invalid-arguments error; `names` must
    /// follow the convention documented on [`Args`].
    pub fn new(names: &str, msg: &str) -> (a: Args)
        ensures
            a.names@ == names@,
            a.msg@ == msg@,
    {
        Args { names: names.to_owned(), msg: msg.to_owned() }
    }

    /// The display message of the error.
    pub fn message(&self) -> (r: String)
        ensures
            r@ == self.names@ + " arguments have invalid values. "@ + self.msg@,
    {
        let mut r = self.names.clone();
        r.append(" arguments have invalid values. ");
        r.append(self.msg.as_str());
        r
    }
}

impl Internal {
    /// The display message of the error: its context message.
    pub fn message(&self) -> (r: String)
        ensures
            r@ == self.ctx_msg@,
    {
        self.ctx_msg.clone()
    }
}

impl External {
    /// The display message of the error.
    pub fn message(&self) -> (r: String)
        ensures
            r@ == "External error produced by the "@ + system_label(self.system) + " system"@,
    {
        let mut r = String::from_str("External error produced by the ");
        r.append(self.system.name());
        r.append(" system");
        r
    }
}

impl ExternalSystem {
    /// The display label of the system.
    pub fn name(&self) -> (r: &'static str)
        ensures
            r@ == system_label(*self),
    {
        match self {
            ExternalSystem::Ethereum => "Ethereum",
            ExternalSystem::IPFS => "IPFS",
        }
    }
}

} // verus!
