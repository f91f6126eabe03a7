use vstd::prelude::*;

verus! {

/// Which local syntax check an identifier failed.
#[derive(Debug, Clone, Copy, PartialEq, Eq, Structural)]
pub enum FormatKind {
    /// Not made only of ASCII letters, digits and hyphens.
    IdOrSlug,
    /// Not exactly 40 lowercase hexadecimal digits.
    Sha1,
}

/// Everything that can go wrong in one API call.
#[derive(Debug, Clone, Copy, PartialEq, Eq, Structural)]
pub enum Error {
    /// An identifier or hash failed its syntax check; nothing was sent.
    InvalidFormat(FormatKind),
    /// The request URL could not be built.
    InvalidUrl,
    /// The network round trip failed (DNS, TLS, connection, timeout).
    Transport,
    /// The service answered with a client or server error status.
    Status(u16),
    /// The response body did not match the expected record shape.
    UnexpectedSchema,
}

} // verus!
