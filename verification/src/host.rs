//! The remote host of a forwarding session, held as the text that the `url`
//! crate serialises it to.

use vstd::prelude::*;

verus! {

/// The error of the `url` crate's parsers. Nothing inside it is read here.
#[verifier::external_type_specification]
#[verifier::external_body]
pub struct ExParseError(url::ParseError);

/// What `url::Host::parse` makes of `input`: the serialisation of the host
/// that it reads, or `None` where it rejects the input.
pub uninterp spec fn parsed_host(input: Seq<char>) -> Option<Seq<char>>;

/// Calls `url::Host::parse` and, where it accepts, serialises the host with
/// its `Display` impl (a domain as the parser normalised it, an IPv4 address
/// as dotted decimals, an IPv6 address between square brackets). The contract
/// only names that result: the parser's rules are not restated, and nothing
/// was proved of them.
#[verifier::external_body]
fn parse_host_text(input: &str) -> (r: Result<String, url::ParseError>)
    ensures
        r is Ok <==> parsed_host(input@) is Some,
        r is Ok ==> r.unwrap()@ == parsed_host(input@).unwrap(),
{
    match url::Host::parse(input) {
        Ok(host) => Ok(host.to_string()),
        Err(e) => Err(e),
    }
}

/// Why a text names no host.
#[derive(PartialEq, Eq, Structural, Debug, Clone, Copy)]
pub enum HostError {
    /// The text is neither a domain nor an IP address.
    Invalid,
}

/// A remote host in serialised form.
#[derive(PartialEq, Eq, Debug, Clone)]
pub struct RemoteHost {
    text: String,
}

impl View for RemoteHost {
    type V = Seq<char>;

    closed spec fn view(&self) -> Seq<char> {
        self.text@
    }
}

impl RemoteHost {
    /// Reads a host from `input`: a domain, an IPv4 address, or an IPv6
    /// address in square brackets.
    pub fn parse(input: &str) -> (r: Result<RemoteHost, HostError>)
        ensures
            match parsed_host(input@) {
                Some(text) => r is Ok && r.unwrap()@ == text,
                None => r == Err::<RemoteHost, HostError>(HostError::Invalid),
            },
    {
        match parse_host_text(input) {
            Ok(text) => Ok(RemoteHost { text }),
            Err(_) => Err(HostError::Invalid),
        }
    }

    /// The serialised host.
    pub fn as_str(&self) -> (text: &str)
        ensures
            text@ == self@,
    {
        self.text.as_str()
    }

    /// The serialised host, as an owned string.
    pub fn to_string(&self) -> (text: String)
        ensures
            text@ == self@,
    {
        self.text.clone()
    }
}

} // verus!
