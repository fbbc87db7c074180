//! Host names of the configuration.

use vstd::prelude::*;

verus! {

/// The name of a host.
#[derive(Debug)]
pub struct Host(pub String);

/// A text that is no host name.
#[derive(Debug)]
pub struct InvalidHostName {
    pub input: String,
}

impl Clone for Host {
    fn clone(&self) -> (r: Self)
        ensures
            r.0@ == self.0@,
    {
        Host(self.0.clone())
    }
}

impl Host {
    /// Every text is taken as a host name.
    pub fn try_from(input: String) -> (r: Result<Host, InvalidHostName>)
        ensures
            r matches Ok(host) && host.0@ == input@,
    {
        Ok(Host(input))
    }

    pub fn into(self) -> (r: String)
        ensures
            r@ == self.0@,
    {
        self.0
    }

    pub fn equals(&self, other: &Host) -> (r: bool)
        ensures
            r == (self.0@ == other.0@),
    {
        crate::text::same_text(self.0.as_str(), other.0.as_str())
    }
}

impl InvalidHostName {
    pub open spec fn message(input: Seq<char>) -> Seq<char> {
        "Invalid Host name: '"@ + input + "'."@
    }

    /// The error in words.
    pub fn to_text(&self) -> (r: String)
        ensures
            r@ == Self::message(self.input@),
    {
        let mut text = String::from_str("Invalid Host name: '");
        text.append(self.input.as_str());
        text.append("'.");
        text
    }
}

} // verus!
