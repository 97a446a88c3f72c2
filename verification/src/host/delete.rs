//! Types for EPP host delete request
use vstd::prelude::*;

verus! {

/// Type for data under the host `<delete>` tag
#[derive(Debug)]
pub struct HostDeleteRequest<'a> {
    /// The host to be deleted
    name: &'a str,
}

impl<'a> View for HostDeleteRequest<'a> {
    /// The name of the host to be deleted.
    type V = Seq<char>;

    closed spec fn view(&self) -> Seq<char> {
        self.name@
    }
}

impl<'a> HostDeleteRequest<'a> {
    /// The name of the host to be deleted.
    pub fn name(&self) -> (r: &'a str)
        ensures
            r@ == self@,
    {
        self.name
    }
}

/// Type for EPP XML `<delete>` command for hosts
#[derive(Debug)]
pub struct HostDelete<'a> {
    /// The instance holding the data for the host to be deleted
    host: HostDeleteRequest<'a>,
}

impl<'a> View for HostDelete<'a> {
    /// The name of the host to be deleted.
    type V = Seq<char>;

    closed spec fn view(&self) -> Seq<char> {
        self.host@
    }
}

impl<'a> HostDelete<'a> {
    /// Name of the EPP command.
    pub const COMMAND: &'static str = "delete";

    /// The command that deletes the host with the given name.
    pub fn new(name: &'a str) -> (r: Self)
        ensures
            r@ == name@,
    {
        Self { host: HostDeleteRequest { name } }
    }

    /// The data under the host `<delete>` element.
    pub fn host(&self) -> (r: &HostDeleteRequest<'a>)
        ensures
            r@ == self@,
    {
        &self.host
    }
}

} // verus!
