//! Types for EPP contact delete request
use std::borrow::Cow;

use vstd::prelude::*;

verus! {

/// Type containing the data for the `<delete>` tag for contacts
#[derive(Debug)]
pub struct ContactDeleteRequest<'a> {
    /// The id of the contact to be deleted
    id: Cow<'a, str>,
}

impl<'a> View for ContactDeleteRequest<'a> {
    /// The id of the contact to be deleted.
    type V = Seq<char>;

    closed spec fn view(&self) -> Seq<char> {
        self.id@
    }
}

impl<'a> ContactDeleteRequest<'a> {
    /// The id as it is stored.
    pub closed spec fn stored_id(&self) -> Cow<'a, str> {
        self.id
    }

    /// The id of the contact to be deleted.
    pub fn id(&self) -> (r: &Cow<'a, str>)
        ensures
            r@ == self@,
            *r == self.stored_id(),
    {
        &self.id
    }
}

/// The `<delete>` type for the contact delete EPP command
#[derive(Debug)]
pub struct ContactDelete<'a> {
    /// The data for the `<delete>` tag for a contact delete command
    contact: ContactDeleteRequest<'a>,
}

impl<'a> View for ContactDelete<'a> {
    /// The id of the contact to be deleted.
    type V = Seq<char>;

    closed spec fn view(&self) -> Seq<char> {
        self.contact@
    }
}

impl<'a> ContactDelete<'a> {
    /// The id as it is stored.
    pub closed spec fn stored_id(&self) -> Cow<'a, str> {
        self.contact.stored_id()
    }

    /// Name of the EPP command.
    pub const COMMAND: &'static str = "delete";

    /// The command that deletes the contact with the given id.
    pub fn new(id: &'a str) -> (r: Self)
        ensures
            r@ == id@,
            r.stored_id() == Cow::<'a, str>::Borrowed(id),
    {
        Self { contact: ContactDeleteRequest { id: Cow::Borrowed(id) } }
    }

    /// The data under the contact `<delete>` element.
    pub fn contact(&self) -> (r: &ContactDeleteRequest<'a>)
        ensures
            r@ == self@,
            r.stored_id() == self.stored_id(),
    {
        &self.contact
    }
}

} // verus!
