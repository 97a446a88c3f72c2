//! Types for EPP host update request
use std::borrow::Cow;

use vstd::prelude::*;

use super::{IpAddr, Status};

verus! {

/// Type for data under the `<chg>` tag
#[derive(Debug)]
pub struct HostChangeInfo<'a> {
    /// The new name for the host
    pub name: &'a str,
}

/// What a `HostAdd` or a `HostRemove` holds.
pub struct AddressesAndStatuses {
    pub addresses: Option<Seq<IpAddr>>,
    pub statuses: Option<Seq<Status>>,
}

/// The model of an optional list.
pub open spec fn list_model<T>(v: Option<Vec<T>>) -> Option<Seq<T>> {
    match v {
        Some(v) => Some(v@),
        None => None,
    }
}

/// Type for data under the `<add>` and `<rem>` tags
#[derive(Debug)]
pub struct HostAdd {
    /// The IP addresses to be added to or removed from the host
    pub addresses: Option<Vec<IpAddr>>,
    /// The statuses to be added to or removed from the host
    pub statuses: Option<Vec<Status>>,
}

impl View for HostAdd {
    type V = AddressesAndStatuses;

    open spec fn view(&self) -> AddressesAndStatuses {
        AddressesAndStatuses {
            addresses: list_model(self.addresses),
            statuses: list_model(self.statuses),
        }
    }
}

/// Type for data under the `<add>` and `<rem>` tags
#[derive(Debug)]
pub struct HostRemove {
    /// The IP addresses to be added to or removed from the host
    pub addresses: Option<Vec<IpAddr>>,
    /// The statuses to be added to or removed from the host
    pub statuses: Option<Vec<Status>>,
}

impl View for HostRemove {
    type V = AddressesAndStatuses;

    open spec fn view(&self) -> AddressesAndStatuses {
        AddressesAndStatuses {
            addresses: list_model(self.addresses),
            statuses: list_model(self.statuses),
        }
    }
}

/// What a host update holds: the name of the host, and the optional `<add>`,
/// `<rem>` and `<chg>` parts (the last as the new name).
pub struct HostUpdateModel {
    pub name: Seq<char>,
    pub add: Option<AddressesAndStatuses>,
    pub remove: Option<AddressesAndStatuses>,
    pub change_info: Option<Seq<char>>,
}

/// Type for data under the host `<update>` tag
#[derive(Debug)]
pub struct HostUpdateRequest<'a> {
    /// The name of the host
    name: Cow<'a, str>,
    /// The IP addresses and statuses to be added to the host
    add: Option<HostAdd>,
    /// The IP addresses and statuses to be removed from the host
    remove: Option<HostRemove>,
    /// The host details that need to be updated
    change_info: Option<HostChangeInfo<'a>>,
}

impl<'a> View for HostUpdateRequest<'a> {
    type V = HostUpdateModel;

    closed spec fn view(&self) -> HostUpdateModel {
        HostUpdateModel {
            name: self.name@,
            add: match self.add {
                Some(a) => Some(a@),
                None => None,
            },
            remove: match self.remove {
                Some(r) => Some(r@),
                None => None,
            },
            change_info: match self.change_info {
                Some(c) => Some(c.name@),
                None => None,
            },
        }
    }
}

impl<'a> HostUpdateRequest<'a> {
    /// The name as it is stored.
    pub closed spec fn stored_name(&self) -> Cow<'a, str> {
        self.name
    }

    /// The name of the host.
    pub fn name(&self) -> (r: &Cow<'a, str>)
        ensures
            r@ == self@.name,
            *r == self.stored_name(),
    {
        &self.name
    }

    /// The IP addresses and statuses to be added, where given.
    pub fn add(&self) -> (r: &Option<HostAdd>)
        ensures
            match *r {
                Some(a) => self@.add == Some(a@),
                None => self@.add is None,
            },
    {
        &self.add
    }

    /// The IP addresses and statuses to be removed, where given.
    pub fn remove(&self) -> (r: &Option<HostRemove>)
        ensures
            match *r {
                Some(a) => self@.remove == Some(a@),
                None => self@.remove is None,
            },
    {
        &self.remove
    }

    /// The new name, where given.
    pub fn change_info(&self) -> (r: &Option<HostChangeInfo<'a>>)
        ensures
            match *r {
                Some(c) => self@.change_info == Some(c.name@),
                None => self@.change_info is None,
            },
    {
        &self.change_info
    }
}

/// Type for EPP XML `<update>` command for hosts
#[derive(Debug)]
pub struct HostUpdate<'a> {
    /// The instance holding the data for the host to be updated
    host: HostUpdateRequest<'a>,
}

impl<'a> View for HostUpdate<'a> {
    type V = HostUpdateModel;

    closed spec fn view(&self) -> HostUpdateModel {
        self.host@
    }
}

impl<'a> HostUpdate<'a> {
    /// The name as it is stored.
    pub closed spec fn stored_name(&self) -> Cow<'a, str> {
        self.host.stored_name()
    }

    /// Name of the EPP command.
    pub const COMMAND: &'static str = "update";

    /// An update of the host with the given name that changes nothing yet.
    pub fn new(name: &'a str) -> (r: Self)
        ensures
            r@ == (HostUpdateModel { name: name@, add: None, remove: None, change_info: None }),
            r.stored_name() == Cow::<'a, str>::Borrowed(name),
    {
        Self {
            host: HostUpdateRequest {
                name: Cow::Borrowed(name),
                add: None,
                remove: None,
                change_info: None,
            },
        }
    }

    /// Sets the data for the `<chg>` element of the host update
    pub fn info(&mut self, info: HostChangeInfo<'a>)
        ensures
            final(self)@ == (HostUpdateModel { change_info: Some(info.name@), ..old(self)@ }),
            final(self).stored_name() == old(self).stored_name(),
    {
        self.host.change_info = Some(info);
    }

    /// Sets the data for the `<add>` element of the host update
    pub fn add(&mut self, add: HostAdd)
        ensures
            final(self)@ == (HostUpdateModel { add: Some(add@), ..old(self)@ }),
            final(self).stored_name() == old(self).stored_name(),
    {
        self.host.add = Some(add);
    }

    /// Sets the data for the `<rem>` element of the host update
    pub fn remove(&mut self, remove: HostRemove)
        ensures
            final(self)@ == (HostUpdateModel { remove: Some(remove@), ..old(self)@ }),
            final(self).stored_name() == old(self).stored_name(),
    {
        self.host.remove = Some(remove);
    }

    /// The data under the host `<update>` element.
    pub fn host(&self) -> (r: &HostUpdateRequest<'a>)
        ensures
            r@ == self@,
            r.stored_name() == self.stored_name(),
    {
        &self.host
    }
}

} // verus!
