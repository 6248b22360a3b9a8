//! The technologies that the landing page credits.

use std::borrow::Cow;
use vstd::prelude::*;

verus! {

/// One credited technology: what it is called and where it lives.
pub struct TechStackItem {
    name: Cow<'static, str>,
    url: Cow<'static, str>,
}

impl TechStackItem {
    /// The item's name as text.
    pub closed spec fn name_text(&self) -> Seq<char> {
        self.name@
    }

    /// The item's address as text.
    pub closed spec fn url_text(&self) -> Seq<char> {
        self.url@
    }

    /// An item with this name and address.
    pub fn new(name: Cow<'static, str>, url: Cow<'static, str>) -> (item: TechStackItem)
        ensures
            item.name_text() == name@,
            item.url_text() == url@,
    {
        TechStackItem { name, url }
    }

    /// The item's name.
    pub fn name(&self) -> (name: &Cow<'static, str>)
        ensures
            name@ == self.name_text(),
    {
        &self.name
    }

    /// The item's address.
    pub fn url(&self) -> (url: &Cow<'static, str>)
        ensures
            url@ == self.url_text(),
    {
        &self.url
    }
}

} // verus!
