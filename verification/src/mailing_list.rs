use vstd::prelude::*;

verus! {

/// What a mailing list is, as the contracts see it.
pub struct ListView {
    pub name: Seq<char>,
    pub description: Seq<char>,
}

/// A mailing list served by the archive: its name and a description.
#[derive(Debug, PartialEq, Eq)]
pub struct MailingList {
    name: String,
    description: String,
}

impl View for MailingList {
    type V = ListView;

    closed spec fn view(&self) -> ListView {
        ListView { name: self.name@, description: self.description@ }
    }
}

impl MailingList {
    /// Builds a mailing list from its name and description.
    pub fn new(name: &str, description: &str) -> (r: MailingList)
        ensures
            r@.name == name@,
            r@.description == description@,
    {
        MailingList { name: name.to_owned(), description: description.to_owned() }
    }

    /// The list's name.
    pub fn name(&self) -> (r: &str)
        ensures
            r@ == self@.name,
    {
        self.name.as_str()
    }

    /// The list's description.
    pub fn description(&self) -> (r: &str)
        ensures
            r@ == self@.description,
    {
        self.description.as_str()
    }
}

impl Clone for MailingList {
    fn clone(&self) -> (r: MailingList)
        ensures
            r@ == self@,
    {
        MailingList { name: self.name.clone(), description: self.description.clone() }
    }
}

} // verus!
