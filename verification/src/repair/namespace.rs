//! One collection of one database.

use vstd::prelude::*;

verus! {

/// One collection the repair pass works on.
///
/// Resolved once, where the collections are listed, so that nothing further in returns to a
/// document to ask what it is looking at, and so a database name and a collection name can never
/// be handed over in the wrong order.
#[derive(Clone, Debug, PartialEq, Eq)]
pub struct Namespace {
    database: String,
    collection: String,
}

/// [`Namespace`] by its two names.
#[verifier::ext_equal]
pub struct NamespaceView {
    pub database: Seq<char>,
    pub collection: Seq<char>,
}

impl NamespaceView {
    /// The namespace as it is written: the two names with a dot between them.
    pub open spec fn text(self) -> Seq<char> {
        self.database + "."@ + self.collection
    }
}

impl View for Namespace {
    type V = NamespaceView;

    closed spec fn view(&self) -> NamespaceView {
        NamespaceView { database: self.database@, collection: self.collection@ }
    }
}

impl Namespace {
    pub fn new(database: &str, collection: &str) -> (namespace: Self)
        ensures
            namespace@ == (NamespaceView { database: database@, collection: collection@ }),
    {
        Self { database: database.to_owned(), collection: collection.to_owned() }
    }

    pub fn database(&self) -> (database: &str)
        ensures
            database@ == self@.database,
    {
        self.database.as_str()
    }

    pub fn collection(&self) -> (collection: &str)
        ensures
            collection@ == self@.collection,
    {
        self.collection.as_str()
    }

    /// The namespace as it is written: the two names with a dot between them.
    pub fn dotted(&self) -> (text: String)
        ensures
            text@ == self@.text(),
    {
        let mut text: String = self.database.clone();
        text.append(".");
        text.append(self.collection.as_str());
        text
    }
}

} // verus!
