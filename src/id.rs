//! Resource identifiers: a kind prefix such as `script/`, then a code.

use vstd::prelude::*;
use vstd::string::StringExecFns;
use std::marker::PhantomData;
use crate::errors::Error;
use crate::text::starts_with;

verus! {

/// A kind of remote resource, known by the prefix of its identifiers.
pub trait Resource {
    /// The prefix of the identifiers of this kind.
    spec fn prefix() -> Seq<char>;

    /// The prefix of the identifiers of this kind, such as `script/`.
    fn id_prefix() -> (r: &'static str)
        ensures
            r@ == Self::prefix();
}

/// A script that runs on the service.
pub struct Script;

/// One run of a script.
pub struct Execution;

/// A data source.
pub struct Source;

impl Resource for Script {
    open spec fn prefix() -> Seq<char> {
        "script/"@
    }

    fn id_prefix() -> (r: &'static str) {
        "script/"
    }
}

impl Resource for Execution {
    open spec fn prefix() -> Seq<char> {
        "execution/"@
    }

    fn id_prefix() -> (r: &'static str) {
        "execution/"
    }
}

impl Resource for Source {
    open spec fn prefix() -> Seq<char> {
        "source/"@
    }

    fn id_prefix() -> (r: &'static str) {
        "source/"
    }
}

/// Does `id` name a resource of the kind whose prefix is `prefix`?
pub open spec fn has_prefix(id: Seq<char>, prefix: Seq<char>) -> bool {
    prefix.len() <= id.len() && id.take(prefix.len() as int) == prefix
}

/// The identifier of a resource of kind `R`.
pub struct Id<R> {
    id: String,
    _kind: PhantomData<R>,
}

impl<R: Resource> Id<R> {
    /// The identifier's text.
    pub closed spec fn text(&self) -> Seq<char> {
        self.id@
    }

    /// Read an identifier of kind `R`: it must start with the kind's
    /// prefix, else `WrongResourceType`.
    pub fn parse(id: &str) -> (r: Result<Id<R>, Error>)
        ensures
            has_prefix(id@, R::prefix()) ==> (r matches Ok(i) && i.text() == id@),
            !has_prefix(id@, R::prefix()) ==> (r matches Err(Error::WrongResourceType { expected, found })
                && expected@ == R::prefix() && found@ == id@),
    {
        let prefix = R::id_prefix();
        if starts_with(id, prefix) {
            Ok(Id { id: id.to_owned(), _kind: PhantomData })
        } else {
            Err(Error::WrongResourceType { expected: prefix.to_owned(), found: id.to_owned() })
        }
    }

    /// The identifier's text.
    pub fn as_str(&self) -> (r: &str)
        ensures
            r@ == self.text(),
    {
        self.id.as_str()
    }

    /// The page of this resource on the service's dashboard.
    pub fn dashboard_url(&self) -> (r: String)
        ensures
            r@ == "https://bigml.com/dashboard/"@ + self.text(),
    {
        let mut r = "https://bigml.com/dashboard/".to_owned();
        r.append(self.id.as_str());
        r
    }
}

impl<R: Resource> std::str::FromStr for Id<R> {
    type Err = Error;

    fn from_str(id: &str) -> Result<Id<R>, Error> {
        Id::parse(id)
    }
}

} // verus!
