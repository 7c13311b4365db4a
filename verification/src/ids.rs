use vstd::prelude::*;

verus! {

/// The mathematical image of a [`FileIdentity`]: an optional package
/// qualifier and a virtual path, both as character sequences.
pub ghost struct IdView {
    pub package: Option<Seq<char>>,
    pub path: Seq<char>,
}

/// An opaque key identifying one virtual document in the store.
///
/// It consists of a virtual path plus an optional package qualifier
/// (unused here: every identity made by [`FileIdentity::from_path`] has
/// none). Equality is structural, and an identity never changes once
/// created; it acts as the store's key.
#[derive(Debug)]
pub struct FileIdentity {
    package: Option<String>,
    path: String,
}

impl View for FileIdentity {
    type V = IdView;

    closed spec fn view(&self) -> IdView {
        IdView {
            package: match self.package {
                Some(p) => Some(p@),
                None => None,
            },
            path: self.path@,
        }
    }
}

impl FileIdentity {
    /// Creates an identity for a virtual path, with no package qualifier.
    pub fn from_path(path: &str) -> (r: FileIdentity)
        ensures
            r@ == (IdView { package: None, path: path@ }),
    {
        FileIdentity { package: None, path: path.to_owned() }
    }

    /// The identity's virtual path.
    pub fn path(&self) -> (r: &String)
        ensures
            r@ == self@.path,
    {
        &self.path
    }

    /// The identity's package qualifier, when it has one.
    pub fn package(&self) -> (r: Option<&String>)
        ensures
            r is Some <==> self@.package is Some,
            r matches Some(p) ==> self@.package == Some(p@),
    {
        match &self.package {
            Option::Some(p) => Option::Some(p),
            Option::None => Option::None,
        }
    }

    /// Structural equality of two identities.
    pub fn same_as(&self, other: &FileIdentity) -> (r: bool)
        ensures
            r == (self@ == other@),
    {
        let packages_equal = match (&self.package, &other.package) {
            (Option::None, Option::None) => true,
            (Option::Some(a), Option::Some(b)) => *a == *b,
            _ => false,
        };
        packages_equal && self.path == other.path
    }
}

impl Clone for FileIdentity {
    /// Cloning keeps the identity's value.
    fn clone(&self) -> (r: Self)
        ensures
            r@ == self@,
    {
        FileIdentity {
            package: match &self.package {
                Option::Some(p) => Option::Some(p.clone()),
                Option::None => Option::None,
            },
            path: self.path.clone(),
        }
    }
}

} // verus!
