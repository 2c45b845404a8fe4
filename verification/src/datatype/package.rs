use vstd::prelude::*;

verus! {

/// A software package, identified by its name and version.
#[derive(Clone, Debug, PartialEq, Eq)]
pub struct Package {
    pub name: String,
    pub version: String,
}

impl Package {
    /// A copy with the same name and version.
    pub fn duplicate(&self) -> (copy: Package)
        ensures
            copy == *self,
    {
        Package { name: self.name.clone(), version: self.version.clone() }
    }

    /// The package as plain values: its name and its version.
    pub open spec fn key(self) -> (Seq<char>, Seq<char>) {
        (self.name@, self.version@)
    }

    /// Whether two packages carry the same name and version.
    pub fn same_as(&self, other: &Package) -> (same: bool)
        ensures
            same == (self.key() == other.key()),
    {
        self.name == other.name && self.version == other.version
    }

    /// `name-version`, the text a package is known by on disk and in logs.
    /// Two packages may share it: `a-b` in version `c` and `a` in version
    /// `b-c` do.
    pub open spec fn label(self) -> Seq<char> {
        self.name@ + seq!['-'] + self.version@
    }

    /// Builds `name-version`.
    pub fn file_name(&self) -> (text: String)
        ensures
            text@ == self.label(),
    {
        let mut text = self.name.clone();
        text.append("-");
        text.append(self.version.as_str());
        proof {
            reveal_strlit("-");
            assert("-"@ =~= seq!['-']);
        }
        text
    }
}

/// The label of the package with this name and version.
pub open spec fn label_of(key: (Seq<char>, Seq<char>)) -> Seq<char> {
    key.0 + seq!['-'] + key.1
}

} // verus!
