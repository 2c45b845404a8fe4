use vstd::prelude::*;

verus! {

/// The address of a server or of one of its endpoints, as text.
#[derive(Clone, Debug, PartialEq, Eq)]
pub struct Url(pub String);

impl View for Url {
    type V = Seq<char>;

    open spec fn view(&self) -> Seq<char> {
        self.0@
    }
}

impl Url {
    pub fn new(text: &str) -> (url: Url)
        ensures
            url@ == text@,
    {
        Url(String::from_str(text))
    }

    /// The address of `path` below this one: the two texts put together.
    /// `path` brings its own leading slash.
    pub fn join(&self, path: &str) -> (url: Url)
        ensures
            url@ == self@ + path@,
    {
        let mut text = self.0.clone();
        text.append(path);
        Url(text)
    }

    /// A copy of the address.
    pub fn duplicate(&self) -> (copy: Url)
        ensures
            copy == *self,
    {
        Url(self.0.clone())
    }

    /// The address as text.
    pub fn to_string(&self) -> (text: String)
        ensures
            text@ == self@,
    {
        self.0.clone()
    }
}

} // verus!
