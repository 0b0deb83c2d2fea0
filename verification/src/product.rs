//! What the agent that workers run is called, in texts, on disk and on the search path.
use vstd::prelude::*;

verus! {

/// What the agent is called.
#[derive(Debug)]
pub struct Product {
    /// Its name as a product.
    pub name: String,
    /// Its name in short.
    pub short_name: String,
    /// The command that starts it where nothing else is configured; also the name of the
    /// program that an installation for one user puts in place.
    pub command: String,
    /// The directory, under the home directory, in which it keeps its things.
    pub directory: String,
}

/// What a [`Product`] holds.
#[verifier::ext_equal]
pub struct ProductView {
    pub name: Seq<char>,
    pub short_name: Seq<char>,
    pub command: Seq<char>,
    pub directory: Seq<char>,
}

impl DeepView for Product {
    type V = ProductView;

    open spec fn deep_view(&self) -> ProductView {
        ProductView {
            name: self.name@,
            short_name: self.short_name@,
            command: self.command@,
            directory: self.directory@,
        }
    }
}

impl Clone for Product {
    fn clone(&self) -> (r: Self)
        ensures
            r.deep_view() == self.deep_view(),
    {
        Product {
            name: self.name.clone(),
            short_name: self.short_name.clone(),
            command: self.command.clone(),
            directory: self.directory.clone(),
        }
    }
}

} // verus!
