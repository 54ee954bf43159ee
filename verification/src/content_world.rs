use vstd::prelude::*;

use crate::bridge::{c_string_chars, c_string_text};

verus! {

/// The JavaScript world a script runs in.
#[derive(Debug, Clone, PartialEq, Eq, Hash)]
pub enum ContentWorld {
    /// The page's own world.
    Page,
    /// The default world for client scripts.
    DefaultClient,
    /// A world of its own, known by name.
    Named(String),
}

impl Default for ContentWorld {
    fn default() -> (world: Self)
        ensures
            world is Page,
    {
        ContentWorld::Page
    }
}

impl ContentWorld {
    /// The encoding the bridge takes for a world: kind 0 for the page, 1 for the default
    /// client world, 2 for a named world together with the C-string text of its name.
    pub fn to_ffi(&self) -> (encoded: (i32, Option<String>))
        ensures
            match self {
                ContentWorld::Page => encoded.0 == 0 && encoded.1 is None,
                ContentWorld::DefaultClient => encoded.0 == 1 && encoded.1 is None,
                ContentWorld::Named(name) => encoded.0 == 2 && (encoded.1 matches Some(text)
                    && text@ == c_string_chars(name@)),
            },
    {
        match self {
            ContentWorld::Page => (0, None),
            ContentWorld::DefaultClient => (1, None),
            ContentWorld::Named(name) => (2, Some(c_string_text(name.as_str()))),
        }
    }
}

} // verus!
