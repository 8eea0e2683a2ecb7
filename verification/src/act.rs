//! The `act` module provides the `Act` enum for encapsulating action
//! handling: keyboard events resolve to variants of `Act`, and the session
//! dispatches a handler by matching on the variant.

use vstd::prelude::*;

verus! {

/// The closed set of user intents the application can execute.  `Act` values
/// are used both as dispatch keys and as binding-table values.  Exactly one
/// variant (`Be`) is the default, applied whenever no other intent fits.
#[derive(Debug, Clone, Copy, PartialEq, Eq, PartialOrd, Ord, Hash, Structural)]
pub enum Act {
    /// The user would like to close the current window.
    CloseWindow,
    /// The user would like to end the session, closing every window.
    Exit,
    /// The user would like to create a new window.
    NewWindow,
    /// Do nothing.
    Be,
}

impl Act {
    /// The Title-case display name of the variant, for user consumption.
    pub open spec fn title_spec(self) -> Seq<char> {
        match self {
            Act::CloseWindow => "Close Window"@,
            Act::Exit => "Exit"@,
            Act::NewWindow => "New Window"@,
            Act::Be => "Be"@,
        }
    }

    /// The snake-case name of the variant: the canonical key under which a
    /// configuration source binds a trigger key to this action.
    pub open spec fn snake_spec(self) -> Seq<char> {
        match self {
            Act::CloseWindow => "close_window"@,
            Act::Exit => "exit"@,
            Act::NewWindow => "new_window"@,
            Act::Be => "be"@,
        }
    }

    /// The fixed order in which the catalog of variants is walked when a
    /// binding table is built.
    pub open spec fn catalog_spec() -> Seq<Act> {
        seq![Act::CloseWindow, Act::Exit, Act::NewWindow, Act::Be]
    }

    /// Converts the variant name to `Title` case, a display name for user
    /// consumption.
    pub fn title(&self) -> (r: String)
        ensures
            r@ == self.title_spec(),
    {
        match self {
            Act::CloseWindow => "Close Window".to_owned(),
            Act::Exit => "Exit".to_owned(),
            Act::NewWindow => "New Window".to_owned(),
            Act::Be => "Be".to_owned(),
        }
    }

    /// Converts the variant name to `snake` case, the form expected as a key
    /// in the configuration source.
    pub fn snake(&self) -> (r: String)
        ensures
            r@ == self.snake_spec(),
    {
        match self {
            Act::CloseWindow => "close_window".to_owned(),
            Act::Exit => "exit".to_owned(),
            Act::NewWindow => "new_window".to_owned(),
            Act::Be => "be".to_owned(),
        }
    }

    /// Every variant, in catalog order.
    pub fn catalog() -> (r: Vec<Act>)
        ensures
            r@ == Act::catalog_spec(),
    {
        let mut v: Vec<Act> = Vec::new();
        v.push(Act::CloseWindow);
        v.push(Act::Exit);
        v.push(Act::NewWindow);
        v.push(Act::Be);
        proof {
            assert(v@ =~= Act::catalog_spec());
        }
        v
    }
}

impl Default for Act {
    /// The default intent is to do nothing.
    fn default() -> (r: Self)
        ensures
            r == Act::Be,
    {
        Act::Be
    }
}

} // verus!
