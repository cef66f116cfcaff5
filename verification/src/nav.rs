//! Frontend navigation state: input modes, tabs, and wrapping list
//! selection arithmetic.

use vstd::prelude::*;

verus! {

/// How keystrokes are interpreted.
#[derive(Debug, Clone, Copy, PartialEq, Eq, Structural)]
pub enum InputMode {
    Normal,
    Search,
    Settings,
}

/// The active tab of the frontend.
#[derive(Debug, Clone, Copy, PartialEq, Eq, Structural)]
pub enum Tab {
    Browse,
    Downloads,
    History,
    Settings,
}

impl Tab {
    /// The tab to the right, wrapping around.
    pub fn next(&self) -> (r: Self)
        ensures
            r == match *self {
                Tab::Browse => Tab::Downloads,
                Tab::Downloads => Tab::History,
                Tab::History => Tab::Settings,
                Tab::Settings => Tab::Browse,
            },
    {
        match self {
            Tab::Browse => Tab::Downloads,
            Tab::Downloads => Tab::History,
            Tab::History => Tab::Settings,
            Tab::Settings => Tab::Browse,
        }
    }

    /// The tab to the left, wrapping around.
    pub fn previous(&self) -> (r: Self)
        ensures
            r == match *self {
                Tab::Browse => Tab::Settings,
                Tab::Downloads => Tab::Browse,
                Tab::History => Tab::Downloads,
                Tab::Settings => Tab::History,
            },
    {
        match self {
            Tab::Browse => Tab::Settings,
            Tab::Downloads => Tab::Browse,
            Tab::History => Tab::Downloads,
            Tab::Settings => Tab::History,
        }
    }
}

/// The selection one step down a list of `len` items: the next index,
/// wrapping to the top; the first item when nothing is selected yet.
pub fn next_selection(cur: Option<usize>, len: usize) -> (r: usize)
    requires
        len > 0,
        cur matches Some(i) ==> i < len,
    ensures
        r as int == match cur {
            Option::Some(i) => (i as int + 1) % (len as int),
            Option::None => 0,
        },
        r < len,
{
    match cur {
        Option::Some(i) => (i + 1) % len,
        Option::None => 0,
    }
}

/// The selection one step up a list of `len` items: the previous index,
/// wrapping to the bottom; the first item when nothing is selected yet.
pub fn previous_selection(cur: Option<usize>, len: usize) -> (r: usize)
    requires
        len > 0,
        cur matches Some(i) ==> i < len,
    ensures
        r as int == match cur {
            Option::Some(i) => if i == 0 {
                len - 1
            } else {
                i - 1
            },
            Option::None => 0,
        },
        r < len,
{
    match cur {
        Option::Some(i) => if i == 0 {
            len - 1
        } else {
            i - 1
        },
        Option::None => 0,
    }
}

} // verus!
