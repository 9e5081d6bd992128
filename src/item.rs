//! One browsable entry of the catalog.

use vstd::prelude::*;
use vstd::string::StringExecFns;
use crate::text::{decimal, decimal_digits};

verus! {

/// A game found at startup. `is_non_steam` marks an entry added as a
/// shortcut, whose folder is its compatibility prefix rather than its
/// install directory.
pub struct Game {
    pub name: String,
    pub app_id: u32,
    pub is_non_steam: bool,
    pub path: String,
}

/// The text shown in front of a shortcut entry's name.
pub open spec fn label_prefix(is_non_steam: bool) -> Seq<char> {
    if is_non_steam {
        "Non-Steam: "@
    } else {
        ""@
    }
}

/// The list row of an entry: `{prefix}{name} (App ID: {app_id})`.
pub open spec fn row_label_spec(g: Game) -> Seq<char> {
    label_prefix(g.is_non_steam) + g.name@ + " (App ID: "@ + decimal_digits(g.app_id as nat) + ")"@
}

impl Game {
    pub fn new(name: String, app_id: u32, is_non_steam: bool, path: String) -> (r: Game)
        ensures
            r == (Game { name, app_id, is_non_steam, path }),
    {
        Game { name, app_id, is_non_steam, path }
    }

    /// A field-by-field copy.
    pub fn duplicate(&self) -> (r: Game)
        ensures
            r == *self,
    {
        Game {
            name: self.name.clone(),
            app_id: self.app_id,
            is_non_steam: self.is_non_steam,
            path: self.path.clone(),
        }
    }

    /// The row text that the list shows for this entry.
    pub fn row_label(&self) -> (r: String)
        ensures
            r@ == row_label_spec(*self),
    {
        let mut r = if self.is_non_steam {
            String::from_str("Non-Steam: ")
        } else {
            String::from_str("")
        };
        r.append(self.name.as_str());
        r.append(" (App ID: ");
        let id = decimal(self.app_id as u64);
        r.append(id.as_str());
        r.append(")");
        r
    }
}

} // verus!
