//! The browser's state: the catalog, the filter text, the visible subset,
//! the cursor, the search-mode flag and the status line.

use vstd::prelude::*;
use vstd::string::StringExecFns;
use crate::item::Game;
use crate::text::{
    decimal, decimal_digits, fold_case, folded_name_matches, lower_of, name_matches_spec, pop_char,
    push_char,
};

verus! {

/// The abstract state of an [`App`].
pub struct BrowserView {
    pub items: Seq<Game>,
    pub visible: Seq<Game>,
    pub query: Seq<char>,
    pub searching: bool,
    pub status: Seq<char>,
    pub cursor: Option<usize>,
}

/// The predicate "the name of this game matches `query`".
pub open spec fn matches_query(query: Seq<char>) -> spec_fn(Game) -> bool {
    |g: Game| name_matches_spec(g.name@, query)
}

/// The entries of `items` that a filter shows, in catalog order: every
/// entry for an empty filter, else those whose lowercased name contains the
/// lowercased filter.
pub open spec fn visible_of(items: Seq<Game>, query: Seq<char>) -> Seq<Game> {
    if query.len() == 0 {
        items
    } else {
        items.filter(matches_query(query))
    }
}

/// A cursor is in range when, if it holds an index, that index is inside
/// the list. (`None` can outlive an empty list: rebuilding the list never
/// selects an entry by itself.)
pub open spec fn cursor_in_range(cursor: Option<usize>, len: nat) -> bool {
    match cursor {
        Some(i) => i < len,
        None => true,
    }
}

/// The cursor after the list it points into has been rebuilt with `len`
/// entries: an index past the end goes back to the first entry, or to
/// `None` when the list is empty; anything else is kept.
pub open spec fn repaired(cursor: Option<usize>, len: nat) -> Option<usize> {
    match cursor {
        Some(i) => if i >= len {
            if len == 0 {
                None
            } else {
                Some(0usize)
            }
        } else {
            Some(i)
        },
        None => None,
    }
}

pub open spec fn initial_status() -> Seq<char> {
    "Use '/' to search, 'q' to exit."@
}

pub open spec fn prefix_opened_status() -> Seq<char> {
    "Opened prefix folder."@
}

pub open spec fn game_opened_status() -> Seq<char> {
    "Opened game folder."@
}

pub open spec fn missing_folder_status() -> Seq<char> {
    "Folder does not exist."@
}

impl BrowserView {
    /// The state's invariant: the visible list is the filter's result and
    /// the cursor is in range of it.
    pub open spec fn wf(self) -> bool {
        &&& self.visible == visible_of(self.items, self.query)
        &&& cursor_in_range(self.cursor, self.visible.len())
    }

    /// The initial state over a catalog.
    pub open spec fn initial(items: Seq<Game>) -> BrowserView {
        BrowserView {
            items,
            visible: items,
            query: Seq::empty(),
            searching: false,
            status: initial_status(),
            cursor: if items.len() == 0 {
                None
            } else {
                Some(0usize)
            },
        }
    }

    /// The visible list rebuilt from the filter, and the cursor repaired.
    pub open spec fn refiltered(self) -> BrowserView {
        let visible = visible_of(self.items, self.query);
        BrowserView { visible, cursor: repaired(self.cursor, visible.len()), ..self }
    }

    pub open spec fn entered(self) -> BrowserView {
        BrowserView { searching: true, ..self }
    }

    /// Leaving search mode clears the filter.
    pub open spec fn exited(self) -> BrowserView {
        BrowserView { searching: false, query: Seq::empty(), ..self }.refiltered()
    }

    pub open spec fn appended(self, c: char) -> BrowserView {
        BrowserView { query: self.query.push(c), ..self }.refiltered()
    }

    pub open spec fn removed_last(self) -> BrowserView {
        let query = if self.query.len() == 0 {
            self.query
        } else {
            self.query.drop_last()
        };
        BrowserView { query, ..self }.refiltered()
    }

    /// The cursor one entry down, from the last entry back to the first.
    pub open spec fn moved_next(self) -> BrowserView {
        let len = self.visible.len();
        if len == 0 {
            self
        } else {
            let i: usize = match self.cursor {
                Some(i) => if i + 1 >= len {
                    0usize
                } else {
                    (i + 1) as usize
                },
                None => 0usize,
            };
            BrowserView { cursor: Some(i), ..self }
        }
    }

    /// The cursor one entry up, from the first entry round to the last.
    pub open spec fn moved_previous(self) -> BrowserView {
        let len = self.visible.len();
        if len == 0 {
            self
        } else {
            let i: usize = match self.cursor {
                Some(i) => if i == 0 {
                    (len - 1) as usize
                } else {
                    (i - 1) as usize
                },
                None => 0usize,
            };
            BrowserView { cursor: Some(i), ..self }
        }
    }

    /// Whether opening the selected entry launches the folder opener, given
    /// whether its folder exists.
    pub open spec fn launches(self, folder_exists: bool) -> bool {
        self.cursor.is_some() && folder_exists
    }

    /// The state after opening the selected entry: only the status changes.
    pub open spec fn opened(self, folder_exists: bool) -> BrowserView {
        match self.cursor {
            Some(i) => {
                let status = if !folder_exists {
                    missing_folder_status()
                } else if self.visible[i as int].is_non_steam {
                    prefix_opened_status()
                } else {
                    game_opened_status()
                };
                BrowserView { status, ..self }
            },
            None => self,
        }
    }
}

/// The browser over a catalog of games.
pub struct App {
    items: Vec<Game>,
    filtered_items: Vec<Game>,
    search_query: String,
    in_search_mode: bool,
    status_message: String,
    selected: Option<usize>,
}

impl View for App {
    type V = BrowserView;

    closed spec fn view(&self) -> BrowserView {
        BrowserView {
            items: self.items@,
            visible: self.filtered_items@,
            query: self.search_query@,
            searching: self.in_search_mode,
            status: self.status_message@,
            cursor: self.selected,
        }
    }
}

impl App {
    /// Rebuilds the visible list from the filter text and repairs the cursor.
    pub fn update_filter(&mut self)
        ensures
            final(self)@ == old(self)@.refiltered(),
            final(self)@.wf(),
    {
        let folded_query = fold_case(self.search_query.as_str());
        let show_all = self.search_query.as_str().is_empty();
        let ghost query = self.search_query@;
        let ghost items = self.items@;
        let mut kept: Vec<Game> = Vec::new();
        let mut i: usize = 0;
        while i < self.items.len()
            invariant
                0 <= i <= items.len(),
                items == self.items@,
                query == self.search_query@,
                show_all == (query.len() == 0),
                folded_query@ == lower_of(query),
                kept@ == visible_of(items.subrange(0, i as int), query),
            decreases items.len() - i,
        {
            let g = &self.items[i];
            let keep = show_all || {
                let folded_name = fold_case(g.name.as_str());
                folded_name_matches(folded_name.as_str(), folded_query.as_str())
            };
            if keep {
                kept.push(g.duplicate());
            }
            proof {
                let sub = items.subrange(0, i + 1);
                assert(sub.drop_last() =~= items.subrange(0, i as int));
                assert(sub.last() == items[i as int]);
                if !show_all {
                    reveal(Seq::filter);
                    assert(keep == matches_query(query)(sub.last()));
                } else {
                    assert(sub =~= items.subrange(0, i as int).push(items[i as int]));
                }
            }
            i = i + 1;
        }
        proof {
            assert(items.subrange(0, items.len() as int) =~= items);
        }
        self.filtered_items = kept;
        let len = self.filtered_items.len();
        if let Some(sel) = self.selected {
            if sel >= len {
                self.selected = if len == 0 {
                    None
                } else {
                    Some(0)
                };
            }
        }
    }

    /// A browser over `items`, showing all of them, with the first one
    /// selected when there is one.
    pub fn new(items: Vec<Game>) -> (r: App)
        ensures
            r@ == BrowserView::initial(items@),
            r@.wf(),
    {
        let mut filtered_items: Vec<Game> = Vec::new();
        let mut i: usize = 0;
        while i < items.len()
            invariant
                0 <= i <= items@.len(),
                filtered_items@ == items@.subrange(0, i as int),
            decreases items@.len() - i,
        {
            filtered_items.push(items[i].duplicate());
            proof {
                assert(items@.subrange(0, i + 1) =~= items@.subrange(0, i as int).push(items@[i as int]));
            }
            i = i + 1;
        }
        proof {
            assert(items@.subrange(0, items@.len() as int) =~= items@);
        }
        let selected = if items.len() == 0 {
            None
        } else {
            Some(0)
        };
        App {
            items,
            filtered_items,
            search_query: String::new(),
            in_search_mode: false,
            status_message: String::from_str("Use '/' to search, 'q' to exit."),
            selected,
        }
    }

    /// Switches to search mode; nothing else changes.
    pub fn enter_search_mode(&mut self)
        ensures
            final(self)@ == old(self)@.entered(),
    {
        self.in_search_mode = true;
    }

    /// Leaves search mode, clears the filter and shows the whole catalog.
    pub fn exit_search_mode(&mut self)
        ensures
            final(self)@ == old(self)@.exited(),
            final(self)@.wf(),
    {
        self.in_search_mode = false;
        self.search_query = String::new();
        self.update_filter();
    }

    /// Adds a character at the end of the filter text and refilters.
    pub fn append_char(&mut self, c: char)
        ensures
            final(self)@ == old(self)@.appended(c),
            final(self)@.wf(),
    {
        push_char(&mut self.search_query, c);
        self.update_filter();
    }

    /// Removes the filter text's last character, if any, and refilters.
    pub fn remove_last_char(&mut self)
        ensures
            final(self)@ == old(self)@.removed_last(),
            final(self)@.wf(),
    {
        let _ = pop_char(&mut self.search_query);
        self.update_filter();
    }

    /// Moves the cursor one entry down, wrapping from the last entry to the
    /// first; does nothing on an empty list.
    pub fn next(&mut self)
        requires
            old(self)@.wf(),
        ensures
            final(self)@ == old(self)@.moved_next(),
            final(self)@.wf(),
    {
        let len = self.filtered_items.len();
        if len == 0 {
            return;
        }
        let i = match self.selected {
            Some(i) => if i >= len - 1 {
                0
            } else {
                i + 1
            },
            None => 0,
        };
        self.selected = Some(i);
    }

    /// Moves the cursor one entry up, wrapping from the first entry to the
    /// last; does nothing on an empty list.
    pub fn previous(&mut self)
        requires
            old(self)@.wf(),
        ensures
            final(self)@ == old(self)@.moved_previous(),
            final(self)@.wf(),
    {
        let len = self.filtered_items.len();
        if len == 0 {
            return;
        }
        let i = match self.selected {
            Some(i) => if i == 0 {
                len - 1
            } else {
                i - 1
            },
            None => 0,
        };
        self.selected = Some(i);
    }

    /// Opens the selected entry, given whether its folder exists: sets the
    /// status line, and returns the folder to hand to the opener when there
    /// is a selection and its folder exists.
    pub fn open_selected(&mut self, folder_exists: bool) -> (r: Option<String>)
        requires
            old(self)@.wf(),
        ensures
            final(self)@ == old(self)@.opened(folder_exists),
            final(self)@.wf(),
            r.is_some() == old(self)@.launches(folder_exists),
            r matches Some(p) ==> p@ == old(self)@.visible[old(self)@.cursor.unwrap() as int].path@,
    {
        match self.selected {
            Some(i) => {
                if folder_exists {
                    let g = &self.filtered_items[i];
                    let path = g.path.clone();
                    self.status_message = if g.is_non_steam {
                        String::from_str("Opened prefix folder.")
                    } else {
                        String::from_str("Opened game folder.")
                    };
                    Some(path)
                } else {
                    self.status_message = String::from_str("Folder does not exist.");
                    None
                }
            },
            None => None,
        }
    }

    pub fn items(&self) -> (r: &Vec<Game>)
        ensures
            r@ == self@.items,
    {
        &self.items
    }

    pub fn filtered_items(&self) -> (r: &Vec<Game>)
        ensures
            r@ == self@.visible,
    {
        &self.filtered_items
    }

    pub fn search_query(&self) -> (r: &str)
        ensures
            r@ == self@.query,
    {
        self.search_query.as_str()
    }

    pub fn in_search_mode(&self) -> (r: bool)
        ensures
            r == self@.searching,
    {
        self.in_search_mode
    }

    pub fn status_message(&self) -> (r: &str)
        ensures
            r@ == self@.status,
    {
        self.status_message.as_str()
    }

    pub fn selected(&self) -> (r: Option<usize>)
        ensures
            r == self@.cursor,
    {
        self.selected
    }

    /// The folder of the selected entry, if there is a selection.
    pub fn selected_path(&self) -> (r: Option<String>)
        requires
            self@.wf(),
        ensures
            r.is_some() == self@.cursor.is_some(),
            r matches Some(p) ==> p@ == self@.visible[self@.cursor.unwrap() as int].path@,
    {
        match self.selected {
            Some(i) => Some(self.filtered_items[i].path.clone()),
            None => None,
        }
    }

    /// The title of the search field, which tells which mode is on.
    pub fn search_title(&self) -> (r: &'static str)
        ensures
            r@ == search_title_spec(self@.searching),
    {
        if self.in_search_mode {
            "Search (type to search, Enter to exit)"
        } else {
            "Search (press '/' to enter search mode)"
        }
    }

    /// The content of the search field: the filter text, or a placeholder
    /// when it is empty outside search mode.
    pub fn search_text(&self) -> (r: String)
        ensures
            r@ == search_text_spec(self@.query, self@.searching),
    {
        if self.search_query.as_str().is_empty() && !self.in_search_mode {
            String::from_str("No search query")
        } else {
            self.search_query.clone()
        }
    }

    /// The title of the list, with the visible and the total count.
    pub fn list_title(&self) -> (r: String)
        ensures
            r@ == list_title_spec(self@.visible.len(), self@.items.len()),
    {
        let mut r = String::from_str("Games (");
        let shown = decimal(self.filtered_items.len() as u64);
        r.append(shown.as_str());
        r.append("/");
        let total = decimal(self.items.len() as u64);
        r.append(total.as_str());
        r.append(", \u{2191}/\u{2193} to navigate, Enter to open, q to quit)");
        r
    }
}

pub open spec fn search_title_spec(searching: bool) -> Seq<char> {
    if searching {
        "Search (type to search, Enter to exit)"@
    } else {
        "Search (press '/' to enter search mode)"@
    }
}

pub open spec fn search_text_spec(query: Seq<char>, searching: bool) -> Seq<char> {
    if query.len() == 0 && !searching {
        "No search query"@
    } else {
        query
    }
}

pub open spec fn list_title_spec(shown: nat, total: nat) -> Seq<char> {
    "Games ("@ + decimal_digits(shown) + "/"@ + decimal_digits(total)
        + ", \u{2191}/\u{2193} to navigate, Enter to open, q to quit)"@
}

} // verus!
