//! The application shell: which conversation window is active, whether the
//! session list is expanded, and which auxiliary panels are open.

use vstd::prelude::*;

verus! {

/// What the session list reports after it was drawn.
pub enum ListResponse<W> {
    /// The user picked a session; this is its window.
    Select(W),
    /// The user removed the active session.
    Remove,
    /// Nothing happened.
    Nothing,
}

/// The shell as a mathematical value.
pub struct ShellState<W> {
    /// The active conversation window, if there is one.
    pub window: Option<W>,
    /// For each auxiliary panel, in order, whether it is open.
    pub panels: Seq<bool>,
    /// Whether the session list is expanded.
    pub expand_list: bool,
}

impl<W> ShellState<W> {
    /// The shell after the session list reported `response`.
    pub open spec fn after_list(self, response: ListResponse<W>) -> ShellState<W> {
        match response {
            ListResponse::Select(window) => ShellState { window: Some(window), ..self },
            ListResponse::Remove => ShellState { window: None, ..self },
            ListResponse::Nothing => self,
        }
    }

    /// The shell with panel `index` set to `open`; an index that names no
    /// panel changes nothing.
    pub open spec fn with_panel(self, index: int, open: bool) -> ShellState<W> {
        if 0 <= index < self.panels.len() {
            ShellState { panels: self.panels.update(index, open), ..self }
        } else {
            self
        }
    }

    /// The shell with panel `index` switched over.
    pub open spec fn toggled(self, index: int) -> ShellState<W> {
        if 0 <= index < self.panels.len() {
            self.with_panel(index, !self.panels[index])
        } else {
            self
        }
    }
}

/// The application shell. `W` is the type of a conversation window.
pub struct ChatApp<W> {
    window: Option<W>,
    widgets: Vec<bool>,
    expand_list: bool,
}

impl<W> View for ChatApp<W> {
    type V = ShellState<W>;

    closed spec fn view(&self) -> ShellState<W> {
        ShellState { window: self.window, panels: self.widgets@, expand_list: self.expand_list }
    }
}

impl<W> ChatApp<W> {
    /// A shell without an active window, with the session list expanded and
    /// with one auxiliary panel, the log, which is open in debug builds only.
    pub fn new(debug: bool) -> (app: ChatApp<W>)
        ensures
            app@ == (ShellState::<W> { window: None, panels: seq![debug], expand_list: true }),
    {
        let mut widgets: Vec<bool> = Vec::new();
        widgets.push(debug);
        proof {
            assert(widgets@ =~= seq![debug]);
        }
        ChatApp { window: None, widgets, expand_list: true }
    }

    /// The active conversation window.
    pub fn window(&self) -> (window: Option<&W>)
        ensures
            window == match self@.window {
                Some(w) => Some(&w),
                None => None,
            },
    {
        self.window.as_ref()
    }

    /// The active conversation window, to draw it and let it change.
    pub fn window_mut(&mut self) -> (window: Option<&mut W>)
        ensures
            match window {
                Some(w) => old(self)@.window == Some(*w) && final(self)@ == (ShellState {
                    window: Some(*final(w)),
                    ..old(self)@
                }),
                None => old(self)@.window.is_none() && final(self)@ == old(self)@,
            },
    {
        self.window.as_mut()
    }

    /// Whether a conversation window is active. Where none is, the shell
    /// shows the invitation to create a chat.
    pub fn has_window(&self) -> (active: bool)
        ensures
            active == self@.window.is_some(),
    {
        self.window.is_some()
    }

    /// Whether the session list is expanded.
    pub fn list_expanded(&self) -> (expanded: bool)
        ensures
            expanded == self@.expand_list,
    {
        self.expand_list
    }

    /// The number of auxiliary panels.
    pub fn panel_count(&self) -> (count: usize)
        ensures
            count == self@.panels.len(),
    {
        self.widgets.len()
    }

    /// Whether panel `index` is open; `false` where there is no such panel.
    pub fn panel_open(&self, index: usize) -> (open: bool)
        ensures
            open == (index < self@.panels.len() && self@.panels[index as int]),
    {
        index < self.widgets.len() && self.widgets[index]
    }

    /// Expands the session list if it is collapsed, collapses it if not.
    pub fn toggle_list(&mut self)
        ensures
            final(self)@ == (ShellState { expand_list: !old(self)@.expand_list, ..old(self)@ }),
    {
        self.expand_list = !self.expand_list;
    }

    /// Opens panel `index` if it is closed, closes it if it is open. Returns
    /// whether there is such a panel; where there is none, nothing changes.
    pub fn toggle_panel(&mut self, index: usize) -> (found: bool)
        ensures
            final(self)@ == old(self)@.toggled(index as int),
            found == (index < old(self)@.panels.len()),
    {
        if index < self.widgets.len() {
            let open = self.widgets[index];
            self.widgets.set(index, !open);
            true
        } else {
            false
        }
    }

    /// Records whether panel `index` is open, as the panel left it after it
    /// was drawn. Returns whether there is such a panel; where there is
    /// none, nothing changes.
    pub fn set_panel_open(&mut self, index: usize, open: bool) -> (found: bool)
        ensures
            final(self)@ == old(self)@.with_panel(index as int, open),
            found == (index < old(self)@.panels.len()),
    {
        if index < self.widgets.len() {
            self.widgets.set(index, open);
            true
        } else {
            false
        }
    }

    /// Adds an auxiliary panel behind the others and returns its index.
    pub fn add_panel(&mut self, open: bool) -> (index: usize)
        ensures
            final(self)@ == (ShellState { panels: old(self)@.panels.push(open), ..old(self)@ }),
            index == old(self)@.panels.len(),
    {
        let index = self.widgets.len();
        self.widgets.push(open);
        index
    }

    /// Routes what the session list reported: a selected window becomes the
    /// active one, a removal leaves none, and anything else changes nothing.
    pub fn handle_list(&mut self, response: ListResponse<W>)
        ensures
            final(self)@ == old(self)@.after_list(response),
    {
        match response {
            ListResponse::Select(window) => {
                self.window = Some(window);
            },
            ListResponse::Remove => {
                self.window = None;
            },
            ListResponse::Nothing => {},
        }
    }
}

/// The point size of the heading of the given level, one to six.
pub open spec fn spec_heading_size(level: u8) -> Option<u8> {
    if level == 1 {
        Some(36u8)
    } else if level == 2 {
        Some(24u8)
    } else if level == 3 {
        Some(21u8)
    } else if level == 4 {
        Some(18u8)
    } else if level == 5 {
        Some(16u8)
    } else if level == 6 {
        Some(14u8)
    } else {
        None
    }
}

/// The point size in which the heading of the given level is set. There are
/// six levels, from one, the largest, to six.
pub fn heading_size(level: u8) -> (size: Option<u8>)
    ensures
        size == spec_heading_size(level),
        size.is_some() <==> 1 <= level <= 6,
{
    match level {
        1 => Some(36),
        2 => Some(24),
        3 => Some(21),
        4 => Some(18),
        5 => Some(16),
        6 => Some(14),
        _ => None,
    }
}

/// A deeper heading is set smaller.
pub proof fn law_headings_shrink(upper: u8, lower: u8)
    requires
        1 <= upper < lower <= 6,
    ensures
        spec_heading_size(upper).unwrap() > spec_heading_size(lower).unwrap(),
{
}

} // verus!
