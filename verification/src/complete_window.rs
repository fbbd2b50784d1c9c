//! The completion window: one editable buffer and at most one background
//! task that generates into it.
//!
//! The window never runs anything itself. Each thing that happens to it (a
//! frame is drawn, a button is clicked, the task ends) is an [`Event`]; the
//! window answers with its next state and an [`Action`] for the caller to
//! perform. While a task is outstanding, or while published text is still
//! being mirrored, the buffer is read-only and no new task can be started.

use vstd::prelude::*;
use crate::session::{join_published, published_text, text_of};

verus! {

/// The work that a window asks its caller to run in the background.
#[derive(Debug, Clone, Copy, PartialEq, Eq, Structural)]
pub enum Request {
    /// Continue the prompt.
    Generate,
    /// Generate at the given character offset of the prompt.
    Insert(usize),
}

/// How a background task ended.
#[derive(Debug, Clone, PartialEq, Eq)]
pub enum Outcome {
    /// The task produced the new text of the buffer.
    Completed(String),
    /// The task failed or was cancelled; there is no text.
    Failed,
}

/// Something that happens to a window.
#[derive(Debug, Clone, PartialEq, Eq)]
pub enum Event {
    /// A frame begins; the fields are what the session publishes right now.
    Frame { pending: Option<String>, suffix: Option<String> },
    /// The outstanding task was found finished and its result was fetched.
    Finished(Outcome),
    /// The user asks for a completion.
    Generate,
    /// The user asks for an insertion at the cursor.
    Insert,
    /// The user asks to cancel the outstanding task.
    Abort,
    /// The user changed the buffer to the given text.
    Edited(String),
    /// The editor reports its focus and where its caret stands.
    Focus { has_focus: bool, lost_focus: bool, caret: Option<usize> },
    /// The user switched markup rendering on or off.
    Markdown(bool),
}

/// What the caller has to do after an event.
#[derive(Debug, Clone, PartialEq, Eq)]
pub enum Action {
    /// Nothing.
    Nothing,
    /// Draw another frame soon: the window is waiting for something.
    Repaint,
    /// Start the given work in the background and keep its handle.
    Spawn(Request),
    /// Cancel the task whose handle is kept, drop the handle, and commit
    /// the published text of the session as its prompt.
    Cancel,
    /// Store the given text as the prompt of the session.
    SetPrompt(String),
}

/// An [`Outcome`] as a mathematical value.
pub enum OutcomeView {
    Completed(Seq<char>),
    Failed,
}

/// An [`Event`] as a mathematical value.
pub enum EventView {
    Frame { pending: Option<Seq<char>>, suffix: Option<Seq<char>> },
    Finished(OutcomeView),
    Generate,
    Insert,
    Abort,
    Edited(Seq<char>),
    Focus { has_focus: bool, lost_focus: bool, caret: Option<usize> },
    Markdown(bool),
}

/// An [`Action`] as a mathematical value.
pub enum ActionView {
    Nothing,
    Repaint,
    Spawn(Request),
    Cancel,
    SetPrompt(Seq<char>),
}

impl View for Outcome {
    type V = OutcomeView;

    open spec fn view(&self) -> OutcomeView {
        match *self {
            Outcome::Completed(text) => OutcomeView::Completed(text@),
            Outcome::Failed => OutcomeView::Failed,
        }
    }
}

impl View for Event {
    type V = EventView;

    open spec fn view(&self) -> EventView {
        match *self {
            Event::Frame { pending, suffix } => EventView::Frame {
                pending: text_of(pending),
                suffix: text_of(suffix),
            },
            Event::Finished(outcome) => EventView::Finished(outcome@),
            Event::Generate => EventView::Generate,
            Event::Insert => EventView::Insert,
            Event::Abort => EventView::Abort,
            Event::Edited(text) => EventView::Edited(text@),
            Event::Focus { has_focus, lost_focus, caret } => EventView::Focus {
                has_focus,
                lost_focus,
                caret,
            },
            Event::Markdown(on) => EventView::Markdown(on),
        }
    }
}

impl View for Action {
    type V = ActionView;

    open spec fn view(&self) -> ActionView {
        match *self {
            Action::Nothing => ActionView::Nothing,
            Action::Repaint => ActionView::Repaint,
            Action::Spawn(request) => ActionView::Spawn(request),
            Action::Cancel => ActionView::Cancel,
            Action::SetPrompt(text) => ActionView::SetPrompt(text@),
        }
    }
}

/// A completion window as a mathematical value.
pub struct WindowState {
    /// The title of the window.
    pub name: Seq<char>,
    /// The text buffer.
    pub text: Seq<char>,
    /// Whether a background task is outstanding.
    pub task: bool,
    /// Whether the session published pending text when the last frame began.
    pub mirroring: bool,
    /// Whether the buffer is rendered as lightweight markup.
    pub markdown: bool,
    /// Where the caret stands, while the editor has the focus.
    pub cursor: Option<usize>,
    /// Whether the editor has the focus.
    pub focused: bool,
}

impl WindowState {
    /// The window is idle: no task is outstanding and nothing is mirrored.
    /// Only then can the buffer be edited and a task be started.
    pub open spec fn ready(self) -> bool {
        !self.task && !self.mirroring
    }

    /// A window as it is created for a session with the given prompt.
    pub open spec fn fresh(name: Seq<char>, prompt: Seq<char>) -> WindowState {
        WindowState {
            name,
            text: prompt,
            task: false,
            mirroring: false,
            markdown: true,
            cursor: None,
            focused: false,
        }
    }

    /// A frame begins: published text replaces the buffer.
    pub open spec fn after_frame(
        self,
        pending: Option<Seq<char>>,
        suffix: Option<Seq<char>>,
    ) -> WindowState {
        WindowState {
            text: match pending {
                Some(p) => published_text(p, suffix),
                None => self.text,
            },
            mirroring: pending.is_some(),
            ..self
        }
    }

    /// The outstanding task has ended: its text, if it has one, replaces the
    /// buffer. Without an outstanding task nothing is consumed.
    pub open spec fn after_finished(self, outcome: OutcomeView) -> WindowState {
        if self.task {
            WindowState {
                text: match outcome {
                    OutcomeView::Completed(text) => text,
                    OutcomeView::Failed => self.text,
                },
                task: false,
                ..self
            }
        } else {
            self
        }
    }

    /// The request that `Event::Generate` or `Event::Insert` starts, if any.
    pub open spec fn started(self, insert: bool) -> Option<Request> {
        if !self.ready() {
            None
        } else if !insert {
            Some(Request::Generate)
        } else {
            match self.cursor {
                Some(at) => Some(Request::Insert(at)),
                None => None,
            }
        }
    }

    /// The user asks for work: a ready window gets an outstanding task.
    pub open spec fn after_start(self, insert: bool) -> WindowState {
        if self.started(insert).is_some() {
            WindowState { task: true, ..self }
        } else {
            self
        }
    }

    /// The user cancels: the task, if there is one, is no longer outstanding.
    pub open spec fn after_abort(self) -> WindowState {
        WindowState { task: false, ..self }
    }

    /// The user edits: a ready window takes the new text.
    pub open spec fn after_edit(self, text: Seq<char>) -> WindowState {
        if self.ready() {
            WindowState { text, ..self }
        } else {
            self
        }
    }

    /// The editor reports focus and caret: losing the focus wins over having
    /// it, and the cursor is known only while the editor is focused.
    pub open spec fn after_focus(
        self,
        has_focus: bool,
        lost_focus: bool,
        caret: Option<usize>,
    ) -> WindowState {
        let focused = !lost_focus && (has_focus || self.focused);
        WindowState { focused, cursor: if focused { caret } else { None }, ..self }
    }

    /// The window after `event`.
    pub open spec fn next(self, event: EventView) -> WindowState {
        match event {
            EventView::Frame { pending, suffix } => self.after_frame(pending, suffix),
            EventView::Finished(outcome) => self.after_finished(outcome),
            EventView::Generate => self.after_start(false),
            EventView::Insert => self.after_start(true),
            EventView::Abort => self.after_abort(),
            EventView::Edited(text) => self.after_edit(text),
            EventView::Focus { has_focus, lost_focus, caret } => self.after_focus(
                has_focus,
                lost_focus,
                caret,
            ),
            EventView::Markdown(on) => WindowState { markdown: on, ..self },
        }
    }

    /// What the window asks of its caller in answer to `event`.
    pub open spec fn response(self, event: EventView) -> ActionView {
        match event {
            EventView::Frame { pending, suffix } => if pending.is_some() || self.task {
                ActionView::Repaint
            } else {
                ActionView::Nothing
            },
            EventView::Generate => match self.started(false) {
                Some(request) => ActionView::Spawn(request),
                None => ActionView::Nothing,
            },
            EventView::Insert => match self.started(true) {
                Some(request) => ActionView::Spawn(request),
                None => ActionView::Nothing,
            },
            EventView::Abort => if self.task {
                ActionView::Cancel
            } else {
                ActionView::Nothing
            },
            EventView::Edited(text) => if self.ready() {
                ActionView::SetPrompt(text)
            } else {
                ActionView::Nothing
            },
            _ => ActionView::Nothing,
        }
    }
}

/// The window of one completion session.
pub struct CompleteWindow {
    window_name: String,
    text: String,
    task: bool,
    mirroring: bool,
    enable_markdown: bool,
    cursor_index: Option<usize>,
    focused: bool,
}

impl View for CompleteWindow {
    type V = WindowState;

    closed spec fn view(&self) -> WindowState {
        WindowState {
            name: self.window_name@,
            text: self.text@,
            task: self.task,
            mirroring: self.mirroring,
            markdown: self.enable_markdown,
            cursor: self.cursor_index,
            focused: self.focused,
        }
    }
}

impl CompleteWindow {
    /// A window titled `window_name` whose buffer starts as `prompt`, the
    /// prompt of its session. It is idle, renders markup and has no cursor.
    pub fn new(window_name: String, prompt: String) -> (window: CompleteWindow)
        ensures
            window@ == WindowState::fresh(window_name@, prompt@),
            window@.ready(),
    {
        CompleteWindow {
            window_name,
            text: prompt,
            task: false,
            mirroring: false,
            enable_markdown: true,
            cursor_index: None,
            focused: false,
        }
    }

    /// The title of the window.
    pub fn name(&self) -> (name: &str)
        ensures
            name@ == self@.name,
    {
        self.window_name.as_str()
    }

    /// The text buffer.
    pub fn text(&self) -> (text: &str)
        ensures
            text@ == self@.text,
    {
        self.text.as_str()
    }

    /// Whether a background task is outstanding.
    pub fn has_task(&self) -> (pending: bool)
        ensures
            pending == self@.task,
    {
        self.task
    }

    /// Whether the window is idle, so that the buffer can be edited and a
    /// task can be started.
    pub fn is_ready(&self) -> (ready: bool)
        ensures
            ready == self@.ready(),
    {
        !self.task && !self.mirroring
    }

    /// Whether the buffer is rendered as lightweight markup.
    pub fn markdown(&self) -> (on: bool)
        ensures
            on == self@.markdown,
    {
        self.enable_markdown
    }

    /// Where the caret stands, while the editor has the focus.
    pub fn cursor_index(&self) -> (cursor: Option<usize>)
        ensures
            cursor == self@.cursor,
    {
        self.cursor_index
    }

    /// Whether the editor has the focus.
    pub fn focused(&self) -> (focused: bool)
        ensures
            focused == self@.focused,
    {
        self.focused
    }

    /// Begins a frame with what the session publishes. Pending text, with
    /// the suffix behind it, replaces the buffer. Returns whether another
    /// frame is wanted soon, which is so while anything is pending.
    pub fn begin_frame(&mut self, pending: Option<String>, suffix: Option<String>) -> (repaint:
        bool)
        ensures
            final(self)@ == old(self)@.after_frame(text_of(pending), text_of(suffix)),
            repaint == (pending.is_some() || old(self)@.task),
            repaint == !final(self)@.ready(),
    {
        match pending {
            Some(published) => {
                self.text = join_published(&published, &suffix);
                self.mirroring = true;
            },
            None => {
                self.mirroring = false;
            },
        }
        self.task || self.mirroring
    }

    /// Consumes the result of the outstanding task and forgets the task. On
    /// success the buffer is the task's text; on failure it stays as it is.
    /// Returns whether a task was outstanding; if none was, nothing changes.
    pub fn finish_task(&mut self, outcome: Outcome) -> (consumed: bool)
        ensures
            final(self)@ == old(self)@.after_finished(outcome@),
            consumed == old(self)@.task,
            !final(self)@.task,
    {
        if !self.task {
            return false;
        }
        self.task = false;
        match outcome {
            Outcome::Completed(text) => {
                self.text = text;
            },
            Outcome::Failed => {},
        }
        true
    }

    /// Asks for a completion. An idle window returns the request to run and
    /// counts its task as outstanding; any other window refuses with `None`
    /// and stays as it is.
    pub fn request_generate(&mut self) -> (request: Option<Request>)
        ensures
            final(self)@ == old(self)@.after_start(false),
            request == old(self)@.started(false),
            request.is_some() <==> old(self)@.ready(),
    {
        if self.task || self.mirroring {
            return None;
        }
        self.task = true;
        Some(Request::Generate)
    }

    /// Asks for an insertion at the cursor. An idle window that knows its
    /// cursor returns the request to run and counts its task as outstanding;
    /// any other window refuses with `None` and stays as it is.
    pub fn request_insert(&mut self) -> (request: Option<Request>)
        ensures
            final(self)@ == old(self)@.after_start(true),
            request == old(self)@.started(true),
            request.is_some() <==> old(self)@.ready() && old(self)@.cursor.is_some(),
    {
        if self.task || self.mirroring {
            return None;
        }
        match self.cursor_index {
            Some(at) => {
                self.task = true;
                Some(Request::Insert(at))
            },
            None => None,
        }
    }

    /// Cancels the outstanding task. Returns whether there was one: the
    /// caller then cancels the work, drops its handle and commits the text
    /// published so far. The window no longer waits for a result.
    pub fn abort(&mut self) -> (cancelled: bool)
        ensures
            final(self)@ == old(self)@.after_abort(),
            cancelled == old(self)@.task,
            !final(self)@.task,
    {
        let cancelled = self.task;
        self.task = false;
        cancelled
    }

    /// Takes an edit of the buffer. An idle window stores `text` and returns
    /// a copy of it to be set as the prompt; any other window is read-only,
    /// returns `None` and stays as it is.
    pub fn edit(&mut self, text: String) -> (prompt: Option<String>)
        ensures
            final(self)@ == old(self)@.after_edit(text@),
            text_of(prompt) == if old(self)@.ready() {
                Some(text@)
            } else {
                None
            },
    {
        if self.task || self.mirroring {
            return None;
        }
        let prompt = text.clone();
        self.text = text;
        Some(prompt)
    }

    /// Records what the editor reports after it was drawn: whether it has
    /// the focus, whether it just lost it, and where its caret stands.
    pub fn track_focus(&mut self, has_focus: bool, lost_focus: bool, caret: Option<usize>)
        ensures
            final(self)@ == old(self)@.after_focus(has_focus, lost_focus, caret),
    {
        if has_focus {
            self.focused = true;
        }
        if lost_focus {
            self.focused = false;
        }
        self.cursor_index = if self.focused {
            caret
        } else {
            None
        };
    }

    /// Switches markup rendering on or off.
    pub fn set_markdown(&mut self, on: bool)
        ensures
            final(self)@ == (WindowState { markdown: on, ..old(self)@ }),
    {
        self.enable_markdown = on;
    }

    /// Applies one event and returns what the caller has to do.
    pub fn step(&mut self, event: Event) -> (action: Action)
        ensures
            final(self)@ == old(self)@.next(event@),
            action@ == old(self)@.response(event@),
    {
        match event {
            Event::Frame { pending, suffix } => {
                if self.begin_frame(pending, suffix) {
                    Action::Repaint
                } else {
                    Action::Nothing
                }
            },
            Event::Finished(outcome) => {
                self.finish_task(outcome);
                Action::Nothing
            },
            Event::Generate => match self.request_generate() {
                Some(request) => Action::Spawn(request),
                None => Action::Nothing,
            },
            Event::Insert => match self.request_insert() {
                Some(request) => Action::Spawn(request),
                None => Action::Nothing,
            },
            Event::Abort => {
                if self.abort() {
                    Action::Cancel
                } else {
                    Action::Nothing
                }
            },
            Event::Edited(text) => match self.edit(text) {
                Some(prompt) => Action::SetPrompt(prompt),
                None => Action::Nothing,
            },
            Event::Focus { has_focus, lost_focus, caret } => {
                self.track_focus(has_focus, lost_focus, caret);
                Action::Nothing
            },
            Event::Markdown(on) => {
                self.set_markdown(on);
                Action::Nothing
            },
        }
    }
}

} // verus!
