//! The state of one completion session, as the window and its worker share it.
//!
//! A worker publishes the text it has produced so far in the pending buffer.
//! The window mirrors that buffer while the worker runs; when the user aborts,
//! whatever was published last becomes the prompt.

use vstd::prelude::*;

verus! {

/// What a completion session holds, as a mathematical value.
pub struct SessionView {
    pub prompt: Seq<char>,
    pub suffix: Option<Seq<char>>,
    pub pending: Option<Seq<char>>,
}

/// The characters of an optional string.
pub open spec fn text_of(text: Option<String>) -> Option<Seq<char>> {
    match text {
        Some(t) => Some(t@),
        None => None,
    }
}

/// What a window shows while `pending` is published: the pending text,
/// followed by the suffix where there is one.
pub open spec fn published_text(pending: Seq<char>, suffix: Option<Seq<char>>) -> Seq<char> {
    match suffix {
        Some(s) => pending + s,
        None => pending,
    }
}

/// The session after an abort has been reconciled: published text, if any,
/// is the prompt, and nothing is pending.
pub open spec fn committed(s: SessionView) -> SessionView {
    SessionView {
        prompt: match s.pending {
            Some(text) => text,
            None => s.prompt,
        },
        suffix: s.suffix,
        pending: None,
    }
}

/// The prompt of a session, the text that follows a finished generation, and
/// the text that a running worker has published so far.
#[derive(Debug, Clone, PartialEq, Eq)]
pub struct SessionState {
    pub prompt: String,
    pub suffix: Option<String>,
    pub pending_generate: Option<String>,
}

impl View for SessionState {
    type V = SessionView;

    open spec fn view(&self) -> SessionView {
        SessionView {
            prompt: self.prompt@,
            suffix: text_of(self.suffix),
            pending: text_of(self.pending_generate),
        }
    }
}

impl SessionState {
    /// A session with the given prompt, no suffix and nothing pending.
    pub fn new(prompt: String) -> (session: SessionState)
        ensures
            session@ == (SessionView { prompt: prompt@, suffix: None, pending: None }),
    {
        SessionState { prompt, suffix: None, pending_generate: None }
    }

    /// Replaces the prompt and leaves the rest as it is.
    pub fn set_prompt(&mut self, text: String)
        ensures
            final(self)@ == (SessionView { prompt: text@, ..old(self)@ }),
    {
        self.prompt = text;
    }

    /// Records `partial` as the text that the worker has produced so far,
    /// in place of whatever was pending before.
    pub fn publish(&mut self, partial: String)
        ensures
            final(self)@ == (SessionView { pending: Some(partial@), ..old(self)@ }),
    {
        self.pending_generate = Some(partial);
    }

    /// Reconciles the session after its worker was cancelled: the text
    /// published last becomes the prompt and the pending buffer is emptied.
    /// Returns whether there was such text.
    pub fn commit_pending(&mut self) -> (had_text: bool)
        ensures
            final(self)@ == committed(old(self)@),
            had_text == old(self)@.pending.is_some(),
    {
        match self.pending_generate.take() {
            Some(text) => {
                self.prompt = text;
                true
            },
            None => false,
        }
    }
}

/// The pending text with the suffix appended, as a new string.
pub fn join_published(pending: &String, suffix: &Option<String>) -> (shown: String)
    ensures
        shown@ == published_text(pending@, text_of(*suffix)),
{
    let mut shown = pending.clone();
    match suffix {
        Some(tail) => {
            shown.append(tail.as_str());
        },
        None => {},
    }
    shown
}

/// Whatever is published last is what a reconciliation commits: earlier
/// published text and the old prompt leave no trace in the prompt, and a
/// second reconciliation changes nothing.
pub proof fn law_commit_takes_last_published(s: SessionView, earlier: Seq<char>, last: Seq<char>)
    ensures
        committed(SessionView { pending: Some(last), ..SessionView { pending: Some(earlier), ..s } })
            == (SessionView { prompt: last, pending: None, ..s }),
        committed(SessionView { pending: None, ..s }) == (SessionView { pending: None, ..s }),
        committed(committed(s)) == committed(s),
{
}

} // verus!
