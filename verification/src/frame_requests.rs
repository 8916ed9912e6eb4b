//! When the canvas asks a live document for a new frame, and when it tells
//! the host the view moved.
//!
//! An unchanged view costs nothing: the document is asked for a frame only
//! after something changed what the next frame looks like — the camera moved,
//! the host edited the document, or a document was just attached. A document
//! that is busy (it reached back into the shell) is asked again on the next
//! frame; a canvas over a fixed stream never asks. Why the last request
//! failed, if it did, is kept until one succeeds.

use vstd::prelude::*;

verus! {

/// The canvas's bookkeeping for frame requests and viewport reports.
#[derive(Debug)]
pub struct FrameRequests {
    attached: bool,
    dirty: bool,
    viewport_dirty: bool,
    renders: u64,
    error: Option<String>,
}

/// The content of [`FrameRequests`].
pub struct RequestsView {
    /// Whether a live document is attached.
    pub attached: bool,
    /// Whether the next frame has to be recorded afresh.
    pub dirty: bool,
    /// Whether the host has yet to hear of a view change.
    pub viewport_dirty: bool,
    /// How many frames the document has been asked for.
    pub renders: u64,
    /// Why the last request failed, if it did.
    pub error: Option<Seq<char>>,
}

impl View for FrameRequests {
    type V = RequestsView;

    closed spec fn view(&self) -> RequestsView {
        RequestsView {
            attached: self.attached,
            dirty: self.dirty,
            viewport_dirty: self.viewport_dirty,
            renders: self.renders,
            error: match self.error {
                Some(e) => Some(e@),
                None => None,
            },
        }
    }
}

impl FrameRequests {
    /// A canvas over a fixed stream: nothing attached, a first view still to
    /// report.
    pub fn new() -> (requests: FrameRequests)
        ensures
            requests@ == (RequestsView {
                attached: false,
                dirty: true,
                viewport_dirty: true,
                renders: 0,
                error: None,
            }),
    {
        FrameRequests { attached: false, dirty: true, viewport_dirty: true, renders: 0, error: None }
    }

    /// Whether a live document is attached.
    pub fn has_live_document(&self) -> (attached: bool)
        ensures
            attached == self@.attached,
    {
        self.attached
    }

    /// How many frames the live document has been asked for.
    pub fn document_renders(&self) -> (renders: u64)
        ensures
            renders == self@.renders,
    {
        self.renders
    }

    /// Why the last request failed, if it did.
    pub fn document_error(&self) -> (error: Option<&String>)
        ensures
            match error {
                Some(e) => self@.error == Some(e@),
                None => self@.error is None,
            },
    {
        match &self.error {
            Some(e) => Some(e),
            None => None,
        }
    }

    /// The camera moved: the host has to hear of it, and the next frame has
    /// to be recorded afresh.
    pub fn invalidate_view(&mut self)
        ensures
            final(self)@ == (RequestsView { dirty: true, viewport_dirty: true, ..old(self)@ }),
    {
        self.viewport_dirty = true;
        self.dirty = true;
    }

    /// Draw from a live document from now on.
    pub fn attach(&mut self)
        ensures
            final(self)@ == (RequestsView { attached: true, dirty: true, viewport_dirty: true, ..old(self)@ }),
    {
        self.attached = true;
        self.invalidate_view();
    }

    /// Something the canvas cannot see changed the document: an edit, an
    /// undo, a sheet change.
    pub fn mark_document_dirty(&mut self)
        ensures
            final(self)@ == (RequestsView { dirty: true, ..old(self)@ }),
    {
        self.dirty = true;
    }

    /// After the host handled an event: whether it changed what the next
    /// frame looks like.
    pub fn host_handled(&mut self, changed: bool)
        ensures
            final(self)@ == (RequestsView { dirty: old(self)@.dirty || changed, ..old(self)@ }),
    {
        if changed {
            self.dirty = true;
        }
    }

    /// Before a paint: whether to ask the document for a frame, given
    /// whether it is free to answer. Nothing is asked when nothing changed;
    /// with no document the request is dropped, so a fixed stream is not
    /// retried every frame; a busy document is asked again next frame. An
    /// answered request counts, saturating.
    pub fn begin_refresh(&mut self, available: bool) -> (ask: bool)
        ensures
            ask == asks(old(self)@, available),
            final(self)@ == refreshed(old(self)@, available),
    {
        if !self.dirty {
            return false;
        }
        if !self.attached {
            self.dirty = false;
            return false;
        }
        if !available {
            return false;
        }
        self.dirty = false;
        self.renders = self.renders.saturating_add(1);
        true
    }

    /// After the document answered: a failure is kept until a request
    /// succeeds.
    pub fn finish_refresh(&mut self, outcome: Result<(), String>)
        ensures
            final(self)@ == (RequestsView {
                error: match outcome {
                    Ok(()) => None,
                    Err(e) => Some(e@),
                },
                ..old(self)@
            }),
    {
        self.error = match outcome {
            Ok(()) => None,
            Err(e) => Some(e),
        };
    }

    /// After a paint: whether to tell the host the view moved. It hears once
    /// per change.
    pub fn take_viewport_report(&mut self) -> (report: bool)
        ensures
            report == old(self)@.viewport_dirty,
            final(self)@ == (RequestsView { viewport_dirty: false, ..old(self)@ }),
    {
        let report = self.viewport_dirty;
        self.viewport_dirty = false;
        report
    }
}

/// Whether a refresh of `state` asks the document for a frame, given
/// whether the document is free to answer.
pub open spec fn asks(state: RequestsView, available: bool) -> bool {
    state.dirty && state.attached && available
}

/// The bookkeeping after a refresh of `state`: nothing changes when nothing
/// changed; with no document the request is dropped; a busy document keeps
/// it; an answered one clears it and counts, saturating.
pub open spec fn refreshed(state: RequestsView, available: bool) -> RequestsView {
    if !state.dirty {
        state
    } else if !state.attached {
        RequestsView { dirty: false, ..state }
    } else if !available {
        state
    } else {
        RequestsView {
            dirty: false,
            renders: if state.renders == u64::MAX {
                u64::MAX
            } else {
                (state.renders + 1) as u64
            },
            ..state
        }
    }
}

/// An unchanged view costs nothing: after a refresh that was not left
/// waiting on a busy document, another refresh before anything changes asks
/// for nothing and leaves everything as it was.
pub proof fn lemma_unchanged_view_is_free(state: RequestsView, available: bool, again: bool)
    requires
        !(state.dirty && state.attached && !available),
    ensures
        !asks(refreshed(state, available), again),
        refreshed(refreshed(state, available), again) == refreshed(state, available),
{
}

} // verus!
