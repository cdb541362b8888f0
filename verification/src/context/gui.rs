//! The context handed to plugin code while its editor is open.

use crate::context::{Identity, PluginApi};
use vstd::prelude::*;

verus! {

/// A request from the editor to the host. The wrapper forwards each one as it
/// is, in the order in which they were made.
#[derive(Debug, Clone, Copy, PartialEq, Eq, Structural)]
pub enum GuiRequest {
    /// Resize the editor window to this size.
    Resize { width: u32, height: u32 },
    /// Flush the parameter values and redraw.
    Flush,
    /// The user opened the editor.
    EditorOpened,
    /// The user closed the editor.
    EditorClosed,
    /// The user resized the editor to this size.
    EditorResized { width: u32, height: u32 },
}

/// What a [`GuiContext`] holds.
pub struct GuiView {
    pub api: PluginApi,
    pub requests: Seq<GuiRequest>,
}

/// The handle for one GUI callback. It lives on a thread that may block, so
/// it collects any number of requests.
#[derive(Debug)]
pub struct GuiContext<'a> {
    identity: &'a Identity,
    requests: Vec<GuiRequest>,
}

impl<'a> View for GuiContext<'a> {
    type V = GuiView;

    closed spec fn view(&self) -> GuiView {
        GuiView { api: self.identity.api(), requests: self.requests@ }
    }
}

impl<'a> GuiContext<'a> {
    /// Makes the context for one callback, with no request made yet.
    pub fn new(identity: &'a Identity) -> (context: Self)
        ensures
            context@ == (GuiView { api: identity.api(), requests: Seq::empty() }),
    {
        GuiContext { identity, requests: Vec::new() }
    }

    /// The protocol the plugin runs under.
    pub fn plugin_api(&self) -> (api: PluginApi)
        ensures
            api == self@.api,
    {
        self.identity.plugin_api()
    }

    fn push(&mut self, request: GuiRequest)
        ensures
            final(self)@ == (GuiView { requests: old(self)@.requests.push(request), ..old(self)@ }),
    {
        self.requests.push(request);
    }

    /// Asks the host to resize the editor window.
    pub fn request_resize(&mut self, width: u32, height: u32)
        ensures
            final(self)@ == (GuiView {
                requests: old(self)@.requests.push(GuiRequest::Resize { width, height }),
                ..old(self)@
            }),
    {
        self.push(GuiRequest::Resize { width, height });
    }

    /// Asks the host to flush the parameter values and redraw.
    pub fn request_flush(&mut self)
        ensures
            final(self)@ == (GuiView {
                requests: old(self)@.requests.push(GuiRequest::Flush),
                ..old(self)@
            }),
    {
        self.push(GuiRequest::Flush);
    }

    /// Tells the host that the user opened the editor.
    pub fn report_opened(&mut self)
        ensures
            final(self)@ == (GuiView {
                requests: old(self)@.requests.push(GuiRequest::EditorOpened),
                ..old(self)@
            }),
    {
        self.push(GuiRequest::EditorOpened);
    }

    /// Tells the host that the user closed the editor.
    pub fn report_closed(&mut self)
        ensures
            final(self)@ == (GuiView {
                requests: old(self)@.requests.push(GuiRequest::EditorClosed),
                ..old(self)@
            }),
    {
        self.push(GuiRequest::EditorClosed);
    }

    /// Tells the host that the user resized the editor.
    pub fn report_resized(&mut self, width: u32, height: u32)
        ensures
            final(self)@ == (GuiView {
                requests: old(self)@.requests.push(GuiRequest::EditorResized { width, height }),
                ..old(self)@
            }),
    {
        self.push(GuiRequest::EditorResized { width, height });
    }

    /// Ends the callback and hands the requests to the wrapper, oldest first.
    pub fn into_requests(self) -> (requests: Vec<GuiRequest>)
        ensures
            requests@ == self@.requests,
    {
        self.requests
    }
}

} // verus!
