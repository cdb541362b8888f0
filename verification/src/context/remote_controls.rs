//! The context handed to plugin code when the host asks for the plugin's
//! remote controls.

use crate::context::{Identity, PluginApi};
use vstd::prelude::*;

verus! {

/// A page of parameters for an external controller: a name and the
/// identifiers of the parameters on it, in their order on the page.
#[derive(Debug, PartialEq, Eq)]
pub struct RemoteControlPage {
    pub name: String,
    pub params: Vec<u32>,
}

impl Clone for RemoteControlPage {
    fn clone(&self) -> (copy: RemoteControlPage)
        ensures
            copy.name == self.name,
            copy.params@ == self.params@,
    {
        RemoteControlPage { name: self.name.clone(), params: self.params.clone() }
    }
}

/// What a [`RemoteControlsContext`] holds.
pub struct RemoteControlsView {
    pub api: PluginApi,
    pub pages: Seq<RemoteControlPage>,
}

/// The handle for one remote-controls callback. This happens while the plugin
/// is configured, not while audio is processed.
#[derive(Debug)]
pub struct RemoteControlsContext<'a> {
    identity: &'a Identity,
    pages: Vec<RemoteControlPage>,
}

impl<'a> View for RemoteControlsContext<'a> {
    type V = RemoteControlsView;

    closed spec fn view(&self) -> RemoteControlsView {
        RemoteControlsView { api: self.identity.api(), pages: self.pages@ }
    }
}

impl<'a> RemoteControlsContext<'a> {
    /// Makes the context for one callback, with no page declared yet.
    pub fn new(identity: &'a Identity) -> (context: Self)
        ensures
            context@ == (RemoteControlsView { api: identity.api(), pages: Seq::empty() }),
    {
        RemoteControlsContext { identity, pages: Vec::new() }
    }

    /// The protocol the plugin runs under.
    pub fn plugin_api(&self) -> (api: PluginApi)
        ensures
            api == self@.api,
    {
        self.identity.plugin_api()
    }

    /// Declares a page behind those declared before.
    pub fn declare_page(&mut self, page: RemoteControlPage)
        ensures
            final(self)@ == (RemoteControlsView {
                pages: old(self)@.pages.push(page),
                ..old(self)@
            }),
    {
        self.pages.push(page);
    }

    /// The number of pages declared so far.
    pub fn page_count(&self) -> (count: usize)
        ensures
            count == self@.pages.len(),
    {
        self.pages.len()
    }

    /// The page declared as the `index`-th, counting from zero.
    pub fn page(&self, index: usize) -> (page: Option<&RemoteControlPage>)
        ensures
            match page {
                Some(page) => index < self@.pages.len() && *page == self@.pages[index as int],
                None => index >= self@.pages.len(),
            },
    {
        if index < self.pages.len() {
            Some(&self.pages[index])
        } else {
            None
        }
    }

    /// Ends the callback and hands the pages to the wrapper, in the order in
    /// which they were declared.
    pub fn into_pages(self) -> (pages: Vec<RemoteControlPage>)
        ensures
            pages@ == self@.pages,
    {
        self.pages
    }
}

} // verus!
