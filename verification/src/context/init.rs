//! The context handed to plugin code once, during setup.

use crate::context::{
    CapabilityUnsupported, HostInfo, Identity, NativeTrackInfo, PluginApi, TrackInfo,
    TrackInfoView,
};
use vstd::prelude::*;

verus! {

/// Something a plugin states about itself during setup. What is declared
/// stays as it is for the life of the instance.
#[derive(Debug, PartialEq, Eq)]
pub enum Declaration {
    /// An audio port with this name and number of channels.
    Port { name: String, channels: u32 },
    /// A page of remote controls with this name.
    RemoteControlPage { name: String },
}

impl Clone for Declaration {
    fn clone(&self) -> (copy: Declaration)
        ensures
            copy == *self,
    {
        match self {
            Declaration::Port { name, channels } => Declaration::Port {
                name: name.clone(),
                channels: *channels,
            },
            Declaration::RemoteControlPage { name } => Declaration::RemoteControlPage {
                name: name.clone(),
            },
        }
    }
}

/// What an [`InitContext`] holds.
pub struct InitView {
    pub api: PluginApi,
    pub host: HostInfo,
    pub track: TrackInfoView,
    pub declarations: Seq<Declaration>,
}

/// The track information a context starts with: what the host supplied for
/// this callback, or nothing in any field where it supplied nothing.
pub open spec fn track_snapshot(track: Option<NativeTrackInfo>) -> TrackInfoView {
    match track {
        Some(native) => TrackInfo::normalized(native),
        None => TrackInfoView::empty(),
    }
}

/// The handle for the setup callback. It runs before any audio is processed,
/// on a thread that may block.
#[derive(Debug)]
pub struct InitContext<'a> {
    identity: &'a Identity,
    track: TrackInfo,
    declarations: Vec<Declaration>,
}

impl<'a> View for InitContext<'a> {
    type V = InitView;

    closed spec fn view(&self) -> InitView {
        InitView {
            api: self.identity.api(),
            host: self.identity.host(),
            track: self.track@,
            declarations: self.declarations@,
        }
    }
}

impl<'a> InitContext<'a> {
    /// Makes the context for the setup callback, with nothing declared yet.
    /// `track` is what the host answered when asked for the track just now,
    /// `None` if it gave no answer.
    pub fn new(identity: &'a Identity, track: Option<NativeTrackInfo>) -> (context: Self)
        ensures
            context@ == (InitView {
                api: identity.api(),
                host: identity.host(),
                track: track_snapshot(track),
                declarations: Seq::empty(),
            }),
    {
        let track = match track {
            Some(native) => TrackInfo::from_native(native),
            None => TrackInfo::default(),
        };
        InitContext { identity, track, declarations: Vec::new() }
    }

    /// The protocol the plugin runs under.
    pub fn plugin_api(&self) -> (api: PluginApi)
        ensures
            api == self@.api,
    {
        self.identity.plugin_api()
    }

    /// The host the plugin was loaded by.
    pub fn host_info(&self) -> (info: &HostInfo)
        ensures
            *info == self@.host,
    {
        self.identity.host_info()
    }

    /// Asks for the track the plugin sits on. Each answer is a snapshot of its
    /// own, as the host described the track for this callback. Under a
    /// protocol without tracks the answer is [`CapabilityUnsupported`],
    /// whatever the context was made with. A host that has tracks and said
    /// nothing shows as missing fields.
    pub fn track_info(&self) -> (answer: Result<TrackInfo, CapabilityUnsupported>)
        ensures
            match answer {
                Ok(track) => self@.api.has_tracks() && track@ == self@.track,
                Err(_) => !self@.api.has_tracks(),
            },
    {
        if self.identity.plugin_api().supports_track_info() {
            Ok(self.track.clone())
        } else {
            Err(CapabilityUnsupported)
        }
    }

    /// Registers a declaration behind those registered before.
    pub fn declare(&mut self, declaration: Declaration)
        ensures
            final(self)@ == (InitView {
                declarations: old(self)@.declarations.push(declaration),
                ..old(self)@
            }),
    {
        self.declarations.push(declaration);
    }

    /// Ends the callback and hands the declarations to the wrapper, in the
    /// order in which they were registered.
    pub fn into_declarations(self) -> (declarations: Vec<Declaration>)
        ensures
            declarations@ == self@.declarations,
    {
        self.declarations
    }
}

} // verus!
