//! Identity data shared by every context: the active plugin protocol, and the
//! host and track metadata in a protocol-neutral shape.

use vstd::prelude::*;

pub mod gui;
pub mod init;
pub mod process;

// Contexts for more plugin-API specific features
pub mod remote_controls;

verus! {

/// The currently active plugin API. This may be useful to display in an about
/// screen in the plugin's GUI for debugging purposes.
#[derive(Debug, Clone, Copy, PartialEq, Eq, Structural)]
pub enum PluginApi {
    Clap,
    Standalone,
    Vst3,
}

impl PluginApi {
    /// The human-readable label of the protocol.
    pub open spec fn label(self) -> Seq<char> {
        match self {
            PluginApi::Clap => "CLAP"@,
            PluginApi::Standalone => "standalone"@,
            PluginApi::Vst3 => "VST3"@,
        }
    }

    /// Whether the protocol has a notion of the track a plugin sits on. A
    /// standalone application has no host, and so no track.
    pub open spec fn has_tracks(self) -> bool {
        self != PluginApi::Standalone
    }

    /// Returns the label of the protocol as an owned string.
    pub fn to_label(&self) -> (text: String)
        ensures
            text@ == self.label(),
    {
        match self {
            PluginApi::Clap => "CLAP".to_owned(),
            PluginApi::Standalone => "standalone".to_owned(),
            PluginApi::Vst3 => "VST3".to_owned(),
        }
    }

    /// Whether track information can be asked for under this protocol.
    pub fn supports_track_info(&self) -> (supported: bool)
        ensures
            supported == self.has_tracks(),
    {
        match self {
            PluginApi::Standalone => false,
            PluginApi::Clap | PluginApi::Vst3 => true,
        }
    }
}

/// Each label is spelled exactly as shown, character by character.
pub proof fn lemma_label_spelling()
    ensures
        PluginApi::Clap.label() == seq!['C', 'L', 'A', 'P'],
        PluginApi::Standalone.label() == seq!['s', 't', 'a', 'n', 'd', 'a', 'l', 'o', 'n', 'e'],
        PluginApi::Vst3.label() == seq!['V', 'S', 'T', '3'],
{
    reveal_strlit("CLAP");
    reveal_strlit("standalone");
    reveal_strlit("VST3");
}

/// The text of a native field: what the host supplied, or nothing.
pub open spec fn text_or_empty(field: Option<String>) -> Seq<char> {
    match field {
        Some(text) => text@,
        None => Seq::empty(),
    }
}

fn present_or_empty(field: Option<String>) -> (text: String)
    ensures
        text@ == text_or_empty(field),
{
    match field {
        Some(text) => text,
        None => String::new(),
    }
}

/// Host identification as a plugin protocol hands it over: every field may be
/// absent.
#[derive(Debug, Default)]
pub struct NativeHostInfo {
    pub name: Option<String>,
    pub vendor: Option<String>,
    pub version: Option<String>,
    pub url: Option<String>,
}

/// Information about the host application (DAW).
///
/// An empty field means that the host did not provide it.
#[derive(Debug)]
pub struct HostInfo {
    /// The host's name (e.g., "Bitwig Studio", "REAPER").
    pub name: String,
    /// The host's vendor/developer.
    pub vendor: String,
    /// The host's version string.
    pub version: String,
    /// The host's URL (if provided).
    pub url: String,
}

/// What a [`HostInfo`] holds, as mathematical text.
pub struct HostInfoView {
    pub name: Seq<char>,
    pub vendor: Seq<char>,
    pub version: Seq<char>,
    pub url: Seq<char>,
}

impl HostInfoView {
    /// The host information in which every field is empty.
    pub open spec fn empty() -> HostInfoView {
        HostInfoView {
            name: Seq::empty(),
            vendor: Seq::empty(),
            version: Seq::empty(),
            url: Seq::empty(),
        }
    }
}

impl View for HostInfo {
    type V = HostInfoView;

    open spec fn view(&self) -> HostInfoView {
        HostInfoView {
            name: self.name@,
            vendor: self.vendor@,
            version: self.version@,
            url: self.url@,
        }
    }
}

impl HostInfo {
    /// The neutral form of native host information: a present field keeps its
    /// text, an absent one is empty.
    pub open spec fn normalized(native: NativeHostInfo) -> HostInfoView {
        HostInfoView {
            name: text_or_empty(native.name),
            vendor: text_or_empty(native.vendor),
            version: text_or_empty(native.version),
            url: text_or_empty(native.url),
        }
    }

    /// Brings native host information into its neutral form. This never
    /// fails.
    pub fn from_native(native: NativeHostInfo) -> (info: HostInfo)
        ensures
            info@ == Self::normalized(native),
    {
        HostInfo {
            name: present_or_empty(native.name),
            vendor: present_or_empty(native.vendor),
            version: present_or_empty(native.version),
            url: present_or_empty(native.url),
        }
    }
}

impl Default for HostInfo {
    fn default() -> (info: HostInfo)
        ensures
            info@ == HostInfoView::empty(),
    {
        HostInfo {
            name: String::new(),
            vendor: String::new(),
            version: String::new(),
            url: String::new(),
        }
    }
}

impl Clone for HostInfo {
    fn clone(&self) -> (copy: HostInfo)
        ensures
            copy@ == self@,
    {
        HostInfo {
            name: self.name.clone(),
            vendor: self.vendor.clone(),
            version: self.version.clone(),
            url: self.url.clone(),
        }
    }
}

/// The text of an optional field, where there is one.
pub open spec fn optional_text(field: Option<String>) -> Option<Seq<char>> {
    match field {
        Some(text) => Some(text@),
        None => None,
    }
}

/// The channel count of a native field, where there is one. A number below
/// zero is no count, and stands for a missing one.
pub open spec fn optional_count(field: Option<i32>) -> Option<i32> {
    match field {
        Some(count) => if count >= 0 {
            Some(count)
        } else {
            None
        },
        None => None,
    }
}

fn same_optional_text(left: &Option<String>, right: &Option<String>) -> (same: bool)
    ensures
        same == (optional_text(*left) == optional_text(*right)),
{
    match (left, right) {
        (Some(a), Some(b)) => *a == *b,
        (None, None) => true,
        _ => false,
    }
}

fn clone_optional_text(field: &Option<String>) -> (copy: Option<String>)
    ensures
        optional_text(copy) == optional_text(*field),
{
    match field {
        Some(text) => Some(text.clone()),
        None => None,
    }
}

/// Track metadata as a plugin protocol hands it over: every field may be
/// absent on its own, and what is there may be unusable.
#[derive(Debug, Default)]
pub struct NativeTrackInfo {
    pub name: Option<String>,
    pub color: Option<(u8, u8, u8)>,
    pub audio_channel_count: Option<i32>,
    pub audio_port_type: Option<String>,
    pub is_for_master: Option<bool>,
    pub is_for_return_track: Option<bool>,
    pub is_for_bus: Option<bool>,
}

/// Information about the track the plugin is inserted on.
///
/// This is a snapshot: it does not follow later changes in the host. `None`
/// in a field means that the host did not supply it, which is not the same as
/// an empty name or a flag that is `false`. A protocol that reports a flag as
/// a single bit cannot leave it out; under such a protocol the flag is always
/// `Some`.
#[derive(Debug)]
pub struct TrackInfo {
    /// The track's name (if provided by host).
    pub name: Option<String>,
    /// The track's color as RGB values (if provided by host).
    pub color: Option<(u8, u8, u8)>,
    /// Number of audio channels on this track.
    pub audio_channel_count: Option<i32>,
    /// The audio port type (e.g., "stereo", "mono").
    pub audio_port_type: Option<String>,
    /// True if this is the master/main output track.
    pub is_for_master: Option<bool>,
    /// True if this is a return/aux track (initialize with 100% wet).
    pub is_for_return_track: Option<bool>,
    /// True if this is a bus track.
    pub is_for_bus: Option<bool>,
}

/// What a [`TrackInfo`] holds, as mathematical values.
pub struct TrackInfoView {
    pub name: Option<Seq<char>>,
    pub color: Option<(u8, u8, u8)>,
    pub audio_channel_count: Option<i32>,
    pub audio_port_type: Option<Seq<char>>,
    pub is_for_master: Option<bool>,
    pub is_for_return_track: Option<bool>,
    pub is_for_bus: Option<bool>,
}

impl TrackInfoView {
    /// The track information in which every field is missing.
    pub open spec fn empty() -> TrackInfoView {
        TrackInfoView {
            name: None,
            color: None,
            audio_channel_count: None,
            audio_port_type: None,
            is_for_master: None,
            is_for_return_track: None,
            is_for_bus: None,
        }
    }
}

impl View for TrackInfo {
    type V = TrackInfoView;

    open spec fn view(&self) -> TrackInfoView {
        TrackInfoView {
            name: optional_text(self.name),
            color: self.color,
            audio_channel_count: self.audio_channel_count,
            audio_port_type: optional_text(self.audio_port_type),
            is_for_master: self.is_for_master,
            is_for_return_track: self.is_for_return_track,
            is_for_bus: self.is_for_bus,
        }
    }
}

impl TrackInfo {
    /// The neutral form of native track information: each field is carried
    /// over by itself, a present one with its value, an absent or unusable
    /// one as missing.
    pub open spec fn normalized(native: NativeTrackInfo) -> TrackInfoView {
        TrackInfoView {
            name: optional_text(native.name),
            color: native.color,
            audio_channel_count: optional_count(native.audio_channel_count),
            audio_port_type: optional_text(native.audio_port_type),
            is_for_master: native.is_for_master,
            is_for_return_track: native.is_for_return_track,
            is_for_bus: native.is_for_bus,
        }
    }

    /// Brings native track information into its neutral form. This never
    /// fails.
    pub fn from_native(native: NativeTrackInfo) -> (track: TrackInfo)
        ensures
            track@ == Self::normalized(native),
    {
        let audio_channel_count = match native.audio_channel_count {
            Some(count) if count >= 0 => Some(count),
            _ => None,
        };
        TrackInfo {
            name: native.name,
            color: native.color,
            audio_channel_count,
            audio_port_type: native.audio_port_type,
            is_for_master: native.is_for_master,
            is_for_return_track: native.is_for_return_track,
            is_for_bus: native.is_for_bus,
        }
    }

    /// Whether the host supplied nothing at all.
    pub fn is_empty(&self) -> (empty: bool)
        ensures
            empty == (self@ == TrackInfoView::empty()),
    {
        self.name.is_none() && self.color.is_none() && self.audio_channel_count.is_none()
            && self.audio_port_type.is_none() && self.is_for_master.is_none()
            && self.is_for_return_track.is_none() && self.is_for_bus.is_none()
    }
}

impl Default for TrackInfo {
    fn default() -> (track: TrackInfo)
        ensures
            track@ == TrackInfoView::empty(),
    {
        TrackInfo {
            name: None,
            color: None,
            audio_channel_count: None,
            audio_port_type: None,
            is_for_master: None,
            is_for_return_track: None,
            is_for_bus: None,
        }
    }
}

impl Clone for TrackInfo {
    fn clone(&self) -> (copy: TrackInfo)
        ensures
            copy@ == self@,
    {
        TrackInfo {
            name: clone_optional_text(&self.name),
            color: self.color,
            audio_channel_count: self.audio_channel_count,
            audio_port_type: clone_optional_text(&self.audio_port_type),
            is_for_master: self.is_for_master,
            is_for_return_track: self.is_for_return_track,
            is_for_bus: self.is_for_bus,
        }
    }
}

impl PartialEq for TrackInfo {
    fn eq(&self, other: &TrackInfo) -> (equal: bool) {
        same_optional_text(&self.name, &other.name)
            && self.color == other.color
            && self.audio_channel_count == other.audio_channel_count
            && same_optional_text(&self.audio_port_type, &other.audio_port_type)
            && self.is_for_master == other.is_for_master
            && self.is_for_return_track == other.is_for_return_track
            && self.is_for_bus == other.is_for_bus
    }
}

impl vstd::std_specs::cmp::PartialEqSpecImpl for TrackInfo {
    open spec fn obeys_eq_spec() -> bool {
        true
    }

    open spec fn eq_spec(&self, other: &TrackInfo) -> bool {
        self@ == other@
    }
}

/// The answer to a request that the active protocol has no means to serve.
///
/// This is not an error of the host: the plugin goes on without the
/// capability. It is also not the same as a host that supplied no data, which
/// shows as missing fields.
#[derive(Debug, Clone, Copy, PartialEq, Eq, Structural)]
pub struct CapabilityUnsupported;

/// What a plugin instance knows of its surroundings from the moment it is
/// constructed: the protocol it runs under and the host that loaded it.
///
/// An identity is made once and only read afterwards, so it can be shared
/// between the audio thread and the GUI thread as it is.
#[derive(Debug)]
pub struct Identity {
    api: PluginApi,
    host_info: HostInfo,
}

impl Identity {
    /// The protocol the identity was made with.
    pub closed spec fn api(&self) -> PluginApi {
        self.api
    }

    /// The host information the identity was made with.
    pub closed spec fn host(&self) -> HostInfo {
        self.host_info
    }

    /// Makes the identity of a plugin instance.
    pub fn new(api: PluginApi, host_info: HostInfo) -> (identity: Identity)
        ensures
            identity.api() == api,
            identity.host() == host_info,
    {
        Identity { api, host_info }
    }

    /// Makes the identity of a plugin instance from what the protocol's entry
    /// point knows: which protocol it is, and the host as the protocol
    /// describes it.
    pub fn from_native(api: PluginApi, host: NativeHostInfo) -> (identity: Identity)
        ensures
            identity.api() == api,
            identity.host()@ == HostInfo::normalized(host),
    {
        Identity { api, host_info: HostInfo::from_native(host) }
    }

    /// The protocol the plugin runs under.
    pub fn plugin_api(&self) -> (api: PluginApi)
        ensures
            api == self.api(),
    {
        self.api
    }

    /// The host the plugin was loaded by.
    pub fn host_info(&self) -> (info: &HostInfo)
        ensures
            *info == self.host(),
    {
        &self.host_info
    }
}

} // verus!
