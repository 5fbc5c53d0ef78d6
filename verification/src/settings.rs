//! The settings that the backend is started with and told of as they change.
use vstd::prelude::*;

verus! {

/// Settings of the backend.
pub struct BackendSettings {
    /// Whether the playback cursor moves on when a cue is started.
    pub advance_cursor_when_go: bool,
    /// Whether an asset is copied into the project when it is added.
    pub copy_assets_when_add: bool,
    /// Settings of the audio output.
    pub audio: BackendAudioSettings,
}

/// Settings of the audio output. What is `None` is left to the audio system.
pub struct BackendAudioSettings {
    /// The output device.
    pub device_id: Option<String>,
    /// The number of channels.
    pub channel_count: Option<u16>,
    /// Samples per second.
    pub sample_rate: Option<u32>,
    /// Frames in a buffer.
    pub buffer_size: Option<u32>,
}

impl BackendAudioSettings {
    /// The output device's name.
    pub open spec fn device(&self) -> Option<Seq<char>> {
        match self.device_id {
            Some(id) => Some(id@),
            None => None,
        }
    }

    /// The settings ask for the same output, which is what `==` decides.
    pub open spec fn same_as(self, other: Self) -> bool {
        &&& self.device() == other.device()
        &&& self.channel_count == other.channel_count
        &&& self.sample_rate == other.sample_rate
        &&& self.buffer_size == other.buffer_size
    }
}

impl Default for BackendSettings {
    fn default() -> (r: Self)
        ensures
            !r.advance_cursor_when_go,
            !r.copy_assets_when_add,
            r.audio.device_id is None,
            r.audio.channel_count is None,
            r.audio.sample_rate is None,
            r.audio.buffer_size is None,
    {
        BackendSettings {
            advance_cursor_when_go: false,
            copy_assets_when_add: false,
            audio: BackendAudioSettings::default(),
        }
    }
}

impl Default for BackendAudioSettings {
    fn default() -> (r: Self)
        ensures
            r.device_id is None,
            r.channel_count is None,
            r.sample_rate is None,
            r.buffer_size is None,
    {
        BackendAudioSettings {
            device_id: None,
            channel_count: None,
            sample_rate: None,
            buffer_size: None,
        }
    }
}

impl Clone for BackendAudioSettings {
    fn clone(&self) -> (r: Self)
        ensures
            r == *self,
    {
        BackendAudioSettings {
            device_id: self.device_id.clone(),
            channel_count: self.channel_count,
            sample_rate: self.sample_rate,
            buffer_size: self.buffer_size,
        }
    }
}

impl PartialEq for BackendAudioSettings {
    fn eq(&self, other: &Self) -> (r: bool)
        ensures
            r <==> (self.device_id is Some <==> other.device_id is Some) && (self.device_id is Some
                ==> self.device_id->0@ == other.device_id->0@) && self.channel_count
                == other.channel_count && self.sample_rate == other.sample_rate && self.buffer_size
                == other.buffer_size,
    {
        let same_device = match (&self.device_id, &other.device_id) {
            (Some(a), Some(b)) => *a == *b,
            (None, None) => true,
            _ => false,
        };
        same_device && self.channel_count == other.channel_count && self.sample_rate
            == other.sample_rate && self.buffer_size == other.buffer_size
    }
}

impl vstd::std_specs::cmp::PartialEqSpecImpl for BackendAudioSettings {
    open spec fn obeys_eq_spec() -> bool {
        true
    }

    open spec fn eq_spec(&self, other: &Self) -> bool {
        self.same_as(*other)
    }
}

/// Audio settings are equal exactly if they agree on each of the four: on the device's name, letter
/// for letter, the number of channels, the sample rate and the buffer size.
pub proof fn equal_audio_settings_agree_throughout(
    a: BackendAudioSettings,
    b: BackendAudioSettings,
)
    ensures
        a.same_as(b) <==> (a.device_id is Some <==> b.device_id is Some) && (a.device_id is Some
            ==> a.device_id->0@ == b.device_id->0@) && a.channel_count == b.channel_count
            && a.sample_rate == b.sample_rate && a.buffer_size == b.buffer_size,
{
}

/// Equality of audio settings is an equivalence, and a clone is equal to what it was made from
/// (the clone of `a` is `a`).
pub proof fn audio_equality_is_an_equivalence(
    a: BackendAudioSettings,
    b: BackendAudioSettings,
    c: BackendAudioSettings,
)
    ensures
        a.same_as(a),
        a.same_as(b) ==> b.same_as(a),
        a.same_as(b) && b.same_as(c) ==> a.same_as(c),
{
}

} // verus!
