//! The output device: which one the player is connected to, whether the
//! default has moved elsewhere, and how long the connection has been idle.
use crate::clock::Clock;
use crate::error::{AppError, ErrorKind};
use crate::playback_state::{gap, path_view};
use vstd::prelude::*;
use vstd::string::*;

verus! {

/// An available output device.
#[derive(Debug)]
pub struct AudioDevice {
    pub name: String,
    pub is_default: bool,
}

/// The name under which the default device is listed when it has none.
pub open spec fn unnamed_default() -> Seq<char> {
    "Default"@
}

/// The name that marks an entry as the default one.
pub open spec fn default_label(default_name: Option<Seq<char>>) -> Seq<char> {
    match default_name {
        Some(name) => name,
        None => unnamed_default(),
    }
}

/// `devices` lists `names` in order, each marked as default exactly if it
/// bears the default's name; if there are no names, it lists the default
/// alone.
pub open spec fn lists_devices(
    devices: Seq<AudioDevice>,
    names: Seq<String>,
    default_name: Option<Seq<char>>,
) -> bool {
    if names.len() == 0 {
        &&& devices.len() == 1
        &&& devices[0].name@ == default_label(default_name)
        &&& devices[0].is_default
    } else {
        &&& devices.len() == names.len()
        &&& forall|i: int|
            0 <= i < names.len() ==> (#[trigger] devices[i]).name@ == names[i]@ && devices[i].is_default
                == (names[i]@ == default_label(default_name))
    }
}

/// Builds the list of output devices from the names that the host reports
/// and the name of its default device.
pub fn get_audio_devices(names: &Vec<String>, default_name: &Option<String>) -> (devices: Vec<
    AudioDevice,
>)
    ensures
        lists_devices(devices@, names@, path_view(*default_name)),
{
    let label: String = match default_name {
        Some(name) => name.clone(),
        None => String::from_str("Default"),
    };
    let mut devices: Vec<AudioDevice> = Vec::new();
    let mut i: usize = 0;
    while i < names.len()
        invariant
            i <= names.len(),
            label@ == default_label(path_view(*default_name)),
            devices.len() == i,
            forall|k: int|
                0 <= k < i ==> (#[trigger] devices[k]).name@ == names[k]@ && devices[k].is_default == (
                names[k]@ == label@),
        decreases names.len() - i,
    {
        let name: String = names[i].clone();
        let is_default: bool = name == label;
        devices.push(AudioDevice { name, is_default });
        i += 1;
    }
    if devices.len() == 0 {
        devices.push(AudioDevice { name: label, is_default: true });
    }
    devices
}

/// Some entry of `devices` bears `name`.
pub open spec fn has_device(devices: Seq<AudioDevice>, name: Seq<char>) -> bool {
    exists|i: int| 0 <= i < devices.len() && (#[trigger] devices[i]).name@ == name
}

/// Whether a device of that name is listed.
pub fn contains_device(devices: &Vec<AudioDevice>, name: &String) -> (found: bool)
    ensures
        found == has_device(devices@, name@),
{
    let mut i: usize = 0;
    while i < devices.len()
        invariant
            i <= devices.len(),
            forall|k: int| 0 <= k < i ==> (#[trigger] devices[k]).name@ != name@,
        decreases devices.len() - i,
    {
        if devices[i].name == *name {
            return true;
        }
        i += 1;
    }
    false
}

/// What `require_device` answers for a device that is not listed.
pub open spec fn missing_device_detail(name: Seq<char>) -> Seq<char> {
    "Device '"@ + name + "' not found"@
}

/// Accepts `name` as the device to switch to.
///
/// Fails with `NotFound` exactly if no listed device bears the name.
pub fn require_device(devices: &Vec<AudioDevice>, name: &String) -> (result: Result<(), AppError>)
    ensures
        result is Ok <==> has_device(devices@, name@),
        result matches Err(e) ==> e.spec_kind() == ErrorKind::NotFound && e.detail()
            == missing_device_detail(name@),
{
    if contains_device(devices, name) {
        Ok(())
    } else {
        let detail: String = String::from_str("Device '").concat(name.as_str()).concat(
            "' not found",
        );
        Err(AppError::NotFound(detail))
    }
}

/// The default device is no longer the one connected to.
///
/// A connection whose device has no known name never counts as changed.
pub open spec fn device_changed(
    connected: Option<Seq<char>>,
    current_default: Option<Seq<char>>,
) -> bool {
    connected is Some && current_default != connected
}

/// Compares the name of the host's default device with the name of the
/// device that the player is connected to.
pub fn has_device_changed(connected: &Option<String>, current_default: &Option<String>) -> (changed:
    bool)
    ensures
        changed == device_changed(path_view(*connected), path_view(*current_default)),
{
    match connected {
        None => false,
        Some(name) => match current_default {
            None => true,
            Some(current) => !(*name == *current),
        },
    }
}

/// The live output: the stream that keeps the device open, the mixer that
/// new sinks attach to, the name of the device, and when it was last used.
///
/// Stream and mixer are whatever the audio backend hands out; they are kept,
/// replaced together, and never looked into.
pub struct DeviceState<S, M> {
    pub stream: S,
    pub mixer: M,
    pub connected_device_name: Option<String>,
    /// The reading of `clock` at the last use.
    pub last_active: u64,
    pub clock: Clock,
}

impl<S, M> DeviceState<S, M> {
    /// Takes over a connection that has just been opened.
    pub fn new(stream: S, mixer: M, device_name: Option<String>) -> (state: Self)
        ensures
            state.stream == stream,
            state.mixer == mixer,
            state.connected_device_name == device_name,
    {
        let clock = Clock::new();
        let now: u64 = clock.now();
        DeviceState { stream, mixer, connected_device_name: device_name, last_active: now, clock }
    }

    /// The current reading of this state's clock.
    pub fn now(&self) -> u64 {
        self.clock.now()
    }

    /// Notes at `now` that the output is in use.
    pub fn update_active_at(&mut self, now: u64)
        ensures
            final(self).last_active == now,
            final(self).stream == old(self).stream,
            final(self).mixer == old(self).mixer,
            final(self).connected_device_name == old(self).connected_device_name,
    {
        self.last_active = now;
    }

    /// Notes that the output is in use.
    pub fn update_active(&mut self)
        ensures
            final(self).stream == old(self).stream,
            final(self).mixer == old(self).mixer,
            final(self).connected_device_name == old(self).connected_device_name,
    {
        let now: u64 = self.clock.now();
        self.update_active_at(now)
    }

    /// Puts a new connection in the place of the old one, in use at `now`.
    pub fn replace_at(&mut self, stream: S, mixer: M, device_name: Option<String>, now: u64)
        ensures
            final(self).stream == stream,
            final(self).mixer == mixer,
            final(self).connected_device_name == device_name,
            final(self).last_active == now,
    {
        self.stream = stream;
        self.mixer = mixer;
        self.connected_device_name = device_name;
        self.last_active = now;
    }

    /// Puts a new connection in the place of the old one.
    pub fn replace(&mut self, stream: S, mixer: M, device_name: Option<String>)
        ensures
            final(self).stream == stream,
            final(self).mixer == mixer,
            final(self).connected_device_name == device_name,
    {
        let now: u64 = self.clock.now();
        self.replace_at(stream, mixer, device_name, now)
    }

    /// Whether the host's default device, named `current_default`, is another
    /// one than the one connected to.
    pub fn has_device_changed(&self, current_default: &Option<String>) -> (changed: bool)
        ensures
            changed == device_changed(
                path_view(self.connected_device_name),
                path_view(*current_default),
            ),
    {
        has_device_changed(&self.connected_device_name, current_default)
    }

    /// The mixer to attach a new sink to. There always is one.
    pub fn mixer(&self) -> (mixer: &M)
        ensures
            *mixer == self.mixer,
    {
        &self.mixer
    }

    /// For how long the output has not been used at `now`.
    pub fn idle_at(&self, now: u64) -> (idle: u64)
        ensures
            idle == gap(now, self.last_active),
    {
        if now >= self.last_active {
            now - self.last_active
        } else {
            0
        }
    }

    /// For how long the output has not been used.
    pub fn idle(&self) -> (idle: u64)
        ensures
            exists|now: u64| idle == #[trigger] gap(now, self.last_active),
    {
        let now: u64 = self.clock.now();
        self.idle_at(now)
    }
}

} // verus!
