//! Descriptor of a device found on the host: its name and identifier, its
//! connection state, protocol and platform, with the text fields cached once read.

use vstd::prelude::*;
use vstd::string::*;
use crate::device::{platform_of, Platform};
use crate::text::{decimal, push_decimal};

verus! {

/// Raw descriptor fields as the native layer fills them in: text fields and the
/// numeric codes of state, protocol, platform and status.
#[derive(Debug)]
pub struct NativeDeviceInfo {
    pub name: String,
    pub device_id: String,
    pub state: u32,
    pub protocol: u32,
    pub platform: u32,
    pub status: u32,
}

impl Clone for NativeDeviceInfo {
    fn clone(&self) -> (r: Self)
        ensures
            r == *self,
    {
        NativeDeviceInfo {
            name: self.name.clone(),
            device_id: self.device_id.clone(),
            state: self.state,
            protocol: self.protocol,
            platform: self.platform,
            status: self.status,
        }
    }
}

/// Device connection state.
#[derive(Debug, Clone, Copy, PartialEq, Eq, Structural)]
pub enum DeviceState {
    /// Device is not connected
    Unconnected,
    /// Device is connected and ready
    Connected,
    /// Device is in bootloader mode
    Bootloader,
    /// Device is initializing
    Initializing,
    /// Device connection failed
    Failed,
    /// A state code outside the known ones
    Unknown(u32),
}

/// Device protocol type.
#[derive(Debug, Clone, Copy, PartialEq, Eq, Structural)]
pub enum DeviceProtocol {
    /// USB protocol
    Usb,
    /// TCP/IP protocol
    Tcp,
    /// A protocol code outside the known ones
    Unknown(u32),
}

/// State of a descriptor's state code.
pub open spec fn state_of(raw: u32) -> DeviceState {
    if raw == 0 {
        DeviceState::Unconnected
    } else if raw == 1 {
        DeviceState::Connected
    } else if raw == 2 {
        DeviceState::Bootloader
    } else if raw == 3 {
        DeviceState::Initializing
    } else if raw == 4 {
        DeviceState::Failed
    } else {
        DeviceState::Unknown(raw)
    }
}

/// Protocol of a descriptor's protocol code.
pub open spec fn protocol_of(raw: u32) -> DeviceProtocol {
    if raw == 0 {
        DeviceProtocol::Usb
    } else if raw == 1 {
        DeviceProtocol::Tcp
    } else {
        DeviceProtocol::Unknown(raw)
    }
}

/// Descriptor of a device, with the name, identifier and MXID cached once read.
///
/// A cached text equals the field it was read from (`caches_agree`); the cache
/// is dropped whenever the raw descriptor is handed out for modification.
#[derive(Debug)]
pub struct DeviceInfo {
    inner: NativeDeviceInfo,
    cached_name: Option<String>,
    cached_mxid: Option<String>,
    cached_device_id: Option<String>,
}

/// A state as `{:?}` prints it, such as "Connected" or "Unknown(7)".
pub open spec fn state_name(s: DeviceState) -> Seq<char> {
    match s {
        DeviceState::Unconnected => "Unconnected"@,
        DeviceState::Connected => "Connected"@,
        DeviceState::Bootloader => "Bootloader"@,
        DeviceState::Initializing => "Initializing"@,
        DeviceState::Failed => "Failed"@,
        DeviceState::Unknown(n) => "Unknown("@ + decimal(n as nat) + ")"@,
    }
}

/// A protocol as `{:?}` prints it, such as "Usb" or "Unknown(9)".
pub open spec fn protocol_name(p: DeviceProtocol) -> Seq<char> {
    match p {
        DeviceProtocol::Usb => "Usb"@,
        DeviceProtocol::Tcp => "Tcp"@,
        DeviceProtocol::Unknown(n) => "Unknown("@ + decimal(n as nat) + ")"@,
    }
}

/// Display text of a descriptor:
/// `DeviceInfo(name: N, id: I, state: S, protocol: P)`.
pub open spec fn device_info_text(d: NativeDeviceInfo) -> Seq<char> {
    "DeviceInfo(name: "@ + d.name@ + ", id: "@ + d.device_id@ + ", state: "@ + state_name(
        state_of(d.state),
    ) + ", protocol: "@ + protocol_name(protocol_of(d.protocol)) + ")"@
}

fn push_state_name(s: &mut String, state: DeviceState)
    ensures
        final(s)@ == old(s)@ + state_name(state),
{
    match state {
        DeviceState::Unconnected => s.append("Unconnected"),
        DeviceState::Connected => s.append("Connected"),
        DeviceState::Bootloader => s.append("Bootloader"),
        DeviceState::Initializing => s.append("Initializing"),
        DeviceState::Failed => s.append("Failed"),
        DeviceState::Unknown(n) => {
            s.append("Unknown(");
            push_decimal(s, n as u64);
            s.append(")");
        },
    }
}

fn push_protocol_name(s: &mut String, protocol: DeviceProtocol)
    ensures
        final(s)@ == old(s)@ + protocol_name(protocol),
{
    match protocol {
        DeviceProtocol::Usb => s.append("Usb"),
        DeviceProtocol::Tcp => s.append("Tcp"),
        DeviceProtocol::Unknown(n) => {
            s.append("Unknown(");
            push_decimal(s, n as u64);
            s.append(")");
        },
    }
}

/// Hands a mutable borrow of a raw descriptor on unchanged.
fn reborrow(inner: &mut NativeDeviceInfo) -> (r: &mut NativeDeviceInfo)
    ensures
        *r == *old(inner),
        *final(inner) == *final(r),
    no_unwind
{
    inner
}

/// A cached text agrees with the field it stands for.
pub open spec fn cache_agrees(cache: Option<String>, field: Seq<char>) -> bool {
    cache matches Some(c) ==> c@ == field
}

impl DeviceInfo {
    /// Every cached text equals the field it was read from. Every constructor
    /// establishes this and every method keeps it.
    pub closed spec fn caches_agree(self) -> bool {
        &&& cache_agrees(self.cached_name, self.inner.name@)
        &&& cache_agrees(self.cached_mxid, self.inner.device_id@)
        &&& cache_agrees(self.cached_device_id, self.inner.device_id@)
    }

    /// Cache agreement holds of every descriptor at all times.
    #[verifier::type_invariant]
    closed spec fn cache_invariant(self) -> bool {
        self.caches_agree()
    }

    /// The raw descriptor.
    pub closed spec fn native(self) -> NativeDeviceInfo {
        self.inner
    }

    /// The cached name, if it has been read.
    pub closed spec fn name_cache(self) -> Option<String> {
        self.cached_name
    }

    /// The cached MXID, if it has been read.
    pub closed spec fn mxid_cache(self) -> Option<String> {
        self.cached_mxid
    }

    /// The cached device identifier, if it has been read.
    pub closed spec fn device_id_cache(self) -> Option<String> {
        self.cached_device_id
    }

    /// Descriptor wrapping `inner`, with nothing cached.
    pub fn from_inner(inner: NativeDeviceInfo) -> (r: DeviceInfo)
        ensures
            r.native() == inner,
            r.caches_agree(),
            r.name_cache() is None,
            r.mxid_cache() is None,
            r.device_id_cache() is None,
    {
        DeviceInfo { inner, cached_name: None, cached_mxid: None, cached_device_id: None }
    }

    /// Descriptor with empty text fields and every code 0 (unconnected, USB,
    /// RVC2, no error).
    pub fn new() -> (r: DeviceInfo)
        ensures
            r.native().name@ == Seq::<char>::empty(),
            r.native().device_id@ == Seq::<char>::empty(),
            r.native().state == 0,
            r.native().protocol == 0,
            r.native().platform == 0,
            r.native().status == 0,
            r.caches_agree(),
            r.name_cache() is None,
            r.mxid_cache() is None,
            r.device_id_cache() is None,
    {
        DeviceInfo::from_inner(
            NativeDeviceInfo {
                name: String::new(),
                device_id: String::new(),
                state: 0,
                protocol: 0,
                platform: 0,
                status: 0,
            },
        )
    }

    /// Device name, read from the descriptor.
    pub fn get_name(&self) -> (r: String)
        ensures
            r@ == self.native().name@,
    {
        self.inner.name.clone()
    }

    /// Device name, cached after the first read.
    pub fn name(&mut self) -> (r: &str)
        ensures
            r@ == (match old(self).name_cache() {
                Some(c) => c@,
                None => old(self).native().name@,
            }),
            r@ == old(self).native().name@,
            final(self).caches_agree(),
            final(self).native() == old(self).native(),
            final(self).name_cache() matches Some(c) && c@ == r@,
            final(self).mxid_cache() == old(self).mxid_cache(),
            final(self).device_id_cache() == old(self).device_id_cache(),
    {
        proof {
            use_type_invariant(&*self);
        }
        if self.cached_name.is_none() {
            self.cached_name = Some(self.inner.name.clone());
        }
        self.cached_name.as_ref().unwrap().as_str()
    }

    /// Device identifier, read from the descriptor.
    pub fn get_device_id(&self) -> (r: String)
        ensures
            r@ == self.native().device_id@,
    {
        self.inner.device_id.clone()
    }

    /// Device identifier, cached after the first read.
    pub fn device_id(&mut self) -> (r: &str)
        ensures
            r@ == (match old(self).device_id_cache() {
                Some(c) => c@,
                None => old(self).native().device_id@,
            }),
            r@ == old(self).native().device_id@,
            final(self).caches_agree(),
            final(self).native() == old(self).native(),
            final(self).device_id_cache() matches Some(c) && c@ == r@,
            final(self).name_cache() == old(self).name_cache(),
            final(self).mxid_cache() == old(self).mxid_cache(),
    {
        proof {
            use_type_invariant(&*self);
        }
        if self.cached_device_id.is_none() {
            self.cached_device_id = Some(self.inner.device_id.clone());
        }
        self.cached_device_id.as_ref().unwrap().as_str()
    }

    /// Unique device identifier (MXID); the descriptor's device identifier.
    pub fn get_mxid(&self) -> (r: String)
        ensures
            r@ == self.native().device_id@,
    {
        self.inner.device_id.clone()
    }

    /// MXID, cached after the first read.
    pub fn mxid(&mut self) -> (r: &str)
        ensures
            r@ == (match old(self).mxid_cache() {
                Some(c) => c@,
                None => old(self).native().device_id@,
            }),
            r@ == old(self).native().device_id@,
            final(self).caches_agree(),
            final(self).native() == old(self).native(),
            final(self).mxid_cache() matches Some(c) && c@ == r@,
            final(self).name_cache() == old(self).name_cache(),
            final(self).device_id_cache() == old(self).device_id_cache(),
    {
        proof {
            use_type_invariant(&*self);
        }
        if self.cached_mxid.is_none() {
            self.cached_mxid = Some(self.inner.device_id.clone());
        }
        self.cached_mxid.as_ref().unwrap().as_str()
    }

    /// Connection state decoded from the state code.
    pub fn state(&self) -> (r: DeviceState)
        ensures
            r == state_of(self.native().state),
    {
        match self.inner.state {
            0 => DeviceState::Unconnected,
            1 => DeviceState::Connected,
            2 => DeviceState::Bootloader,
            3 => DeviceState::Initializing,
            4 => DeviceState::Failed,
            other => DeviceState::Unknown(other),
        }
    }

    /// Protocol decoded from the protocol code.
    pub fn protocol(&self) -> (r: DeviceProtocol)
        ensures
            r == protocol_of(self.native().protocol),
    {
        match self.inner.protocol {
            0 => DeviceProtocol::Usb,
            1 => DeviceProtocol::Tcp,
            other => DeviceProtocol::Unknown(other),
        }
    }

    /// Platform decoded from the platform code.
    pub fn platform(&self) -> (r: Platform)
        ensures
            r == platform_of(self.native().platform),
    {
        match self.inner.platform {
            0 => Platform::Rvc2,
            1 => Platform::Rvc3,
            2 => Platform::Rvc4,
            other => Platform::Unknown(other),
        }
    }

    /// Status (error) code.
    pub fn status(&self) -> (r: u32)
        ensures
            r == self.native().status,
    {
        self.inner.status
    }

    /// Whether the device is connected.
    pub fn is_connected(&self) -> (r: bool)
        ensures
            r == (state_of(self.native().state) == DeviceState::Connected),
    {
        matches!(self.state(), DeviceState::Connected)
    }

    /// Whether the device is in bootloader mode.
    pub fn is_bootloader(&self) -> (r: bool)
        ensures
            r == (state_of(self.native().state) == DeviceState::Bootloader),
    {
        matches!(self.state(), DeviceState::Bootloader)
    }

    /// Whether the device uses the USB protocol.
    pub fn is_usb(&self) -> (r: bool)
        ensures
            r == (protocol_of(self.native().protocol) == DeviceProtocol::Usb),
    {
        matches!(self.protocol(), DeviceProtocol::Usb)
    }

    /// Whether the device uses the TCP protocol.
    pub fn is_tcp(&self) -> (r: bool)
        ensures
            r == (protocol_of(self.native().protocol) == DeviceProtocol::Tcp),
    {
        matches!(self.protocol(), DeviceProtocol::Tcp)
    }

    /// The raw descriptor.
    pub fn inner(&self) -> (r: &NativeDeviceInfo)
        ensures
            *r == self.native(),
    {
        &self.inner
    }

    /// The raw descriptor for modification; every cached text is dropped first.
    pub fn inner_mut(&mut self) -> (r: &mut NativeDeviceInfo)
        ensures
            *r == old(self).native(),
            final(self).native() == *final(r),
            final(self).caches_agree(),
            final(self).name_cache() is None,
            final(self).mxid_cache() is None,
            final(self).device_id_cache() is None,
    {
        proof {
            use_type_invariant(&*self);
        }
        self.cached_name = None;
        self.cached_mxid = None;
        self.cached_device_id = None;
        reborrow(&mut self.inner)
    }

    /// Display text: name, identifier, decoded state and decoded protocol, as
    /// `DeviceInfo(name: N, id: I, state: S, protocol: P)`.
    pub fn display_string(&self) -> (r: String)
        ensures
            r@ == device_info_text(self.native()),
    {
        let mut s = String::from_str("DeviceInfo(name: ");
        s.append(self.inner.name.as_str());
        s.append(", id: ");
        s.append(self.inner.device_id.as_str());
        s.append(", state: ");
        push_state_name(&mut s, self.state());
        s.append(", protocol: ");
        push_protocol_name(&mut s, self.protocol());
        s.append(")");
        s
    }

    /// The cached name, if the name has been read since the last modification.
    pub fn cached_name(&self) -> (r: &Option<String>)
        ensures
            *r == self.name_cache(),
    {
        &self.cached_name
    }
}

impl Default for DeviceInfo {
    fn default() -> (r: Self)
        ensures
            r.native().name@ == Seq::<char>::empty(),
            r.native().device_id@ == Seq::<char>::empty(),
            r.native().state == 0,
            r.native().protocol == 0,
            r.native().platform == 0,
            r.native().status == 0,
            r.caches_agree(),
            r.name_cache() is None,
            r.mxid_cache() is None,
            r.device_id_cache() is None,
    {
        DeviceInfo::new()
    }
}

impl Clone for DeviceInfo {
    fn clone(&self) -> (r: Self)
        ensures
            r.native() == self.native(),
            r.caches_agree() == self.caches_agree(),
            r.name_cache() == self.name_cache(),
            r.mxid_cache() == self.mxid_cache(),
            r.device_id_cache() == self.device_id_cache(),
    {
        proof {
            use_type_invariant(self);
        }
        DeviceInfo {
            inner: self.inner.clone(),
            cached_name: self.cached_name.clone(),
            cached_mxid: self.cached_mxid.clone(),
            cached_device_id: self.cached_device_id.clone(),
        }
    }
}

} // verus!
