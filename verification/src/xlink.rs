//! XLink transport types: platforms, device states, protocols, error codes and
//! the fixed-size device descriptor with its NUL-terminated name and MXID.

use vstd::prelude::*;
use vstd::utf8::{decode_utf8, encode_utf8, encode_scalar, valid_utf8, has_width_1_encoding,
    has_width_2_encoding, has_width_3_encoding, has_width_4_encoding, leading_byte_width_1,
    leading_byte_width_2, leading_byte_width_3, leading_byte_width_4, last_continuation_byte,
    second_last_continuation_byte, third_last_continuation_byte};
use vstd::string::StringSliceAdditionalSpecFns;

verus! {

/// XLink platform types.
#[derive(Debug, Clone, Copy, PartialEq, Eq, Structural)]
pub enum XLinkPlatform {
    /// Any platform
    AnyPlatform,
    /// Myriad 2 platform
    Myriad2,
    /// Myriad X platform
    MyriadX,
    /// RVC3 platform
    Rvc3,
    /// RVC4 platform
    Rvc4,
}

/// Native number of each variant.
pub open spec fn xlink_platform_code(x: XLinkPlatform) -> u32 {
    match x {
        XLinkPlatform::AnyPlatform => 0,
        XLinkPlatform::Myriad2 => 2450,
        XLinkPlatform::MyriadX => 2480,
        XLinkPlatform::Rvc3 => 3000,
        XLinkPlatform::Rvc4 => 4000,
    }
}

impl XLinkPlatform {
    /// Native number of this variant.
    pub fn to_raw(&self) -> (r: u32)
        ensures
            r == xlink_platform_code(*self),
    {
        match self {
            XLinkPlatform::AnyPlatform => 0,
            XLinkPlatform::Myriad2 => 2450,
            XLinkPlatform::MyriadX => 2480,
            XLinkPlatform::Rvc3 => 3000,
            XLinkPlatform::Rvc4 => 4000,
        }
    }
}

/// XLink device states.
#[derive(Debug, Clone, Copy, PartialEq, Eq, Structural)]
pub enum XLinkDeviceState {
    /// Any state
    AnyState,
    /// Device is booted
    Booted,
    /// Device is not booted
    Unbooted,
    /// Device is in bootloader mode
    Bootloader,
    /// Device has flash booted / is booted (non-exclusive)
    FlashBooted,
    /// Gateway state
    Gate,
    /// Gateway booted state
    GateBooted,
    /// Gateway setup state
    GateSetup,
}

/// Native number of each variant.
pub open spec fn xlink_state_code(x: XLinkDeviceState) -> u32 {
    match x {
        XLinkDeviceState::AnyState => 0,
        XLinkDeviceState::Booted => 1,
        XLinkDeviceState::Unbooted => 2,
        XLinkDeviceState::Bootloader => 3,
        XLinkDeviceState::FlashBooted => 4,
        XLinkDeviceState::Gate => 5,
        XLinkDeviceState::GateBooted => 6,
        XLinkDeviceState::GateSetup => 7,
    }
}

impl XLinkDeviceState {
    /// Native number of this variant.
    pub fn to_raw(&self) -> (r: u32)
        ensures
            r == xlink_state_code(*self),
    {
        match self {
            XLinkDeviceState::AnyState => 0,
            XLinkDeviceState::Booted => 1,
            XLinkDeviceState::Unbooted => 2,
            XLinkDeviceState::Bootloader => 3,
            XLinkDeviceState::FlashBooted => 4,
            XLinkDeviceState::Gate => 5,
            XLinkDeviceState::GateBooted => 6,
            XLinkDeviceState::GateSetup => 7,
        }
    }
}

impl XLinkDeviceState {
    /// Alias of `FlashBooted`.
    pub const BOOTED_NON_EXCLUSIVE: XLinkDeviceState = XLinkDeviceState::FlashBooted;
}

/// XLink protocol types.
#[derive(Debug, Clone, Copy, PartialEq, Eq, Structural)]
pub enum XLinkProtocol {
    /// USB over Vision Security Chip
    UsbVsc,
    /// USB over Communication Device Class
    UsbCdc,
    /// PCIe
    Pcie,
    /// IPC
    Ipc,
    /// TCP/IP
    TcpIp,
    /// Local shared memory
    LocalShdmem,
    /// TCP/IP or local shared memory
    TcpIpOrLocalShdmem,
    /// Number of protocols
    NmbOfProtocols,
    /// Any protocol
    AnyProtocol,
}

/// Native number of each variant.
pub open spec fn xlink_protocol_code(x: XLinkProtocol) -> u32 {
    match x {
        XLinkProtocol::UsbVsc => 0,
        XLinkProtocol::UsbCdc => 1,
        XLinkProtocol::Pcie => 2,
        XLinkProtocol::Ipc => 3,
        XLinkProtocol::TcpIp => 4,
        XLinkProtocol::LocalShdmem => 5,
        XLinkProtocol::TcpIpOrLocalShdmem => 6,
        XLinkProtocol::NmbOfProtocols => 7,
        XLinkProtocol::AnyProtocol => 8,
    }
}

impl XLinkProtocol {
    /// Native number of this variant.
    pub fn to_raw(&self) -> (r: u32)
        ensures
            r == xlink_protocol_code(*self),
    {
        match self {
            XLinkProtocol::UsbVsc => 0,
            XLinkProtocol::UsbCdc => 1,
            XLinkProtocol::Pcie => 2,
            XLinkProtocol::Ipc => 3,
            XLinkProtocol::TcpIp => 4,
            XLinkProtocol::LocalShdmem => 5,
            XLinkProtocol::TcpIpOrLocalShdmem => 6,
            XLinkProtocol::NmbOfProtocols => 7,
            XLinkProtocol::AnyProtocol => 8,
        }
    }
}

/// XLink error codes.
#[derive(Debug, Clone, Copy, PartialEq, Eq, Structural)]
pub enum XLinkError {
    /// Success
    Success,
    /// Already open
    AlreadyOpen,
    /// Communication not open
    CommunicationNotOpen,
    /// Communication fail
    CommunicationFail,
    /// Communication unknown error
    CommunicationUnknownError,
    /// Device not found
    DeviceNotFound,
    /// Timeout
    Timeout,
    /// Error
    Error,
    /// Out of memory
    OutOfMemory,
    /// Insufficient permissions
    InsufficientPermissions,
    /// Device already in use
    DeviceAlreadyInUse,
    /// Not implemented
    NotImplemented,
    /// USB initialization error
    InitUsbError,
    /// TCP/IP initialization error
    InitTcpIpError,
    /// Local shared memory initialization error
    InitLocalShdmemError,
    /// TCP/IP or local shared memory initialization error
    InitTcpIpOrLocalShdmemError,
    /// PCIe initialization error
    InitPcieError,
}

/// Native number of each variant.
pub open spec fn xlink_error_code(x: XLinkError) -> u32 {
    match x {
        XLinkError::Success => 0,
        XLinkError::AlreadyOpen => 1,
        XLinkError::CommunicationNotOpen => 2,
        XLinkError::CommunicationFail => 3,
        XLinkError::CommunicationUnknownError => 4,
        XLinkError::DeviceNotFound => 5,
        XLinkError::Timeout => 6,
        XLinkError::Error => 7,
        XLinkError::OutOfMemory => 8,
        XLinkError::InsufficientPermissions => 9,
        XLinkError::DeviceAlreadyInUse => 10,
        XLinkError::NotImplemented => 11,
        XLinkError::InitUsbError => 12,
        XLinkError::InitTcpIpError => 13,
        XLinkError::InitLocalShdmemError => 14,
        XLinkError::InitTcpIpOrLocalShdmemError => 15,
        XLinkError::InitPcieError => 16,
    }
}

impl XLinkError {
    /// Native number of this variant.
    pub fn to_raw(&self) -> (r: u32)
        ensures
            r == xlink_error_code(*self),
    {
        match self {
            XLinkError::Success => 0,
            XLinkError::AlreadyOpen => 1,
            XLinkError::CommunicationNotOpen => 2,
            XLinkError::CommunicationFail => 3,
            XLinkError::CommunicationUnknownError => 4,
            XLinkError::DeviceNotFound => 5,
            XLinkError::Timeout => 6,
            XLinkError::Error => 7,
            XLinkError::OutOfMemory => 8,
            XLinkError::InsufficientPermissions => 9,
            XLinkError::DeviceAlreadyInUse => 10,
            XLinkError::NotImplemented => 11,
            XLinkError::InitUsbError => 12,
            XLinkError::InitTcpIpError => 13,
            XLinkError::InitLocalShdmemError => 14,
            XLinkError::InitTcpIpOrLocalShdmemError => 15,
            XLinkError::InitPcieError => 16,
        }
    }
}

/// Distinct variants of each XLink enumeration have distinct native numbers.
pub proof fn lemma_xlink_codes_injective(
    p: XLinkPlatform,
    q: XLinkPlatform,
    s: XLinkDeviceState,
    t: XLinkDeviceState,
    u: XLinkProtocol,
    v: XLinkProtocol,
    e: XLinkError,
    f: XLinkError,
)
    ensures
        xlink_platform_code(p) == xlink_platform_code(q) ==> p == q,
        xlink_state_code(s) == xlink_state_code(t) ==> s == t,
        xlink_protocol_code(u) == xlink_protocol_code(v) ==> u == v,
        xlink_error_code(e) == xlink_error_code(f) ==> e == f,
{
}

// ---------------------------------------------------------------------------
// Fixed-size, NUL-terminated text fields
// ---------------------------------------------------------------------------

/// Contents of an `n`-byte text field that stores `bytes`: the first
/// `min(len, n - 1)` bytes (room is kept for the terminating NUL), then zeros.
pub open spec fn fixed_field(bytes: Seq<u8>, n: nat) -> Seq<i8> {
    Seq::new(n, |i: int| if i < bytes.len() && i < n - 1 { bytes[i] as i8 } else { 0i8 })
}

/// `end` is where the text of field `f` stops: no NUL before it, and it is the
/// field's length or the index of a NUL.
pub open spec fn is_text_end(f: Seq<i8>, end: int) -> bool {
    &&& 0 <= end <= f.len()
    &&& forall|i: int| 0 <= i < end ==> f[i] != 0
    &&& (end == f.len() || f[end] == 0)
}

/// Length of the text in field `f`: the index of its first NUL, or the whole
/// field when it has none.
pub open spec fn text_len(f: Seq<i8>) -> int {
    choose|end: int| is_text_end(f, end)
}

/// The text bytes of field `f`.
pub open spec fn field_bytes(f: Seq<i8>) -> Seq<u8> {
    f.take(text_len(f)).map_values(|c: i8| c as u8)
}

/// Replacement text that `String::from_utf8_lossy` makes of bytes that are not
/// valid UTF-8.
pub uninterp spec fn lossy_utf8_replacement(bytes: Seq<u8>) -> Seq<char>;

/// Text of a byte string read as UTF-8: the decoded characters when the bytes
/// are valid UTF-8; otherwise the text with each invalid sequence replaced.
pub open spec fn lossy_text(bytes: Seq<u8>) -> Seq<char> {
    if valid_utf8(bytes) {
        decode_utf8(bytes)
    } else {
        lossy_utf8_replacement(bytes)
    }
}

/// Text of field `f`.
pub open spec fn field_text(f: Seq<i8>) -> Seq<char> {
    lossy_text(field_bytes(f))
}

/// Calls `String::from_utf8_lossy`: valid UTF-8 is decoded as it is; other input
/// has its invalid sequences replaced, which is left to the name
/// `lossy_utf8_replacement`.
#[verifier::external_body]
fn from_utf8_lossy(bytes: &[u8]) -> (r: String)
    ensures
        valid_utf8(bytes@) ==> r@ == decode_utf8(bytes@),
        !valid_utf8(bytes@) ==> r@ == lossy_utf8_replacement(bytes@),
{
    String::from_utf8_lossy(bytes).to_string()
}

proof fn lemma_text_end_unique(f: Seq<i8>, e: int)
    requires
        is_text_end(f, e),
    ensures
        text_len(f) == e,
{
    let c = choose|end: int| is_text_end(f, end);
    assert(is_text_end(f, c));
    if c < e {
        assert(f[c] != 0);
    }
    if e < c {
        assert(f[e] != 0);
    }
}

/// Index where the text of `f` ends.
fn find_text_end<const N: usize>(f: &[i8; N]) -> (end: usize)
    ensures
        end == text_len(f@),
        end <= N,
{
    let mut end: usize = 0;
    while end < N && f[end] != 0
        invariant
            end <= N,
            f@.len() == N,
            forall|i: int| 0 <= i < end ==> f@[i] != 0,
        decreases N - end,
    {
        end = end + 1;
    }
    proof {
        lemma_text_end_unique(f@, end as int);
    }
    end
}

/// Text stored in a fixed field.
fn read_field<const N: usize>(f: &[i8; N]) -> (r: String)
    ensures
        r@ == field_text(f@),
{
    let end = find_text_end(f);
    let mut bytes: Vec<u8> = Vec::new();
    let mut i: usize = 0;
    while i < end
        invariant
            end == text_len(f@),
            end <= N,
            f@.len() == N,
            i <= end,
            bytes@ == f@.take(i as int).map_values(|c: i8| c as u8),
        decreases end - i,
    {
        bytes.push(f[i] as u8);
        i = i + 1;
        assert(bytes@ =~= f@.take(i as int).map_values(|c: i8| c as u8));
    }
    from_utf8_lossy(bytes.as_slice())
}

/// Field of `N` bytes storing `bytes`.
fn write_field<const N: usize>(bytes: &[u8]) -> (f: [i8; N])
    requires
        N >= 1,
    ensures
        f@ == fixed_field(bytes@, N as nat),
{
    let len = if bytes.len() < N - 1 {
        bytes.len()
    } else {
        N - 1
    };
    let mut f = [0i8; N];
    let mut i: usize = 0;
    while i < len
        invariant
            len <= bytes@.len(),
            len <= N - 1,
            i <= len,
            f@.len() == N,
            forall|k: int| 0 <= k < i ==> f@[k] == bytes@[k] as i8,
            forall|k: int| i <= k < N ==> f@[k] == 0,
        decreases len - i,
    {
        f[i] = bytes[i] as i8;
        i = i + 1;
    }
    assert(f@ =~= fixed_field(bytes@, N as nat));
    f
}

// ---------------------------------------------------------------------------
// Device descriptor
// ---------------------------------------------------------------------------

/// Device descriptor: protocol, platform, a 64-byte NUL-terminated name, state,
/// a 32-byte NUL-terminated MXID, status and the name-hint flag.
#[derive(Debug, Clone, Copy)]
pub struct DeviceDesc {
    /// Protocol used
    pub protocol: XLinkProtocol,
    /// Device platform
    pub platform: XLinkPlatform,
    /// Device name (64 bytes, NUL-terminated)
    pub name: [i8; 64],
    /// Device state
    pub state: XLinkDeviceState,
    /// Device MXID (32 bytes, NUL-terminated)
    pub mxid: [i8; 32],
    /// Status/error code
    pub status: XLinkError,
    /// Name hint only flag
    pub name_hint_only: bool,
}

impl Default for DeviceDesc {
    fn default() -> (r: Self)
        ensures
            r.protocol == XLinkProtocol::UsbVsc,
            r.platform == XLinkPlatform::AnyPlatform,
            r.name@ == Seq::new(64, |i: int| 0i8),
            r.state == XLinkDeviceState::AnyState,
            r.mxid@ == Seq::new(32, |i: int| 0i8),
            r.status == XLinkError::Success,
            !r.name_hint_only,
    {
        let r = DeviceDesc {
            protocol: XLinkProtocol::UsbVsc,
            platform: XLinkPlatform::AnyPlatform,
            name: [0i8; 64],
            state: XLinkDeviceState::AnyState,
            mxid: [0i8; 32],
            status: XLinkError::Success,
            name_hint_only: false,
        };
        assert(r.name@ =~= Seq::new(64, |i: int| 0i8));
        assert(r.mxid@ =~= Seq::new(32, |i: int| 0i8));
        r
    }
}

impl DeviceDesc {
    /// Descriptor with every field at its default: USB (VSC), any platform, any
    /// state, success, empty name and MXID, no name hint.
    pub fn new() -> (r: Self)
        ensures
            r.protocol == XLinkProtocol::UsbVsc,
            r.platform == XLinkPlatform::AnyPlatform,
            r.name@ == Seq::new(64, |i: int| 0i8),
            r.state == XLinkDeviceState::AnyState,
            r.mxid@ == Seq::new(32, |i: int| 0i8),
            r.status == XLinkError::Success,
            !r.name_hint_only,
    {
        Self::default()
    }

    /// Sets the name: its UTF-8 bytes, cut to 63 so that a NUL terminator fits.
    pub fn with_name(self, name: &str) -> (r: Self)
        ensures
            r.name@ == fixed_field(name.spec_bytes(), 64),
            r.protocol == self.protocol,
            r.platform == self.platform,
            r.state == self.state,
            r.mxid == self.mxid,
            r.status == self.status,
            r.name_hint_only == self.name_hint_only,
    {
        let mut r = self;
        r.name = write_field::<64>(name.as_bytes());
        r
    }

    /// Sets the MXID: its UTF-8 bytes, cut to 31 so that a NUL terminator fits.
    pub fn with_mxid(self, mxid: &str) -> (r: Self)
        ensures
            r.mxid@ == fixed_field(mxid.spec_bytes(), 32),
            r.protocol == self.protocol,
            r.platform == self.platform,
            r.name == self.name,
            r.state == self.state,
            r.status == self.status,
            r.name_hint_only == self.name_hint_only,
    {
        let mut r = self;
        r.mxid = write_field::<32>(mxid.as_bytes());
        r
    }

    /// Sets the platform.
    pub fn with_platform(self, platform: XLinkPlatform) -> (r: Self)
        ensures
            r == (DeviceDesc { platform, ..self }),
    {
        let mut r = self;
        r.platform = platform;
        r
    }

    /// Sets the state.
    pub fn with_state(self, state: XLinkDeviceState) -> (r: Self)
        ensures
            r == (DeviceDesc { state, ..self }),
    {
        let mut r = self;
        r.state = state;
        r
    }

    /// Sets the protocol.
    pub fn with_protocol(self, protocol: XLinkProtocol) -> (r: Self)
        ensures
            r == (DeviceDesc { protocol, ..self }),
    {
        let mut r = self;
        r.protocol = protocol;
        r
    }

    /// Sets the status.
    pub fn with_status(self, status: XLinkError) -> (r: Self)
        ensures
            r == (DeviceDesc { status, ..self }),
    {
        let mut r = self;
        r.status = status;
        r
    }

    /// Sets the name-hint-only flag.
    pub fn with_name_hint_only(self, hint_only: bool) -> (r: Self)
        ensures
            r == (DeviceDesc { name_hint_only: hint_only, ..self }),
    {
        let mut r = self;
        r.name_hint_only = hint_only;
        r
    }

    /// The name: the bytes up to the first NUL, read as UTF-8 (invalid sequences
    /// replaced).
    pub fn get_name(&self) -> (r: String)
        ensures
            r@ == field_text(self.name@),
    {
        read_field(&self.name)
    }

    /// The MXID: the bytes up to the first NUL, read as UTF-8 (invalid sequences
    /// replaced).
    pub fn get_mxid(&self) -> (r: String)
        ensures
            r@ == field_text(self.mxid@),
    {
        read_field(&self.mxid)
    }
}

proof fn lemma_scalar_bytes_nonzero(c: char)
    requires
        c != '\0',
    ensures
        forall|j: int|
            0 <= j < encode_scalar(c as u32).len() ==> #[trigger] encode_scalar(c as u32)[j] != 0,
{
    let v = c as u32;
    vstd::utf8::char_is_scalar(c);
    assert(v != 0);
    if has_width_1_encoding(v) {
        assert(leading_byte_width_1(v) != 0) by (bit_vector)
            requires
                0 < v <= 0x7F,
        ;
    } else {
        assert(last_continuation_byte(v) != 0) by (bit_vector);
        assert(second_last_continuation_byte(v) != 0) by (bit_vector);
        assert(third_last_continuation_byte(v) != 0) by (bit_vector);
        assert(leading_byte_width_2(v) != 0) by (bit_vector);
        assert(leading_byte_width_3(v) != 0) by (bit_vector);
        assert(leading_byte_width_4(v) != 0) by (bit_vector);
    }
}

proof fn lemma_encoding_has_no_nul(s: Seq<char>)
    requires
        forall|i: int| 0 <= i < s.len() ==> s[i] != '\0',
    ensures
        forall|j: int| 0 <= j < encode_utf8(s).len() ==> #[trigger] encode_utf8(s)[j] != 0,
    decreases s.len(),
{
    if s.len() > 0 {
        lemma_scalar_bytes_nonzero(s[0]);
        lemma_encoding_has_no_nul(s.drop_first());
        let a = encode_scalar(s[0] as u32);
        let b = encode_utf8(s.drop_first());
        assert(encode_utf8(s) == a + b);
        assert forall|j: int| 0 <= j < encode_utf8(s).len() implies #[trigger] encode_utf8(s)[j]
            != 0 by {
            if j < a.len() {
                assert(encode_utf8(s)[j] == a[j]);
            } else {
                assert(encode_utf8(s)[j] == b[j - a.len()]);
            }
        }
    }
}

/// A text field written with a string and read back gives the string again,
/// when the string has no NUL character and its UTF-8 encoding fits in
/// `n - 1` bytes.
pub proof fn lemma_field_text_round_trip(s: Seq<char>, n: nat)
    requires
        forall|i: int| 0 <= i < s.len() ==> s[i] != '\0',
        encode_utf8(s).len() < n,
    ensures
        field_text(fixed_field(encode_utf8(s), n)) == s,
{
    let b = encode_utf8(s);
    let f = fixed_field(b, n);
    lemma_encoding_has_no_nul(s);
    assert forall|i: int| 0 <= i < b.len() implies f[i] != 0 by {
        let x = b[i];
        assert(x != 0);
        assert((x as i8) != 0) by (bit_vector)
            requires
                x != 0,
        ;
    }
    assert(is_text_end(f, b.len() as int));
    lemma_text_end_unique(f, b.len() as int);
    assert forall|i: int| 0 <= i < b.len() implies (f[i] as u8) == b[i] by {
        let x = b[i];
        assert(((x as i8) as u8) == x) by (bit_vector);
    }
    assert(field_bytes(f) =~= b);
    vstd::utf8::encode_utf8_valid_utf8(s);
    vstd::utf8::encode_utf8_decode_utf8(s);
}

/// Naming a descriptor and reading the name back gives the name, when it has no
/// NUL character and its UTF-8 encoding is at most 63 bytes; the same holds of
/// the MXID with at most 31 bytes.
pub proof fn lemma_desc_text_round_trip(name: Seq<char>, mxid: Seq<char>)
    requires
        forall|i: int| 0 <= i < name.len() ==> name[i] != '\0',
        forall|i: int| 0 <= i < mxid.len() ==> mxid[i] != '\0',
        encode_utf8(name).len() <= 63,
        encode_utf8(mxid).len() <= 31,
    ensures
        field_text(fixed_field(encode_utf8(name), 64)) == name,
        field_text(fixed_field(encode_utf8(mxid), 32)) == mxid,
{
    lemma_field_text_round_trip(name, 64);
    lemma_field_text_round_trip(mxid, 32);
}

} // verus!
