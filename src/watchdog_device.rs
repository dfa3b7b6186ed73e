//! The option model of a watchdog driver and the verified steps of each
//! session operation: what is handed to a control call and what the caller
//! gets back from its outcome.
use crate::ioctl::{
    watchdog_info, WDIOC_GETBOOTSTATUS, WDIOC_GETPRETIMEOUT, WDIOC_GETSTATUS, WDIOC_GETTEMP,
    WDIOC_GETTIMELEFT, WDIOC_GETTIMEOUT,
};
use nix::errno::Errno;
use vstd::prelude::*;
use vstd::utf8::{decode_utf8, valid_utf8};

verus! {

/// Relies on `nix::errno::Errno` only as the error code that a failed
/// control call reports; it is carried through, never looked into.
#[verifier::external_type_specification]
#[verifier::external_body]
pub struct ExErrno(Errno);

/// Capabilities a driver can report, and status bits it can set.
///
/// All watchdog drivers report in their identity record which of these they
/// support; the current and at-boot status bitmasks use the same bits.
#[derive(Clone, Copy, Debug, PartialEq, Eq, Structural)]
pub enum OptionFlags {
    /// Reset due to CPU overheat.
    Overheat,
    /// Fan failed.
    FanFault,
    /// External relay 1.
    Extern1,
    /// External relay 2.
    Extern2,
    /// Power bad / power fault.
    PowerUnder,
    /// Card previously reset the CPU.
    CardReset,
    /// Power over voltage.
    PowerOver,
    /// The timeout can be set.
    SetTimeout,
    /// Supports magic close char.
    MagicClose,
    /// The pretimeout can be set.
    PreTimeout,
    /// The watchdog only triggers an alarm, it does not reset.
    AlarmOnly,
    /// Keep alive ping reply.
    KeepalivePing,
}

impl OptionFlags {
    /// The bit of this flag in the driver's bitmasks.
    pub open spec fn spec_value(&self) -> u32 {
        match *self {
            OptionFlags::Overheat => 0x0001,
            OptionFlags::FanFault => 0x0002,
            OptionFlags::Extern1 => 0x0004,
            OptionFlags::Extern2 => 0x0008,
            OptionFlags::PowerUnder => 0x0010,
            OptionFlags::CardReset => 0x0020,
            OptionFlags::PowerOver => 0x0040,
            OptionFlags::SetTimeout => 0x0080,
            OptionFlags::MagicClose => 0x0100,
            OptionFlags::PreTimeout => 0x0200,
            OptionFlags::AlarmOnly => 0x0400,
            OptionFlags::KeepalivePing => 0x8000,
        }
    }

    /// The name under which the flag is shown.
    pub open spec fn spec_name(&self) -> Seq<char> {
        match *self {
            OptionFlags::Overheat => "Overheat"@,
            OptionFlags::FanFault => "FanFault"@,
            OptionFlags::Extern1 => "Extern1"@,
            OptionFlags::Extern2 => "Extern2"@,
            OptionFlags::PowerUnder => "PowerUnder"@,
            OptionFlags::CardReset => "CardReset"@,
            OptionFlags::PowerOver => "PowerOver"@,
            OptionFlags::SetTimeout => "SetTimeout"@,
            OptionFlags::MagicClose => "MagicClose"@,
            OptionFlags::PreTimeout => "PreTimeout"@,
            OptionFlags::AlarmOnly => "AlarmOnly"@,
            OptionFlags::KeepalivePing => "KeepalivePing"@,
        }
    }

    /// The bit of this flag in the driver's bitmasks.
    #[verifier::when_used_as_spec(spec_value)]
    pub fn value(&self) -> (r: u32)
        ensures
            r == self.spec_value(),
    {
        match self {
            Self::Overheat => 0x0001,
            Self::FanFault => 0x0002,
            Self::Extern1 => 0x0004,
            Self::Extern2 => 0x0008,
            Self::PowerUnder => 0x0010,
            Self::CardReset => 0x0020,
            Self::PowerOver => 0x0040,
            Self::SetTimeout => 0x0080,
            Self::MagicClose => 0x0100,
            Self::PreTimeout => 0x0200,
            Self::AlarmOnly => 0x0400,
            Self::KeepalivePing => 0x8000,
        }
    }

    /// The name under which the flag is shown.
    pub fn name(&self) -> (r: String)
        ensures
            r@ == self.spec_name(),
    {
        match self {
            Self::Overheat => String::from_str("Overheat"),
            Self::FanFault => String::from_str("FanFault"),
            Self::Extern1 => String::from_str("Extern1"),
            Self::Extern2 => String::from_str("Extern2"),
            Self::PowerUnder => String::from_str("PowerUnder"),
            Self::CardReset => String::from_str("CardReset"),
            Self::PowerOver => String::from_str("PowerOver"),
            Self::SetTimeout => String::from_str("SetTimeout"),
            Self::MagicClose => String::from_str("MagicClose"),
            Self::PreTimeout => String::from_str("PreTimeout"),
            Self::AlarmOnly => String::from_str("AlarmOnly"),
            Self::KeepalivePing => String::from_str("KeepalivePing"),
        }
    }

    /// Whether this flag is present in a bitmask reported by the driver.
    pub fn is_set_in(&self, mask: u32) -> (r: bool)
        ensures
            r == flag_in_mask(mask, self.spec_value()),
    {
        mask & self.value() != 0
    }
}

/// A flag is present in a bitmask when the two share a set bit.
pub open spec fn flag_in_mask(mask: u32, flag: u32) -> bool {
    mask & flag != 0
}

/// Each capability flag is a single bit, and no two flags share it.
pub proof fn lemma_option_flags_are_distinct_bits(a: OptionFlags, b: OptionFlags)
    ensures
        a.spec_value() != 0,
        a.spec_value() & (a.spec_value() - 1) as u32 == 0,
        a != b ==> a.spec_value() & b.spec_value() == 0,
{
    let x = a.spec_value();
    let y = b.spec_value();
    assert(x & (x - 1) as u32 == 0) by (bit_vector)
        requires
            x == 1 || x == 2 || x == 4 || x == 8 || x == 0x10 || x == 0x20 || x == 0x40 || x
                == 0x80 || x == 0x100 || x == 0x200 || x == 0x400 || x == 0x8000,
    ;
    if a != b {
        assert(x & y == 0) by (bit_vector)
            requires
                x != y,
                x == 1 || x == 2 || x == 4 || x == 8 || x == 0x10 || x == 0x20 || x == 0x40 || x
                    == 0x80 || x == 0x100 || x == 0x200 || x == 0x400 || x == 0x8000,
                y == 1 || y == 2 || y == 4 || y == 8 || y == 0x10 || y == 0x20 || y == 0x40 || y
                    == 0x80 || y == 0x100 || y == 0x200 || y == 0x400 || y == 0x8000,
        ;
    }
}

/// Operations that can be requested of the driver.
#[derive(Clone, Copy, Debug, PartialEq, Eq, Structural)]
pub enum SetOptionFlags {
    /// Turn off the watchdog timer.
    DisableCard,
    /// Turn on the watchdog timer.
    EnableCard,
    /// Kernel panic on temperature trip.
    TempPanic,
}

impl SetOptionFlags {
    /// The number of this operation in the driver's set-options call.
    pub open spec fn spec_value(&self) -> u32 {
        match *self {
            SetOptionFlags::DisableCard => 0x0001,
            SetOptionFlags::EnableCard => 0x0002,
            SetOptionFlags::TempPanic => 0x0004,
        }
    }

    /// The name under which the operation is shown.
    pub open spec fn spec_name(&self) -> Seq<char> {
        match *self {
            SetOptionFlags::DisableCard => "DisableCard"@,
            SetOptionFlags::EnableCard => "EnableCard"@,
            SetOptionFlags::TempPanic => "TempPanic"@,
        }
    }

    /// The number of this operation in the driver's set-options call.
    #[verifier::when_used_as_spec(spec_value)]
    pub fn value(&self) -> (r: u32)
        ensures
            r == self.spec_value(),
    {
        match self {
            Self::DisableCard => 0x0001,
            Self::EnableCard => 0x0002,
            Self::TempPanic => 0x0004,
        }
    }

    /// The name under which the operation is shown.
    pub fn name(&self) -> (r: String)
        ensures
            r@ == self.spec_name(),
    {
        match self {
            Self::DisableCard => String::from_str("DisableCard"),
            Self::EnableCard => String::from_str("EnableCard"),
            Self::TempPanic => String::from_str("TempPanic"),
        }
    }

    /// The integer handed to the set-options call: the operation's number,
    /// which always fits.
    pub fn ioctl_arg(&self) -> (r: i32)
        ensures
            r as int == self.spec_value() as int,
    {
        self.value() as i32
    }
}

/// The two status bitmasks a driver reports.
#[derive(Clone, Copy, Debug, PartialEq, Eq, Structural)]
pub enum BitmaskQueryType {
    /// The status now.
    GetStatus,
    /// The status at the last boot.
    GetBootStatus,
}

impl BitmaskQueryType {
    /// The control-call number of the query.
    pub fn command(&self) -> (r: u8)
        ensures
            r == (match *self {
                BitmaskQueryType::GetStatus => WDIOC_GETSTATUS,
                BitmaskQueryType::GetBootStatus => WDIOC_GETBOOTSTATUS,
            }),
    {
        match self {
            Self::GetStatus => WDIOC_GETSTATUS,
            Self::GetBootStatus => WDIOC_GETBOOTSTATUS,
        }
    }
}

/// The single-integer values a driver reports.
#[derive(Clone, Copy, Debug, PartialEq, Eq, Structural)]
pub enum IntGetterType {
    /// The timeout, in seconds.
    GetTimeout,
    /// The pretimeout, in seconds.
    GetPreTimeout,
    /// The seconds left before a reset.
    GetTimeLeft,
    /// The temperature, in degrees Fahrenheit.
    GetTemp,
}

impl IntGetterType {
    /// The control-call number of the query.
    pub fn command(&self) -> (r: u8)
        ensures
            r == (match *self {
                IntGetterType::GetTimeout => WDIOC_GETTIMEOUT,
                IntGetterType::GetPreTimeout => WDIOC_GETPRETIMEOUT,
                IntGetterType::GetTimeLeft => WDIOC_GETTIMELEFT,
                IntGetterType::GetTemp => WDIOC_GETTEMP,
            }),
    {
        match self {
            Self::GetTimeout => WDIOC_GETTIMEOUT,
            Self::GetPreTimeout => WDIOC_GETPRETIMEOUT,
            Self::GetTimeLeft => WDIOC_GETTIMELEFT,
            Self::GetTemp => WDIOC_GETTEMP,
        }
    }
}

/// The text that a lossy UTF-8 decoding gives for the bytes.
pub uninterp spec fn lossy_text(bytes: Seq<u8>) -> Seq<char>;

/// Relies on `String::from_utf8_lossy`: the bytes decoded as UTF-8, each
/// invalid sequence replaced, never failing; valid UTF-8 is decoded as is.
#[verifier::external_body]
fn decode_lossy(bytes: &[u8]) -> (r: String)
    ensures
        r@ == lossy_text(bytes@),
        valid_utf8(bytes@) ==> r@ == decode_utf8(bytes@),
{
    String::from_utf8_lossy(bytes).into_owned()
}

impl watchdog_info {
    /// Whether the driver that filled this record supports the capability.
    pub fn supports(&self, option: &OptionFlags) -> (r: bool)
        ensures
            r == flag_in_mask(self.options, option.spec_value()),
    {
        option.is_set_in(self.options)
    }

    /// The driver's identity, decoded as text; invalid bytes are replaced.
    pub fn identity_text(&self) -> (r: String)
        ensures
            r@ == lossy_text(self.identity@),
            valid_utf8(self.identity@) ==> r@ == decode_utf8(self.identity@),
    {
        decode_lossy(self.identity.as_slice())
    }
}

/// A capability's support is read from the record's capability mask alone:
/// two records with the same mask give the same answer, and the answer is
/// whether the mask holds the capability's bit.
pub proof fn lemma_option_support_is_mask_bit(
    a: watchdog_info,
    b: watchdog_info,
    option: OptionFlags,
)
    requires
        a.options == b.options,
    ensures
        flag_in_mask(a.options, option.spec_value()) == flag_in_mask(
            b.options,
            option.spec_value(),
        ),
        flag_in_mask(a.options, option.spec_value()) <==> a.options & option.spec_value()
            == option.spec_value(),
{
    let m = a.options;
    let x = option.spec_value();
    assert((m & x != 0) <==> (m & x == x)) by (bit_vector)
        requires
            x == 1 || x == 2 || x == 4 || x == 8 || x == 0x10 || x == 0x20 || x == 0x40 || x
                == 0x80 || x == 0x100 || x == 0x200 || x == 0x400 || x == 0x8000,
    ;
}

/// The firmware version, from the outcome of the support query and the record
/// it filled.
pub fn firmware_version_outcome(
    call: Result<i32, Errno>,
    info: &watchdog_info,
) -> (r: Result<u32, Errno>)
    ensures
        r == (match call {
            Ok(_) => Ok(info.firmware_version),
            Err(e) => Err::<u32, Errno>(e),
        }),
{
    match call {
        Ok(_) => Ok(info.firmware_version),
        Err(e) => Err(e),
    }
}

/// Whether a capability is supported, from the outcome of the support query
/// and the record it filled.
pub fn option_supported_outcome(
    call: Result<i32, Errno>,
    info: &watchdog_info,
    option: &OptionFlags,
) -> (r: Result<bool, Errno>)
    ensures
        r == (match call {
            Ok(_) => Ok(flag_in_mask(info.options, option.spec_value())),
            Err(e) => Err::<bool, Errno>(e),
        }),
{
    match call {
        Ok(_) => Ok(info.supports(option)),
        Err(e) => Err(e),
    }
}

/// The driver's identity, from the outcome of the support query and the record
/// it filled. The identity is decoded whatever the outcome; a failed call still
/// reports its error.
pub fn driver_identity_outcome(
    call: Result<i32, Errno>,
    info: &watchdog_info,
) -> (r: Result<String, Errno>)
    ensures
        r is Ok <==> call is Ok,
        r matches Ok(s) ==> s@ == lossy_text(info.identity@),
        r matches Ok(s) ==> (valid_utf8(info.identity@) ==> s@ == decode_utf8(info.identity@)),
        call matches Err(e) ==> r == Err::<String, Errno>(e),
{
    let text = info.identity_text();
    match call {
        Ok(_) => Ok(text),
        Err(e) => Err(e),
    }
}

/// Whether a flag is set in a status bitmask, from the outcome of the status
/// query and the bitmask it filled.
pub fn status_outcome(
    call: Result<i32, Errno>,
    bitmask: i32,
    option: &OptionFlags,
) -> (r: Result<bool, Errno>)
    ensures
        r == (match call {
            Ok(_) => Ok(flag_in_mask(bitmask as u32, option.spec_value())),
            Err(e) => Err::<bool, Errno>(e),
        }),
{
    match call {
        Ok(_) => Ok(option.is_set_in(bitmask as u32)),
        Err(e) => Err(e),
    }
}

/// The value a single-integer call reports, from its outcome and the integer
/// as the driver left it. For a set call this is the value the driver
/// accepted, which may differ from the one requested.
pub fn int_outcome(call: Result<i32, Errno>, value: i32) -> (r: Result<i32, Errno>)
    ensures
        r == (match call {
            Ok(_) => Ok(value),
            Err(e) => Err::<i32, Errno>(e),
        }),
{
    match call {
        Ok(_) => Ok(value),
        Err(e) => Err(e),
    }
}

/// The byte whose write, just before the device is released, disarms the
/// timer on drivers that support magic close.
pub const MAGIC_CLOSE_CHAR: u8 = 86;

/// The character of a decimal digit.
pub open spec fn digit_char(d: nat) -> char {
    (48 + d) as u8 as char
}

/// The decimal representation of a number, without leading zeros.
pub open spec fn decimal(n: nat) -> Seq<char>
    decreases n,
{
    if n < 10 {
        seq![digit_char(n)]
    } else {
        decimal(n / 10).push(digit_char(n % 10))
    }
}

/// The device node of the watchdog with the given number, or of the default
/// watchdog.
pub open spec fn spec_device_path(id: Option<u8>) -> Seq<char> {
    match id {
        None => "/dev/watchdog"@,
        Some(n) => "/dev/watchdog"@ + decimal(n as nat),
    }
}

fn digit_str(d: u8) -> (r: &'static str)
    requires
        d < 10,
    ensures
        r@ == seq![digit_char(d as nat)],
{
    proof {
        reveal_strlit("0");
        reveal_strlit("1");
        reveal_strlit("2");
        reveal_strlit("3");
        reveal_strlit("4");
        reveal_strlit("5");
        reveal_strlit("6");
        reveal_strlit("7");
        reveal_strlit("8");
        reveal_strlit("9");
    }
    match d {
        0 => "0",
        1 => "1",
        2 => "2",
        3 => "3",
        4 => "4",
        5 => "5",
        6 => "6",
        7 => "7",
        8 => "8",
        _ => "9",
    }
}

fn append_decimal(s: &mut String, n: u8)
    ensures
        final(s)@ == old(s)@ + decimal(n as nat),
{
    let ghost n0 = n as nat;
    if n >= 100 {
        s.append(digit_str(n / 100));
    }
    if n >= 10 {
        s.append(digit_str((n / 10) % 10));
    }
    s.append(digit_str(n % 10));
    proof {
        assert(n0 / 10 / 10 == n0 / 100) by (nonlinear_arith)
            requires
                n0 < 256,
        ;
        reveal_with_fuel(decimal, 3);
    }
}

/// The path of the watchdog device node: the default node, or the node with
/// the given number.
pub fn device_path(id: Option<u8>) -> (r: String)
    ensures
        r@ == spec_device_path(id),
{
    let mut path = String::from_str("/dev/watchdog");
    if let Some(n) = id {
        append_decimal(&mut path, n);
    }
    path
}

} // verus!
