//! Protocol encoding for LDX-family line-display controllers.
//!
//! Each logical command (text, scroll, smart scroll, cursor toggle, reset,
//! brightness) maps to an exact, hardware-defined byte sequence.  The byte
//! tables are an opaque vendor lookup, not derivable from a formula, so the
//! spec functions below state them literally.
use vstd::prelude::*;
use vstd::string::StrSliceExecFns;
use vstd::string::StringSliceAdditionalSpecFns;

use crate::errors::DisplayError;
use crate::Display;

verus! {

/// Byte that terminates every scroll and smart-scroll payload.
pub const END_BYTE: u8 = 0x0d;

/// Byte that separates the parts of a smart-scroll payload.
pub const SEPARATOR_BYTE: u8 = 0x1c;

/// Set the brightness level of the display.
#[derive(Debug, Clone, Copy, PartialEq, Eq, Structural)]
pub enum Brightness {
    TwentyPercent,
    FortyPercent,
    SixtyPercent,
    Full,
}

/// Adjust the scroll direction for scroll and smart scroll modes.
#[derive(Debug, Clone, Copy, PartialEq, Eq, Structural)]
pub enum ScrollDirection {
    Left,
    Right,
}

/// Adjust the scroll position for scroll and smart scroll modes.
#[derive(Debug, Clone, Copy, PartialEq, Eq, Structural)]
pub enum ScrollPosition {
    Top,
    Bottom,
}

/// Enable or disable the blinking cursor.
#[derive(Debug, Clone, Copy, PartialEq, Eq, Structural)]
pub enum CursorMode {
    On,
    Off,
}

/// The percentage byte the controller expects for each brightness level.
pub open spec fn spec_brightness_byte(level: Brightness) -> u8 {
    match level {
        Brightness::TwentyPercent => 20,
        Brightness::FortyPercent => 40,
        Brightness::SixtyPercent => 60,
        Brightness::Full => 100,
    }
}

impl From<Brightness> for u8 {
    /// The percentage byte for each brightness level.
    fn from(val: Brightness) -> (r: u8)
        ensures
            r == spec_brightness_byte(val),
    {
        match val {
            Brightness::TwentyPercent => 20,
            Brightness::FortyPercent => 40,
            Brightness::SixtyPercent => 60,
            Brightness::Full => 100,
        }
    }
}

impl vstd::std_specs::convert::FromSpecImpl<Brightness> for u8 {
    open spec fn obeys_from_spec() -> bool {
        true
    }

    open spec fn from_spec(val: Brightness) -> u8 {
        spec_brightness_byte(val)
    }
}

/// The single command byte for each cursor mode.
pub open spec fn spec_cursor_byte(mode: CursorMode) -> u8 {
    match mode {
        CursorMode::On => 0x13,
        CursorMode::Off => 0x14,
    }
}

/// The hardware-defined lead-in bytes of a plain scroll command.
pub open spec fn scroll_prefix(direction: ScrollDirection, position: ScrollPosition) -> Seq<u8> {
    match (direction, position) {
        (ScrollDirection::Left, ScrollPosition::Top) => seq![0x05u8],
        (ScrollDirection::Left, ScrollPosition::Bottom) => seq![0x1bu8, 0x06u8],
        (ScrollDirection::Right, ScrollPosition::Top) => seq![0x1bu8, 0x07u8],
        (ScrollDirection::Right, ScrollPosition::Bottom) => seq![0x1bu8, 0x0bu8],
    }
}

/// The hardware-defined lead-in bytes of a smart-scroll command.
pub open spec fn smart_scroll_prefix(direction: ScrollDirection, position: ScrollPosition) -> Seq<
    u8,
> {
    match (direction, position) {
        (ScrollDirection::Left, ScrollPosition::Top) => seq![0x1bu8, 0x15u8],
        (ScrollDirection::Left, ScrollPosition::Bottom) => seq![0x1bu8, 0x16u8],
        (ScrollDirection::Right, ScrollPosition::Top) => seq![0x1bu8, 0x13u8],
        (ScrollDirection::Right, ScrollPosition::Bottom) => seq![0x1bu8, 0x14u8],
    }
}

/// The parts' bytes concatenated in order, with one separator byte inserted
/// between consecutive parts (a single part produces no separator).
pub open spec fn joined_parts(parts: Seq<Seq<u8>>) -> Seq<u8>
    decreases parts.len(),
{
    if parts.len() == 0 {
        Seq::empty()
    } else if parts.len() == 1 {
        parts[0]
    } else {
        joined_parts(parts.drop_last()) + seq![SEPARATOR_BYTE] + parts.last()
    }
}

/// The full wire format of a plain scroll command: lead-in bytes, the text
/// verbatim, then the end byte.
pub open spec fn scroll_encoding(
    text: Seq<u8>,
    direction: ScrollDirection,
    position: ScrollPosition,
) -> Seq<u8> {
    scroll_prefix(direction, position) + text + seq![END_BYTE]
}

/// The full wire format of a smart-scroll command: lead-in bytes, one leading
/// separator, the joined parts, then the end byte.  The leading separator is
/// in addition to the separators between parts; it is a literal property of
/// the wire format.
pub open spec fn smart_scroll_encoding(
    parts: Seq<Seq<u8>>,
    direction: ScrollDirection,
    position: ScrollPosition,
) -> Seq<u8> {
    smart_scroll_prefix(direction, position) + seq![SEPARATOR_BYTE] + joined_parts(parts)
        + seq![END_BYTE]
}

/// Encode a plain scroll command for the given text and placement.
pub fn encode_scroll(msg: &str, direction: ScrollDirection, position: ScrollPosition) -> (r: Vec<
    u8,
>)
    ensures
        r@ == scroll_encoding(msg.spec_bytes(), direction, position),
{
    let mut buf: Vec<u8> = match (direction, position) {
        (ScrollDirection::Left, ScrollPosition::Top) => vec![0x05u8],
        (ScrollDirection::Left, ScrollPosition::Bottom) => vec![0x1bu8, 0x06u8],
        (ScrollDirection::Right, ScrollPosition::Top) => vec![0x1bu8, 0x07u8],
        (ScrollDirection::Right, ScrollPosition::Bottom) => vec![0x1bu8, 0x0bu8],
    };
    proof {
        assert(buf@ == scroll_prefix(direction, position));
    }
    let mut text = msg.as_bytes_vec();
    buf.append(&mut text);
    buf.push(END_BYTE);
    proof {
        assert(buf@ =~= scroll_encoding(msg.spec_bytes(), direction, position));
    }
    buf
}

/// The UTF-8 bytes of each part, in order.
pub open spec fn parts_bytes(parts: Seq<String>) -> Seq<Seq<u8>> {
    parts.map_values(|p: String| vstd::utf8::encode_utf8(p@))
}

/// Encode a smart-scroll command: each part scrolls on and then off the
/// screen, in order.
pub fn encode_smart_scroll(
    parts: &Vec<String>,
    direction: ScrollDirection,
    position: ScrollPosition,
) -> (r: Vec<u8>)
    ensures
        r@ == smart_scroll_encoding(parts_bytes(parts@), direction, position),
{
    let mut buf: Vec<u8> = match (direction, position) {
        (ScrollDirection::Left, ScrollPosition::Top) => vec![0x1bu8, 0x15u8],
        (ScrollDirection::Left, ScrollPosition::Bottom) => vec![0x1bu8, 0x16u8],
        (ScrollDirection::Right, ScrollPosition::Top) => vec![0x1bu8, 0x13u8],
        (ScrollDirection::Right, ScrollPosition::Bottom) => vec![0x1bu8, 0x14u8],
    };
    proof {
        assert(buf@ == smart_scroll_prefix(direction, position));
    }
    buf.push(SEPARATOR_BYTE);
    let n = parts.len();
    let mut k: usize = 0;
    let mut joined: Vec<u8> = Vec::new();
    while k < n
        invariant
            k <= n,
            n == parts@.len(),
            joined@ == joined_parts(parts_bytes(parts@).take(k as int)),
        decreases n - k,
    {
        if k > 0 {
            joined.push(SEPARATOR_BYTE);
        }
        let mut part = parts[k].as_str().as_bytes_vec();
        joined.append(&mut part);
        proof {
            let pb = parts_bytes(parts@);
            assert(pb.take(k + 1).drop_last() =~= pb.take(k as int));
            assert(pb.take(k + 1).last() == pb[k as int]);
            assert(joined@ =~= joined_parts(pb.take(k + 1)));
        }
        k += 1;
    }
    proof {
        assert(parts_bytes(parts@).take(n as int) =~= parts_bytes(parts@));
    }
    buf.append(&mut joined);
    buf.push(END_BYTE);
    proof {
        assert(buf@ =~= smart_scroll_encoding(parts_bytes(parts@), direction, position));
    }
    buf
}

/// Encode a cursor toggle: a single command byte.
pub fn encode_cursor(mode: CursorMode) -> (r: Vec<u8>)
    ensures
        r@ == seq![spec_cursor_byte(mode)],
{
    match mode {
        CursorMode::On => vec![0x13u8],
        CursorMode::Off => vec![0x14u8],
    }
}

/// Encode a display reset: the single byte `0x1f`.
pub fn encode_reset() -> (r: Vec<u8>)
    ensures
        r@ == seq![0x1fu8],
{
    vec![0x1fu8]
}

/// Encode a brightness change: `0x04` followed by the percentage byte.
pub fn encode_brightness(level: Brightness) -> (r: Vec<u8>)
    ensures
        r@ == seq![0x04u8, spec_brightness_byte(level)],
{
    match level {
        Brightness::TwentyPercent => vec![0x04u8, 20u8],
        Brightness::FortyPercent => vec![0x04u8, 40u8],
        Brightness::SixtyPercent => vec![0x04u8, 60u8],
        Brightness::Full => vec![0x04u8, 100u8],
    }
}


/// Timeout, in seconds, of the single blocking bulk write.
pub const WRITE_TIMEOUT_SECS: u64 = 1;

/// One step of the endpoint activation sequence, in the mandatory order.
#[derive(Debug, Clone, Copy, PartialEq, Eq, Structural)]
pub enum ActivationStep {
    SetConfiguration,
    ClaimInterface,
    SetAlternateSetting,
}

/// The first activation step that fails, given the outcome each step would
/// have: configuration is tried first, the interface claim only after it
/// succeeded, the alternate setting only after both.
pub open spec fn spec_first_failed_step(
    config_ok: bool,
    claim_ok: bool,
    setting_ok: bool,
) -> Option<ActivationStep> {
    if !config_ok {
        Some(ActivationStep::SetConfiguration)
    } else if !claim_ok {
        Some(ActivationStep::ClaimInterface)
    } else if !setting_ok {
        Some(ActivationStep::SetAlternateSetting)
    } else {
        None
    }
}

/// Which activation step fails first, if any.
pub fn first_failed_step(config_ok: bool, claim_ok: bool, setting_ok: bool) -> (r: Option<
    ActivationStep,
>)
    ensures
        r == spec_first_failed_step(config_ok, claim_ok, setting_ok),
{
    if !config_ok {
        Some(ActivationStep::SetConfiguration)
    } else if !claim_ok {
        Some(ActivationStep::ClaimInterface)
    } else if !setting_ok {
        Some(ActivationStep::SetAlternateSetting)
    } else {
        None
    }
}

/// Activation fails fast: once a step fails, the outcomes of the later
/// steps cannot change which step is reported, because the later steps are
/// never consulted.
pub proof fn lemma_activation_fails_fast(
    config_ok: bool,
    claim_a: bool,
    setting_a: bool,
    claim_b: bool,
    setting_b: bool,
)
    ensures
        !config_ok ==> spec_first_failed_step(config_ok, claim_a, setting_a)
            == spec_first_failed_step(config_ok, claim_b, setting_b),
        config_ok && !claim_a ==> spec_first_failed_step(config_ok, claim_a, setting_a)
            == spec_first_failed_step(config_ok, claim_a, setting_b),
{
}

/// Activation succeeds exactly when every step succeeds.
pub proof fn lemma_activation_success(config_ok: bool, claim_ok: bool, setting_ok: bool)
    ensures
        spec_first_failed_step(config_ok, claim_ok, setting_ok) is None <==> (config_ok && claim_ok
            && setting_ok),
{
}

/// Find a connected display via USB.  This searches for available displays
/// and returns a session for the first device that matches the supported
/// vendor/product identity, after activating its first bulk OUT endpoint.
pub fn find_display() -> (r: Result<Display, DisplayError>)
    ensures
        r matches Err(e) ==> (e is DeviceList || e is Descriptor || e is NoDevicesFound
            || e is DeviceFind || e is HandleOpen || e is SetActiveConfig || e is ClaimInterface
            || e is SetAlternateSetting),
{
    let dev = match crate::helpers::find_first_device() {
        Ok(d) => d,
        Err(e) => {
            return Err(e);
        },
    };
    let num_configurations = match crate::usb::read_num_configurations(&dev) {
        Ok(n) => n,
        Err(e) => {
            return Err(DisplayError::Descriptor { source: e });
        },
    };
    let endpoint = match crate::helpers::resolve_device_endpoint(
        &dev,
        num_configurations,
        crate::helpers::TransferKind::Bulk,
        crate::helpers::EndpointDirection::Out,
    ) {
        Ok(Some(ep)) => ep,
        Ok(None) => {
            return Err(DisplayError::NoDevicesFound);
        },
        Err(e) => {
            return Err(e);
        },
    };
    let handle = match crate::usb::open_device(&dev) {
        Ok(h) => h,
        Err(e) => {
            return Err(DisplayError::HandleOpen { source: e });
        },
    };
    let mut display = Display { device: handle, endpoint };
    match display.configure_endpoint(&endpoint) {
        Ok(()) => Ok(display),
        Err(e) => Err(e),
    }
}

impl Display {
    /// Perform the three-step endpoint activation sequence, strictly in
    /// order: select the configuration, claim the interface, select the
    /// alternate setting.  Each step must succeed before the next is
    /// attempted; the first failure aborts with its own error.
    fn configure_endpoint(&mut self, endpoint: &crate::helpers::UsbEndpoint) -> (r: Result<
        (),
        DisplayError,
    >)
        ensures
            final(self).spec_endpoint() == old(self).spec_endpoint(),
            r matches Err(e) ==> (e is SetActiveConfig || e is ClaimInterface
                || e is SetAlternateSetting),
    {
        match crate::usb::set_active_configuration(&self.device, endpoint.config) {
            Ok(()) => {},
            Err(e) => {
                return Err(DisplayError::SetActiveConfig { source: e });
            },
        }
        match crate::usb::claim_interface(&self.device, endpoint.interface) {
            Ok(()) => {},
            Err(e) => {
                return Err(DisplayError::ClaimInterface { source: e });
            },
        }
        match crate::usb::set_alternate_setting(
            &self.device,
            endpoint.interface,
            endpoint.setting,
        ) {
            Ok(()) => {},
            Err(e) => {
                return Err(DisplayError::SetAlternateSetting { source: e });
            },
        }
        Ok(())
    }

    /// Write a byte buffer to the display: one blocking bulk transfer to
    /// the session's endpoint, with the fixed timeout.
    pub fn write_raw(&mut self, payload: &[u8]) -> (r: Result<(), DisplayError>)
        ensures
            final(self).spec_endpoint() == old(self).spec_endpoint(),
            r matches Err(e) ==> e is WriteBulk,
    {
        match crate::usb::bulk_write(
            &self.device,
            self.endpoint.address,
            payload,
            WRITE_TIMEOUT_SECS,
        ) {
            Ok(_) => Ok(()),
            Err(e) => Err(DisplayError::WriteBulk { source: e }),
        }
    }

    /// Write a string to the display: its bytes verbatim, with no framing.
    pub fn write_str(&mut self, payload: &str) -> (r: Result<(), DisplayError>)
        ensures
            final(self).spec_endpoint() == old(self).spec_endpoint(),
            r matches Err(e) ==> e is WriteBulk,
    {
        self.write_raw(payload.as_bytes())
    }

    /// Enable or disable the cursor.
    pub fn cursor(&mut self, mode: CursorMode) -> (r: Result<(), DisplayError>)
        ensures
            final(self).spec_endpoint() == old(self).spec_endpoint(),
            r matches Err(e) ==> e is WriteBulk,
    {
        let buf = encode_cursor(mode);
        self.write_raw(buf.as_slice())
    }

    /// Scroll a message in the given direction and position.
    pub fn write_str_scroll(
        &mut self,
        msg: &str,
        direction: ScrollDirection,
        position: ScrollPosition,
    ) -> (r: Result<(), DisplayError>)
        ensures
            final(self).spec_endpoint() == old(self).spec_endpoint(),
            r matches Err(e) ==> e is WriteBulk,
    {
        let buf = encode_scroll(msg, direction, position);
        self.write_raw(buf.as_slice())
    }

    /// Write a "smart scroll" message: each string in `msg` scrolls on and
    /// then off the screen, in order.
    pub fn write_str_smart_scroll(
        &mut self,
        msg: Vec<String>,
        direction: ScrollDirection,
        position: ScrollPosition,
    ) -> (r: Result<(), DisplayError>)
        ensures
            final(self).spec_endpoint() == old(self).spec_endpoint(),
            r matches Err(e) ==> e is WriteBulk,
    {
        let buf = encode_smart_scroll(&msg, direction, position);
        self.write_raw(buf.as_slice())
    }

    /// Reset the display.
    pub fn reset_display(&mut self) -> (r: Result<(), DisplayError>)
        ensures
            final(self).spec_endpoint() == old(self).spec_endpoint(),
            r matches Err(e) ==> e is WriteBulk,
    {
        let buf = encode_reset();
        self.write_raw(buf.as_slice())
    }

    /// Adjust the brightness of the display.
    pub fn change_brightness(&mut self, brightness: Brightness) -> (r: Result<(), DisplayError>)
        ensures
            final(self).spec_endpoint() == old(self).spec_endpoint(),
            r matches Err(e) ==> e is WriteBulk,
    {
        let buf = encode_brightness(brightness);
        self.write_raw(buf.as_slice())
    }


    /// Execute one parsed command against this session: a display
    /// operation, or for an info request the identification line to print.
    pub fn run_command(&mut self, command: crate::cli::Commands) -> (r: Result<
        Option<String>,
        DisplayError,
    >)
        ensures
            final(self).spec_endpoint() == old(self).spec_endpoint(),
            r matches Err(e) ==> (e is WriteBulk || e is Descriptor),
            r matches Ok(info) ==> (info is Some <==> command is Info),
    {
        match command {
            crate::cli::Commands::Info => {
                match self.device_string() {
                    Ok(info) => Ok(Some(info)),
                    Err(e) => Err(e),
                }
            },
            crate::cli::Commands::Reset => {
                match self.reset_display() {
                    Ok(()) => Ok(None),
                    Err(e) => Err(e),
                }
            },
            crate::cli::Commands::Print { message } => {
                match self.write_str(crate::cli::handle_escape_strings(message).as_str()) {
                    Ok(()) => Ok(None),
                    Err(e) => Err(e),
                }
            },
            crate::cli::Commands::Scroll { message, direction, position } => {
                match self.write_str_scroll(
                    message.as_str(),
                    crate::display::ScrollDirection::from(direction),
                    crate::display::ScrollPosition::from(position),
                ) {
                    Ok(()) => Ok(None),
                    Err(e) => Err(e),
                }
            },
            crate::cli::Commands::Smart { message, direction, position } => {
                match self.write_str_smart_scroll(
                    message,
                    crate::display::ScrollDirection::from(direction),
                    crate::display::ScrollPosition::from(position),
                ) {
                    Ok(()) => Ok(None),
                    Err(e) => Err(e),
                }
            },
            crate::cli::Commands::Cursor(mode) => {
                match self.cursor(crate::display::CursorMode::from(mode)) {
                    Ok(()) => Ok(None),
                    Err(e) => Err(e),
                }
            },
        }
    }

    /// The human-readable identification line for this session's device
    /// handle.
    pub fn device_string(&self) -> (r: Result<String, DisplayError>)
        ensures
            r matches Err(e) ==> e is Descriptor,
    {
        crate::helpers::get_device_string(&crate::usb::handle_device(&self.device))
    }
}

} // verus!
