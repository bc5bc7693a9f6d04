//! The USB device-state model and the descriptor data the device is built
//! from.
//!
//! Enumeration walks Default → Addressed → Configured, with Suspended
//! entered when the host signals bus idle; every transition is driven by
//! polling the bus, never by the echo loop itself.  The descriptors — the
//! vendor/product IDs, the three descriptor strings and the CDC class code
//! — are validated here before the device is composed on the bus.

use vstd::prelude::*;

verus! {

/// The USB device class code for CDC, used for OS driver matching.
pub const USB_CLASS_CDC: u8 = 0x02;

/// The longest payload a USB string descriptor can carry (its length field
/// is one byte, shared with a two-byte header, over two-byte units).
pub const MAX_STRING_LEN: usize = 126;

/// The enumeration states of the standard USB device model.
#[derive(Clone, Copy, PartialEq, Eq, Structural, Debug)]
pub enum DeviceState {
    /// Just attached: the bus is live but no address is assigned.
    DefaultState,
    /// The host assigned an address.
    Addressed,
    /// The host selected a configuration; the data endpoints are active.
    Configured,
    /// The host signalled bus idle.
    Suspended,
}

/// The bus events that move the device between states, as the poll call
/// processes them.
#[derive(Clone, Copy, PartialEq, Eq, Structural, Debug)]
pub enum BusEvent {
    /// A bus reset: back to the default state, whatever came before.
    Reset,
    /// The host assigned an address (meaningful only in the default state).
    AddressAssigned,
    /// The host selected a configuration (meaningful only when addressed).
    ConfigurationSelected,
    /// The host signalled bus idle.
    SuspendSignaled,
}

/// The transition table of the device model: reset and suspend act from any
/// state; address assignment and configuration selection advance the
/// enumeration chain one step and are ignored elsewhere.
pub open spec fn spec_transition(s: DeviceState, e: BusEvent) -> DeviceState {
    match e {
        BusEvent::Reset => DeviceState::DefaultState,
        BusEvent::AddressAssigned => if s is DefaultState {
            DeviceState::Addressed
        } else {
            s
        },
        BusEvent::ConfigurationSelected => if s is Addressed {
            DeviceState::Configured
        } else {
            s
        },
        BusEvent::SuspendSignaled => DeviceState::Suspended,
    }
}

/// Step the device model by one bus event.
pub fn transition(s: DeviceState, e: BusEvent) -> (r: DeviceState)
    ensures
        r == spec_transition(s, e),
{
    match e {
        BusEvent::Reset => DeviceState::DefaultState,
        BusEvent::AddressAssigned => {
            if matches!(s, DeviceState::DefaultState) {
                DeviceState::Addressed
            } else {
                s
            }
        },
        BusEvent::ConfigurationSelected => {
            if matches!(s, DeviceState::Addressed) {
                DeviceState::Configured
            } else {
                s
            }
        },
        BusEvent::SuspendSignaled => DeviceState::Suspended,
    }
}

/// The data endpoints carry traffic only once the host has configured the
/// device.
pub open spec fn spec_endpoints_active(s: DeviceState) -> bool {
    s is Configured
}

/// Whether the bulk endpoints are active in a given state.
pub fn endpoints_active(s: DeviceState) -> (r: bool)
    ensures
        r == spec_endpoints_active(s),
{
    matches!(s, DeviceState::Configured)
}

/// A device can only be found configured if it already was, or if it was
/// addressed and the host selected a configuration: the enumeration chain
/// cannot be skipped.
pub proof fn lemma_configured_needs_addressed(s: DeviceState, e: BusEvent)
    ensures
        spec_transition(s, e) is Configured ==> s is Configured || (s is Addressed
            && e is ConfigurationSelected),
{
}

/// The state after a whole batch of bus events, oldest first.
pub open spec fn spec_apply_events(s: DeviceState, events: Seq<BusEvent>) -> DeviceState
    decreases events.len(),
{
    if events.len() == 0 {
        s
    } else {
        spec_apply_events(spec_transition(s, events[0]), events.skip(1))
    }
}

/// Process every bus event one poll call found pending, oldest first.
pub fn apply_events(s: DeviceState, events: &Vec<BusEvent>) -> (r: DeviceState)
    ensures
        r == spec_apply_events(s, events@),
{
    let mut state = s;
    let mut i: usize = 0;
    proof {
        assert(events@.skip(0) =~= events@);
    }
    while i < events.len()
        invariant
            i <= events@.len(),
            spec_apply_events(state, events@.skip(i as int)) == spec_apply_events(s, events@),
        decreases events@.len() - i,
    {
        proof {
            assert(events@.skip(i as int)[0] == events@[i as int]);
            assert(events@.skip(i as int).skip(1) =~= events@.skip(i + 1));
        }
        state = transition(state, events[i]);
        i = i + 1;
    }
    proof {
        assert(events@.skip(events@.len() as int) =~= Seq::<BusEvent>::empty());
    }
    state
}

/// Until the host selects a configuration, no batch of other bus events can
/// make an unconfigured device configured, so the data endpoints stay
/// inactive through enumeration.
pub proof fn lemma_unconfigured_until_selected(s: DeviceState, events: Seq<BusEvent>)
    requires
        !(s is Configured),
        forall|i: int| 0 <= i < events.len() ==> !(events[i] is ConfigurationSelected),
    ensures
        !(spec_apply_events(s, events) is Configured),
        !spec_endpoints_active(spec_apply_events(s, events)),
    decreases events.len(),
{
    if events.len() > 0 {
        lemma_configured_needs_addressed(s, events[0]);
        assert forall|i: int| 0 <= i < events.skip(1).len() implies !(events.skip(1)[i]
            is ConfigurationSelected) by {
            assert(events.skip(1)[i] == events[i + 1]);
        }
        lemma_unconfigured_until_selected(spec_transition(s, events[0]), events.skip(1));
    }
}

/// A descriptor string is plain ASCII and fits a USB string descriptor.
pub open spec fn spec_string_ok(s: Seq<u8>) -> bool {
    &&& s.len() <= MAX_STRING_LEN
    &&& forall|i: int| 0 <= i < s.len() ==> s[i] < 0x80
}

/// Check one descriptor string.
pub fn string_ok(s: &Vec<u8>) -> (r: bool)
    ensures
        r == spec_string_ok(s@),
{
    if s.len() > MAX_STRING_LEN {
        return false;
    }
    let mut i: usize = 0;
    while i < s.len()
        invariant
            i <= s@.len(),
            forall|j: int| 0 <= j < i ==> s@[j] < 0x80,
        decreases s@.len() - i,
    {
        if s[i] >= 0x80 {
            return false;
        }
        i = i + 1;
    }
    true
}

/// The reason a set of descriptors was rejected: the first invalid string,
/// checked in the order manufacturer, product, serial number.
#[derive(Clone, Copy, PartialEq, Eq, Structural, Debug)]
pub enum DescriptorError {
    /// The manufacturer string is too long or not ASCII.
    ManufacturerInvalid,
    /// The product string is too long or not ASCII.
    ProductInvalid,
    /// The serial-number string is too long or not ASCII.
    SerialNumberInvalid,
}

/// Everything the USB device is built from: IDs, descriptor strings, and
/// the device class code.
#[derive(Debug)]
pub struct DeviceDescriptors {
    /// The 16-bit vendor ID.
    pub vendor_id: u16,
    /// The 16-bit product ID.
    pub product_id: u16,
    /// The manufacturer descriptor string (ASCII bytes).
    pub manufacturer: Vec<u8>,
    /// The product descriptor string (ASCII bytes).
    pub product: Vec<u8>,
    /// The serial-number descriptor string (ASCII bytes).
    pub serial_number: Vec<u8>,
    /// The device class code handed to the host.
    pub device_class: u8,
}

impl DeviceDescriptors {
    /// Validity of a descriptor set: every string is a legal descriptor
    /// string and the class code is CDC.
    pub open spec fn wf(self) -> bool {
        &&& spec_string_ok(self.manufacturer@)
        &&& spec_string_ok(self.product@)
        &&& spec_string_ok(self.serial_number@)
        &&& self.device_class == USB_CLASS_CDC
    }

    /// Validate and assemble the descriptors the device will be built from.
    /// Succeeds exactly when all three strings are legal; otherwise names
    /// the first offending string.
    pub fn build(
        vendor_id: u16,
        product_id: u16,
        manufacturer: Vec<u8>,
        product: Vec<u8>,
        serial_number: Vec<u8>,
    ) -> (r: Result<DeviceDescriptors, DescriptorError>)
        ensures
            r is Ok <==> (spec_string_ok(manufacturer@) && spec_string_ok(product@)
                && spec_string_ok(serial_number@)),
            !spec_string_ok(manufacturer@) ==> (r matches Err(e)
                && e is ManufacturerInvalid),
            spec_string_ok(manufacturer@) && !spec_string_ok(product@) ==> (r matches Err(e)
                && e is ProductInvalid),
            spec_string_ok(manufacturer@) && spec_string_ok(product@) && !spec_string_ok(
                serial_number@,
            ) ==> (r matches Err(e) && e is SerialNumberInvalid),
            r matches Ok(d) ==> {
                &&& d.wf()
                &&& d.vendor_id == vendor_id
                &&& d.product_id == product_id
                &&& d.manufacturer@ == manufacturer@
                &&& d.product@ == product@
                &&& d.serial_number@ == serial_number@
                &&& d.device_class == USB_CLASS_CDC
            },
    {
        if !string_ok(&manufacturer) {
            return Err(DescriptorError::ManufacturerInvalid);
        }
        if !string_ok(&product) {
            return Err(DescriptorError::ProductInvalid);
        }
        if !string_ok(&serial_number) {
            return Err(DescriptorError::SerialNumberInvalid);
        }
        Ok(
            DeviceDescriptors {
                vendor_id,
                product_id,
                manufacturer,
                product,
                serial_number,
                device_class: USB_CLASS_CDC,
            },
        )
    }
}

} // verus!
