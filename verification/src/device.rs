//! Devices that come and go: what is reported of them, and whether anyone
//! listens.

use vstd::prelude::*;

verus! {

/// A device was plugged in or taken out.
#[derive(Debug)]
pub struct DeviceEvent {
    /// The class of the device.
    pub name: String,
    /// `Added` or `Removed`.
    pub event: String,
}

/// Whether device events are being listened for.
#[derive(Debug, Clone, Copy, PartialEq, Eq, Structural)]
pub struct DeviceListener {
    pub watching: bool,
}

/// The name of a USB class code.
pub open spec fn class_name_of(code: u8) -> Seq<char> {
    if code == 1 {
        "Audio"@
    } else if code == 2 {
        "COMM"@
    } else if code == 3 {
        "HID"@
    } else if code == 5 {
        "Physical"@
    } else if code == 6 {
        "PTP"@
    } else if code == 7 {
        "Printer"@
    } else if code == 8 {
        "MassStorage"@
    } else if code == 9 {
        "Hub"@
    } else if code == 10 {
        "Data"@
    } else {
        "Unknown"@
    }
}

/// The class name of a device by the class codes of its interface
/// descriptors, in their order: the name of the last code; no name for a
/// device without descriptors.
pub open spec fn device_class(codes: Seq<u8>) -> Seq<char> {
    if codes.len() == 0 {
        Seq::empty()
    } else {
        class_name_of(codes.last())
    }
}

/// Names the class of a device from the class codes of its interface
/// descriptors.
pub fn get_class_name(class_codes: &Vec<u8>) -> (name: String)
    ensures
        name@ == device_class(class_codes@),
{
    if class_codes.len() == 0 {
        return String::new();
    }
    let code = class_codes[class_codes.len() - 1];
    let text = if code == 1 {
        "Audio"
    } else if code == 2 {
        "COMM"
    } else if code == 3 {
        "HID"
    } else if code == 5 {
        "Physical"
    } else if code == 6 {
        "PTP"
    } else if code == 7 {
        "Printer"
    } else if code == 8 {
        "MassStorage"
    } else if code == 9 {
        "Hub"
    } else if code == 10 {
        "Data"
    } else {
        "Unknown"
    };
    text.to_owned()
}

/// The event for a device that arrived.
pub fn device_arrived(class_codes: &Vec<u8>) -> (event: DeviceEvent)
    ensures
        event.name@ == device_class(class_codes@),
        event.event@ == "Added"@,
{
    DeviceEvent { name: get_class_name(class_codes), event: "Added".to_owned() }
}

/// The event for a device that left.
pub fn device_left(class_codes: &Vec<u8>) -> (event: DeviceEvent)
    ensures
        event.name@ == device_class(class_codes@),
        event.event@ == "Removed"@,
{
    DeviceEvent { name: get_class_name(class_codes), event: "Removed".to_owned() }
}

/// Takes in whether the callback could be registered with the system. Where it
/// could, events are listened for from now on; where it could not, nothing
/// changes. Returns whether the callback was registered.
pub fn listen(listener: &mut DeviceListener, registered: bool) -> (listening: bool)
    ensures
        listening == registered,
        final(listener).watching == (registered || old(listener).watching),
{
    if registered {
        unlisten(listener);
        listener.watching = true;
    }
    registered
}

/// Stops listening.
pub fn unlisten(listener: &mut DeviceListener)
    ensures
        !final(listener).watching,
{
    listener.watching = false;
}

/// Whether device events are being listened for.
pub fn is_listening(listener: &DeviceListener) -> (watching: bool)
    ensures
        watching == listener.watching,
{
    listener.watching
}

} // verus!
