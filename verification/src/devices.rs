//! Enumeration of candidate serial devices with a coarse transport
//! classification.
use vstd::prelude::*;

verus! {

use vstd::string::StringExecFns;

/// Coarse transport class of an enumerated serial device.
#[derive(Debug, Clone, Copy, PartialEq, Eq, Structural)]
pub enum TransportClass {
    Usb,
    Bluetooth,
    Pci,
    Unknown,
}

/// One enumerated device: its identifier and its transport class label.
pub struct SerialPortDetails {
    pub port_name: String,
    pub port_type: String,
}

/// The label of a transport class.
pub open spec fn class_label(c: TransportClass) -> Seq<char> {
    match c {
        TransportClass::Usb => "USB"@,
        TransportClass::Bluetooth => "Bluetooth"@,
        TransportClass::Pci => "PCI"@,
        TransportClass::Unknown => "Unknown"@,
    }
}

/// Whether a string is one of the four transport class labels.
pub open spec fn is_class_label(s: Seq<char>) -> bool {
    s == "USB"@ || s == "Bluetooth"@ || s == "PCI"@ || s == "Unknown"@
}

/// The label of a transport class, as a string.
pub fn class_name(c: TransportClass) -> (r: String)
    ensures
        r@ == class_label(c),
{
    match c {
        TransportClass::Usb => String::from_str("USB"),
        TransportClass::Bluetooth => String::from_str("Bluetooth"),
        TransportClass::Pci => String::from_str("PCI"),
        TransportClass::Unknown => String::from_str("Unknown"),
    }
}

/// Relies on serialport::available_ports: lists the serial devices the OS
/// reports, or the enumeration error's message; each device is handed out
/// as its path and the transport class of its `SerialPortType`, one arm
/// per variant.
#[verifier::external_body]
fn enumerate_ports() -> (r: Result<Vec<(String, TransportClass)>, String>) {
    match serialport::available_ports() {
        Ok(ports) => Ok(ports.into_iter().map(|p| (p.port_name, match p.port_type {
            serialport::SerialPortType::UsbPort(_) => TransportClass::Usb,
            serialport::SerialPortType::BluetoothPort => TransportClass::Bluetooth,
            serialport::SerialPortType::PciPort => TransportClass::Pci,
            serialport::SerialPortType::Unknown => TransportClass::Unknown,
        })).collect()),
        Err(e) => Err(e.to_string()),
    }
}

/// Describes enumerated devices for the UI layer: keeps each identifier
/// and renders each transport class as its label, in order. An empty
/// enumeration yields an empty description.
pub fn describe_ports(entries: &Vec<(String, TransportClass)>) -> (r: Vec<SerialPortDetails>)
    ensures
        r@.len() == entries@.len(),
        forall|i: int|
            0 <= i < entries@.len() ==> (#[trigger] r@[i]).port_name@ == entries@[i].0@
                && r@[i].port_type@ == class_label(entries@[i].1),
{
    let mut out: Vec<SerialPortDetails> = Vec::new();
    let mut i: usize = 0;
    while i < entries.len()
        invariant
            i <= entries@.len(),
            out@.len() == i,
            forall|j: int|
                0 <= j < i ==> (#[trigger] out@[j]).port_name@ == entries@[j].0@
                    && out@[j].port_type@ == class_label(entries@[j].1),
        decreases entries@.len() - i,
    {
        let name = String::from_str(entries[i].0.as_str());
        let label = class_name(entries[i].1);
        out.push(SerialPortDetails { port_name: name, port_type: label });
        i = i + 1;
    }
    out
}

/// Lists the available serial devices with their transport class labels.
/// Zero attached devices is a success with an empty list; an enumeration
/// failure is surfaced as an error, prefixed as the UI layer expects it.
pub fn list_serial_ports() -> (r: Result<Vec<SerialPortDetails>, String>)
    ensures
        r matches Ok(v) ==> forall|i: int|
            0 <= i < v@.len() ==> is_class_label((#[trigger] v@[i]).port_type@),
        r matches Err(m) ==> m@.len() >= "Failed to list serial ports: "@.len() && m@.take(
            "Failed to list serial ports: "@.len() as int,
        ) == "Failed to list serial ports: "@,
{
    match enumerate_ports() {
        Ok(entries) => {
            let described = describe_ports(&entries);
            proof {
                assert forall|i: int|
                    0 <= i < described@.len() implies is_class_label(
                    (#[trigger] described@[i]).port_type@,
                ) by {
                    assert(described@[i].port_type@ == class_label(entries@[i].1));
                }
            }
            Ok(described)
        },
        Err(e) => {
            let msg = String::from_str("Failed to list serial ports: ").concat(e.as_str());
            proof {
                assert(msg@.take("Failed to list serial ports: "@.len() as int)
                    =~= "Failed to list serial ports: "@);
            }
            Err(msg)
        },
    }
}

} // verus!
