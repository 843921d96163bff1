//! The rule that recognizes the robot on a USB serial port.
//!
//! Enumerating ports is I/O and stays with the caller, which hands the
//! discovered ports in as plain records; this module picks the robot's one
//! by its fixed vendor and product identifiers.

use vstd::prelude::*;

verus! {

/// The robot's USB vendor identifier.
pub const REACHY_VID: u16 = 0x1a86;

/// The robot's USB product identifier.
pub const REACHY_PID: u16 = 0x55d3;

/// One discovered USB serial port.
#[derive(Clone, Debug)]
pub struct UsbPort {
    pub vid: u16,
    pub pid: u16,
    pub port_name: String,
}

/// Whether a vendor/product pair is the robot.
pub open spec fn is_reachy_usb_s(vid: u16, pid: u16) -> bool {
    vid == REACHY_VID && pid == REACHY_PID
}

/// Does this vendor/product pair belong to the robot?
pub fn is_reachy_usb(vid: u16, pid: u16) -> (r: bool)
    ensures
        r == is_reachy_usb_s(vid, pid),
{
    vid == REACHY_VID && pid == REACHY_PID
}

/// The name of the first discovered port that belongs to the robot, if any.
pub fn get_reachy_port(ports: &Vec<UsbPort>) -> (r: Option<String>)
    ensures
        match r {
            Some(name) => exists|i: int|
                0 <= i < ports@.len() && is_reachy_usb_s(ports@[i].vid, ports@[i].pid) && name@
                    == ports@[i].port_name@ && (forall|j: int|
                    0 <= j < i ==> !is_reachy_usb_s(ports@[j].vid, ports@[j].pid)),
            None => forall|i: int|
                0 <= i < ports@.len() ==> !is_reachy_usb_s(ports@[i].vid, ports@[i].pid),
        },
{
    let mut i: usize = 0;
    while i < ports.len()
        invariant
            i <= ports@.len(),
            forall|j: int| 0 <= j < i as int ==> !is_reachy_usb_s(ports@[j].vid, ports@[j].pid),
        decreases ports@.len() - i,
    {
        if is_reachy_usb(ports[i].vid, ports[i].pid) {
            return Some(ports[i].port_name.clone());
        }
        i = i + 1;
    }
    None
}

} // verus!
