use vstd::prelude::*;

verus! {

/// The transport over which the engine reaches the sensor.
#[derive(Debug, Clone, Copy, PartialEq, Eq, Structural)]
pub enum Interface {
    RS232,
    If2004Usb,
    If2008,
    If2008Eth,
    TcpIp,
    WinUSB,
}

/// The name the engine expects for each transport.
pub open spec fn interface_name(i: Interface) -> Seq<char> {
    match i {
        Interface::RS232 => "RS232"@,
        Interface::If2004Usb => "IF2004_USB"@,
        Interface::If2008 => "IF2008"@,
        Interface::If2008Eth => "IF2008_ETH"@,
        Interface::TcpIp => "TCP/IP"@,
        Interface::WinUSB => "WinUSB"@,
    }
}

impl Interface {
    /// The name sent to the engine for this transport.
    pub fn name(&self) -> (r: &'static str)
        ensures
            r@ == interface_name(*self),
    {
        match self {
            Interface::RS232 => "RS232",
            Interface::If2004Usb => "IF2004_USB",
            Interface::If2008 => "IF2008",
            Interface::If2008Eth => "IF2008_ETH",
            Interface::TcpIp => "TCP/IP",
            Interface::WinUSB => "WinUSB",
        }
    }
}

} // verus!
