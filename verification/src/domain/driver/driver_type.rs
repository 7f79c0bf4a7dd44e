//! The closed set of driver families.

use vstd::prelude::*;

verus! {

/// Type of driver for communication
#[derive(Debug, Clone, Copy, PartialEq, Eq, Hash, Structural)]
pub enum DriverType {
    RS232,
    Modbus,
    OPCUA,
    HTTP,
    Simulator,
}

impl DriverType {
    /// The wire name of each family.
    pub open spec fn name(self) -> Seq<char> {
        match self {
            DriverType::RS232 => "RS232"@,
            DriverType::Modbus => "Modbus"@,
            DriverType::OPCUA => "OPC-UA"@,
            DriverType::HTTP => "HTTP"@,
            DriverType::Simulator => "Simulator"@,
        }
    }

    pub fn as_str(&self) -> (r: &'static str)
        ensures
            r@ == self.name(),
    {
        match self {
            DriverType::RS232 => "RS232",
            DriverType::Modbus => "Modbus",
            DriverType::OPCUA => "OPC-UA",
            DriverType::HTTP => "HTTP",
            DriverType::Simulator => "Simulator",
        }
    }
}

} // verus!
