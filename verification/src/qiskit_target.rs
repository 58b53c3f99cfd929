//! The gates that a backend target can be built from.

use crate::text::same_text;
use vstd::prelude::*;

verus! {

/// A gate of the instruction set of a backend.
#[derive(Copy, Clone, Debug, PartialEq, Eq, Structural)]
pub enum ISAGate {
    X,
    SX,
    CZ,
    ECR,
    RZ,
    RX,
    I,
    CX,
    RZZ,
}

impl ISAGate {
    /// Its number in the enumeration of standard gates.
    pub open spec fn value(self) -> u8 {
        match self {
            ISAGate::X => 3,
            ISAGate::SX => 13,
            ISAGate::CZ => 24,
            ISAGate::ECR => 26,
            ISAGate::RZ => 10,
            ISAGate::RX => 8,
            ISAGate::I => 2,
            ISAGate::CX => 22,
            ISAGate::RZZ => 41,
        }
    }

    /// Which gate a backend reports under `name`, `None` for a name that
    /// no gate of a target goes by.
    pub open spec fn named(name: Seq<char>) -> Option<ISAGate> {
        if name == "x"@ {
            Some(ISAGate::X)
        } else if name == "sx"@ {
            Some(ISAGate::SX)
        } else if name == "cz"@ {
            Some(ISAGate::CZ)
        } else if name == "ecr"@ {
            Some(ISAGate::ECR)
        } else if name == "rz"@ {
            Some(ISAGate::RZ)
        } else if name == "rx"@ {
            Some(ISAGate::RX)
        } else if name == "id"@ {
            Some(ISAGate::I)
        } else if name == "cx"@ {
            Some(ISAGate::CX)
        } else {
            None
        }
    }

    /// Its number in the enumeration of standard gates.
    pub fn code(self) -> (number: u8)
        ensures
            number == self.value(),
    {
        match self {
            ISAGate::X => 3,
            ISAGate::SX => 13,
            ISAGate::CZ => 24,
            ISAGate::ECR => 26,
            ISAGate::RZ => 10,
            ISAGate::RX => 8,
            ISAGate::I => 2,
            ISAGate::CX => 22,
            ISAGate::RZZ => 41,
        }
    }

    /// Which gate a backend reports under `name`.
    pub fn from_name(name: &str) -> (gate: Option<ISAGate>)
        ensures
            gate == ISAGate::named(name@),
    {
        if same_text(name, "x") {
            Some(ISAGate::X)
        } else if same_text(name, "sx") {
            Some(ISAGate::SX)
        } else if same_text(name, "cz") {
            Some(ISAGate::CZ)
        } else if same_text(name, "ecr") {
            Some(ISAGate::ECR)
        } else if same_text(name, "rz") {
            Some(ISAGate::RZ)
        } else if same_text(name, "rx") {
            Some(ISAGate::RX)
        } else if same_text(name, "id") {
            Some(ISAGate::I)
        } else if same_text(name, "cx") {
            Some(ISAGate::CX)
        } else {
            None
        }
    }
}

} // verus!
