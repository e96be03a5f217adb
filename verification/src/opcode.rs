//! The system opcode space.
//!
//! Opcodes 0 through 1023 are reserved for the kernel: plugins may not
//! register handlers for them. [`Basic`] holds the codes every plugin must
//! understand; [`Sys`] holds calls addressed to the kernel itself (their
//! envelopes must name destination 0).

use vstd::prelude::*;

verus! {

/// The last opcode of the reserved system range.
pub const RESERVED_OPCODE_MAX: u32 = 1023;

/// Whether an opcode lies in the reserved system range.
pub fn is_reserved_opcode(opcode: u32) -> (r: bool)
    ensures
        r == (opcode <= RESERVED_OPCODE_MAX),
{
    opcode <= RESERVED_OPCODE_MAX
}

/// The basic opcodes that any plugin must understand.
#[allow(non_camel_case_types)]
#[derive(Debug, Clone, Copy, PartialEq, Eq, Structural)]
pub enum Basic {
    /// No operation.
    NOOP,
    /// Call to initialize the plugin.
    INIT,
    /// Reset the plugin.
    RESET,
    /// Tick a frame or event.
    TICK,
}

impl Basic {
    /// The wire value of each basic opcode.
    pub open spec fn spec_code(self) -> u32 {
        match self {
            Basic::NOOP => 0,
            Basic::INIT => 1,
            Basic::TICK => 2,
            Basic::RESET => 3,
        }
    }

    pub fn code(self) -> (r: u32)
        ensures
            r == self.spec_code(),
    {
        match self {
            Basic::NOOP => 0,
            Basic::INIT => 1,
            Basic::TICK => 2,
            Basic::RESET => 3,
        }
    }

    /// Reads a wire value back; exactly the four basic codes are accepted.
    pub fn from_u32(v: u32) -> (r: Option<Basic>)
        ensures
            r is Some <==> v <= 3,
            r is Some ==> r.unwrap().spec_code() == v,
    {
        if v == 0 {
            Some(Basic::NOOP)
        } else if v == 1 {
            Some(Basic::INIT)
        } else if v == 2 {
            Some(Basic::TICK)
        } else if v == 3 {
            Some(Basic::RESET)
        } else {
            None
        }
    }
}

/// System calls handled by the kernel alone; no plugin ever sees them.
#[allow(non_camel_case_types)]
#[derive(Debug, Clone, Copy, PartialEq, Eq, Structural)]
pub enum Sys {
    LOAD_PLUGIN,
    PROBE,
}

impl Sys {
    /// The wire value of each system call.
    pub open spec fn spec_code(self) -> u32 {
        match self {
            Sys::LOAD_PLUGIN => 8,
            Sys::PROBE => 9,
        }
    }

    pub fn code(self) -> (r: u32)
        ensures
            r == self.spec_code(),
    {
        match self {
            Sys::LOAD_PLUGIN => 8,
            Sys::PROBE => 9,
        }
    }

    /// Reads a wire value back; exactly the two system codes are accepted.
    pub fn from_u32(v: u32) -> (r: Option<Sys>)
        ensures
            r is Some <==> (v == 8 || v == 9),
            r is Some ==> r.unwrap().spec_code() == v,
    {
        if v == 8 {
            Some(Sys::LOAD_PLUGIN)
        } else if v == 9 {
            Some(Sys::PROBE)
        } else {
            None
        }
    }
}

} // verus!
