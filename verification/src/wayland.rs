//! What the display server lets a cursor grab do.
use vstd::prelude::*;

verus! {

/// The cursor-grab capabilities of the display a window lives on.
#[derive(Clone, Copy, Debug, PartialEq, Eq, Structural)]
pub enum Capabilities {
    /// Not a Wayland display: the native call itself tells what works.
    NotWayland,
    /// A Wayland display that announced these protocols.
    Wayland { pointer_constraints: bool, relative_pointer: bool },
    /// The display could not be asked.
    Unavailable,
}

impl Capabilities {
    /// A grab needs the pointer-constraints protocol, a locked one needs the
    /// relative-pointer protocol too.
    pub open spec fn allows(self, locked: bool) -> bool {
        match self {
            Capabilities::NotWayland => true,
            Capabilities::Wayland { pointer_constraints, relative_pointer } => {
                pointer_constraints && (locked ==> relative_pointer)
            },
            Capabilities::Unavailable => false,
        }
    }

    pub fn supports(self, locked: bool) -> (supported: bool)
        ensures
            supported == self.allows(locked),
    {
        match self {
            Self::NotWayland => true,
            Self::Wayland { pointer_constraints, relative_pointer } => pointer_constraints && (
            !locked || relative_pointer),
            Self::Unavailable => false,
        }
    }
}

/// The protocols that a display's registry has announced so far.
#[derive(Clone, Copy, Debug, PartialEq, Eq, Structural)]
pub struct RegistryData {
    pub pointer_constraints: bool,
    pub relative_pointer: bool,
}

impl RegistryData {
    /// What has been announced once this interface has been, too.
    pub open spec fn told(self, interface: Seq<char>) -> RegistryData {
        RegistryData {
            pointer_constraints: self.pointer_constraints || interface
                == "zwp_pointer_constraints_v1"@,
            relative_pointer: self.relative_pointer || interface
                == "zwp_relative_pointer_manager_v1"@,
        }
    }

    pub fn new() -> (data: Self)
        ensures
            !data.pointer_constraints,
            !data.relative_pointer,
    {
        RegistryData { pointer_constraints: false, relative_pointer: false }
    }

    /// Takes note of one announced interface.
    pub fn event(&mut self, interface: &String)
        ensures
            *final(self) == old(self).told(interface@),
            final(self).pointer_constraints == (old(self).pointer_constraints || interface@
                == "zwp_pointer_constraints_v1"@),
            final(self).relative_pointer == (old(self).relative_pointer || interface@
                == "zwp_relative_pointer_manager_v1"@),
    {
        if *interface == "zwp_pointer_constraints_v1".to_owned() {
            self.pointer_constraints = true;
        }
        if *interface == "zwp_relative_pointer_manager_v1".to_owned() {
            self.relative_pointer = true;
        }
    }
}

/// How far asking a display for its registry got.
#[derive(Clone, Copy, Debug, PartialEq, Eq, Structural)]
pub enum DisplayProbe {
    /// The window has no display handle.
    NoHandle,
    /// The handle is of another display system.
    OtherDisplay,
    /// No registry could be requested.
    NoRegistry,
    /// The registry did not answer.
    NoRoundtrip,
    /// The registry answered, and announced these protocols.
    Answered { announced: RegistryData },
}

impl DisplayProbe {
    /// What a display is known to allow after this probe.
    pub open spec fn shows(self) -> Capabilities {
        match self {
            DisplayProbe::OtherDisplay => Capabilities::NotWayland,
            DisplayProbe::Answered { announced } => Capabilities::Wayland {
                pointer_constraints: announced.pointer_constraints,
                relative_pointer: announced.relative_pointer,
            },
            _ => Capabilities::Unavailable,
        }
    }
}

/// The capabilities that follow from a probe of the display.
pub fn query(probe: DisplayProbe) -> (capabilities: Capabilities)
    ensures
        capabilities == probe.shows(),
        capabilities == (match probe {
            DisplayProbe::OtherDisplay => Capabilities::NotWayland,
            DisplayProbe::Answered { announced } => Capabilities::Wayland {
                pointer_constraints: announced.pointer_constraints,
                relative_pointer: announced.relative_pointer,
            },
            _ => Capabilities::Unavailable,
        }),
{
    match probe {
        DisplayProbe::NoHandle => Capabilities::Unavailable,
        DisplayProbe::OtherDisplay => Capabilities::NotWayland,
        DisplayProbe::NoRegistry => Capabilities::Unavailable,
        DisplayProbe::NoRoundtrip => Capabilities::Unavailable,
        DisplayProbe::Answered { announced } => Capabilities::Wayland {
            pointer_constraints: announced.pointer_constraints,
            relative_pointer: announced.relative_pointer,
        },
    }
}

} // verus!
