//! Monitor types, event flags and filter types, and the values the C API gives them.
use vstd::prelude::*;

verus! {

/// The various possible monitors that fswatch can utilize.
#[derive(Debug, PartialEq, Eq, Structural, Clone, Copy)]
pub enum FswMonitorType {
    SystemDefault,
    FSEvents,
    KQueue,
    INotify,
    Windows,
    Poll,
    Fen,
}

/// The value of `fsw_monitor_type` in the C API for each monitor type.
pub open spec fn monitor_type_value(m: FswMonitorType) -> u32 {
    match m {
        FswMonitorType::SystemDefault => 0,
        FswMonitorType::FSEvents => 1,
        FswMonitorType::KQueue => 2,
        FswMonitorType::INotify => 3,
        FswMonitorType::Windows => 4,
        FswMonitorType::Poll => 5,
        FswMonitorType::Fen => 6,
    }
}

/// Distinct monitor types have distinct values in the C API.
pub proof fn lemma_monitor_type_value_injective(a: FswMonitorType, b: FswMonitorType)
    ensures
        monitor_type_value(a) == monitor_type_value(b) ==> a == b,
{
}

impl From<FswMonitorType> for u32 {
    /// Converts a monitor type into the value of `fsw_monitor_type` in the C API.
    fn from(monitor_type: FswMonitorType) -> (r: u32) {
        match monitor_type {
            FswMonitorType::SystemDefault => 0,
            FswMonitorType::FSEvents => 1,
            FswMonitorType::KQueue => 2,
            FswMonitorType::INotify => 3,
            FswMonitorType::Windows => 4,
            FswMonitorType::Poll => 5,
            FswMonitorType::Fen => 6,
        }
    }
}

impl vstd::std_specs::convert::FromSpecImpl<FswMonitorType> for u32 {
    open spec fn obeys_from_spec() -> bool {
        true
    }

    open spec fn from_spec(v: FswMonitorType) -> u32 {
        monitor_type_value(v)
    }
}

/// Flags denoting the operation(s) within an event.
#[derive(Debug, PartialEq, Eq, Structural, Clone, Copy)]
pub enum FswEventFlag {
    NoOp,
    PlatformSpecific,
    Created,
    Updated,
    Removed,
    Renamed,
    OwnerModified,
    AttributeModified,
    MovedFrom,
    MovedTo,
    IsFile,
    IsDir,
    IsSymLink,
    Link,
    Overflow,
}

/// The bit of `fsw_event_flag` in the C API for each flag.
pub open spec fn event_flag_bits(f: FswEventFlag) -> u32 {
    match f {
        FswEventFlag::NoOp => 0,
        FswEventFlag::PlatformSpecific => 1,
        FswEventFlag::Created => 2,
        FswEventFlag::Updated => 4,
        FswEventFlag::Removed => 8,
        FswEventFlag::Renamed => 16,
        FswEventFlag::OwnerModified => 32,
        FswEventFlag::AttributeModified => 64,
        FswEventFlag::MovedFrom => 128,
        FswEventFlag::MovedTo => 256,
        FswEventFlag::IsFile => 512,
        FswEventFlag::IsDir => 1024,
        FswEventFlag::IsSymLink => 2048,
        FswEventFlag::Link => 4096,
        FswEventFlag::Overflow => 8192,
    }
}

/// Whether some flag has the given bits.
pub open spec fn is_event_flag_bits(bits: u32) -> bool {
    exists|f: FswEventFlag| #[trigger] event_flag_bits(f) == bits
}

/// The flag that a value of `fsw_event_flag` stands for, if any.
pub open spec fn event_flag_from_bits(bits: u32) -> Option<FswEventFlag> {
    if is_event_flag_bits(bits) {
        Some(choose|f: FswEventFlag| #[trigger] event_flag_bits(f) == bits)
    } else {
        None
    }
}

/// Distinct flags have distinct bits.
pub proof fn lemma_event_flag_bits_injective(a: FswEventFlag, b: FswEventFlag)
    ensures
        event_flag_bits(a) == event_flag_bits(b) ==> a == b,
{
}

/// Reading back the bits of a flag gives the flag, and a flag read from bits has those bits.
pub proof fn lemma_event_flag_round_trip(f: FswEventFlag, bits: u32)
    ensures
        event_flag_from_bits(event_flag_bits(f)) == Some(f),
        event_flag_from_bits(bits) == Some(f) ==> event_flag_bits(f) == bits,
{
    let g = choose|g: FswEventFlag| #[trigger] event_flag_bits(g) == event_flag_bits(f);
    lemma_event_flag_bits_injective(f, g);
}

impl From<FswEventFlag> for u32 {
    /// Converts a flag into the value of `fsw_event_flag` in the C API.
    fn from(flag: FswEventFlag) -> (r: u32) {
        match flag {
            FswEventFlag::NoOp => 0,
            FswEventFlag::PlatformSpecific => 1,
            FswEventFlag::Created => 2,
            FswEventFlag::Updated => 4,
            FswEventFlag::Removed => 8,
            FswEventFlag::Renamed => 16,
            FswEventFlag::OwnerModified => 32,
            FswEventFlag::AttributeModified => 64,
            FswEventFlag::MovedFrom => 128,
            FswEventFlag::MovedTo => 256,
            FswEventFlag::IsFile => 512,
            FswEventFlag::IsDir => 1024,
            FswEventFlag::IsSymLink => 2048,
            FswEventFlag::Link => 4096,
            FswEventFlag::Overflow => 8192,
        }
    }
}

impl vstd::std_specs::convert::FromSpecImpl<FswEventFlag> for u32 {
    open spec fn obeys_from_spec() -> bool {
        true
    }

    open spec fn from_spec(v: FswEventFlag) -> u32 {
        event_flag_bits(v)
    }
}

impl FswEventFlag {
    /// Reads a value of `fsw_event_flag` from the C API: the flag with those bits, or `None` where
    /// no flag has them.
    pub fn from_bits(bits: u32) -> (r: Option<FswEventFlag>)
        ensures
            r == event_flag_from_bits(bits),
    {
        let r = if bits == 0 {
            Some(FswEventFlag::NoOp)
        } else if bits == 1 {
            Some(FswEventFlag::PlatformSpecific)
        } else if bits == 2 {
            Some(FswEventFlag::Created)
        } else if bits == 4 {
            Some(FswEventFlag::Updated)
        } else if bits == 8 {
            Some(FswEventFlag::Removed)
        } else if bits == 16 {
            Some(FswEventFlag::Renamed)
        } else if bits == 32 {
            Some(FswEventFlag::OwnerModified)
        } else if bits == 64 {
            Some(FswEventFlag::AttributeModified)
        } else if bits == 128 {
            Some(FswEventFlag::MovedFrom)
        } else if bits == 256 {
            Some(FswEventFlag::MovedTo)
        } else if bits == 512 {
            Some(FswEventFlag::IsFile)
        } else if bits == 1024 {
            Some(FswEventFlag::IsDir)
        } else if bits == 2048 {
            Some(FswEventFlag::IsSymLink)
        } else if bits == 4096 {
            Some(FswEventFlag::Link)
        } else if bits == 8192 {
            Some(FswEventFlag::Overflow)
        } else {
            None
        };
        proof {
            match r {
                Some(f) => lemma_event_flag_round_trip(f, bits),
                None => {
                    assert(!is_event_flag_bits(bits)) by {
                        if is_event_flag_bits(bits) {
                            let f = choose|f: FswEventFlag| #[trigger] event_flag_bits(f) == bits;
                            assert(event_flag_bits(f) == bits);
                        }
                    }
                },
            }
        }
        r
    }
}

/// A filter type.
#[derive(Debug, PartialEq, Eq, Structural, Clone, Copy)]
pub enum FswFilterType {
    Include,
    Exclude,
}

/// The value of `fsw_filter_type` in the C API for each filter type.
pub open spec fn filter_type_value(t: FswFilterType) -> u32 {
    match t {
        FswFilterType::Include => 0,
        FswFilterType::Exclude => 1,
    }
}

/// Distinct filter types have distinct values in the C API.
pub proof fn lemma_filter_type_value_injective(a: FswFilterType, b: FswFilterType)
    ensures
        filter_type_value(a) == filter_type_value(b) ==> a == b,
{
}

impl From<FswFilterType> for u32 {
    /// Converts a filter type into the value of `fsw_filter_type` in the C API.
    fn from(filter_type: FswFilterType) -> (r: u32) {
        match filter_type {
            FswFilterType::Include => 0,
            FswFilterType::Exclude => 1,
        }
    }
}

impl vstd::std_specs::convert::FromSpecImpl<FswFilterType> for u32 {
    open spec fn obeys_from_spec() -> bool {
        true
    }

    open spec fn from_spec(v: FswFilterType) -> u32 {
        filter_type_value(v)
    }
}

} // verus!
