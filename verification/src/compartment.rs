//! Mapping compartments: the two banks a parameter index can address,
//! and the arithmetic that splits the global parameter space between
//! them.

use vstd::prelude::*;

verus! {

/// Parameters per compartment.
pub const COMPARTMENT_PARAMETER_COUNT: u32 = 100;

/// The two compartments of the global parameter space. Controller
/// mappings occupy the second bank.
#[derive(Clone, Copy, PartialEq, Eq, Debug, Hash, Structural)]
pub enum MappingCompartment {
    ControllerMappings,
    MainMappings,
}

/// The first absolute parameter index of a compartment.
pub open spec fn spec_param_offset(c: MappingCompartment) -> u32 {
    match c {
        MappingCompartment::ControllerMappings => 100u32,
        MappingCompartment::MainMappings => 0u32,
    }
}

impl MappingCompartment {
    /// Every compartment, in a fixed order.
    pub fn enum_iter() -> (r: Vec<MappingCompartment>)
        ensures
            r@ == seq![
                MappingCompartment::ControllerMappings,
                MappingCompartment::MainMappings,
            ],
    {
        let mut v: Vec<MappingCompartment> = Vec::new();
        v.push(MappingCompartment::ControllerMappings);
        v.push(MappingCompartment::MainMappings);
        proof {
            assert(v@ =~= seq![
                MappingCompartment::ControllerMappings,
                MappingCompartment::MainMappings,
            ]);
        }
        v
    }

    /// The compartment whose parameter range contains the absolute index,
    /// if any does.
    pub fn by_absolute_param_index(absolute_index: u32) -> (r: Option<MappingCompartment>)
        ensures
            r == (if absolute_index < COMPARTMENT_PARAMETER_COUNT {
                Some(MappingCompartment::MainMappings)
            } else if absolute_index < 2 * COMPARTMENT_PARAMETER_COUNT {
                Some(MappingCompartment::ControllerMappings)
            } else {
                Option::<MappingCompartment>::None
            }),
    {
        if absolute_index < COMPARTMENT_PARAMETER_COUNT {
            Some(MappingCompartment::MainMappings)
        } else if absolute_index < 2 * COMPARTMENT_PARAMETER_COUNT {
            Some(MappingCompartment::ControllerMappings)
        } else {
            None
        }
    }

    /// An absolute parameter index made relative to this compartment.
    pub fn relativize_absolute_index(self, absolute_index: u32) -> (r: u32)
        requires
            absolute_index >= spec_param_offset(self),
        ensures
            r == absolute_index - spec_param_offset(self),
    {
        absolute_index - self.param_offset()
    }

    /// The first absolute parameter index of this compartment.
    pub fn param_offset(self) -> (r: u32)
        ensures
            r == spec_param_offset(self),
    {
        match self {
            MappingCompartment::ControllerMappings => 100u32,
            MappingCompartment::MainMappings => 0u32,
        }
    }

    /// The absolute parameter range of this compartment, as its inclusive
    /// start and exclusive end.
    pub fn param_range(self) -> (r: (u32, u32))
        ensures
            r.0 == spec_param_offset(self),
            r.1 == spec_param_offset(self) + COMPARTMENT_PARAMETER_COUNT,
    {
        let offset = self.param_offset();
        (offset, offset + COMPARTMENT_PARAMETER_COUNT)
    }
}

} // verus!
