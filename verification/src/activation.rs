//! Conditional activation: whether a mapping is active, and the modifier
//! conditions the user can configure for it.

use vstd::prelude::*;

verus! {

/// How a mapping's activation is decided.
#[derive(Clone, Copy, PartialEq, Eq, Debug, Structural)]
pub enum ActivationType {
    Always,
    Modifiers,
    Eel,
}

/// A concrete modifier condition: a parameter that must be on or off.
#[derive(Clone, Copy, PartialEq, Eq, Debug, Structural)]
pub struct ModifierCondition {
    param_index: u32,
    is_on: bool,
}

impl ModifierCondition {
    pub fn new(param_index: u32, is_on: bool) -> (r: ModifierCondition)
        ensures
            r.param_index_spec() == param_index,
            r.is_on_spec() == is_on,
    {
        ModifierCondition { param_index, is_on }
    }

    pub closed spec fn param_index_spec(&self) -> u32 {
        self.param_index
    }

    pub closed spec fn is_on_spec(&self) -> bool {
        self.is_on
    }
}

/// The user-facing model of a modifier condition: the parameter may still
/// be unset.
#[derive(Clone, Copy, PartialEq, Eq, Debug, Structural)]
pub struct ModifierConditionModel {
    param_index: Option<u32>,
    is_on: bool,
}

impl Default for ModifierConditionModel {
    /// No parameter chosen, condition off.
    fn default() -> (r: Self)
        ensures
            r.param_index_spec() is None,
            !r.is_on_spec(),
    {
        ModifierConditionModel { param_index: None, is_on: false }
    }
}

impl ModifierConditionModel {
    pub closed spec fn param_index_spec(&self) -> Option<u32> {
        self.param_index
    }

    pub closed spec fn is_on_spec(&self) -> bool {
        self.is_on
    }

    /// The concrete condition this model describes, once a parameter is
    /// chosen.
    pub fn create_modifier_condition(&self) -> (r: Option<ModifierCondition>)
        ensures
            r is Some <==> self.param_index_spec() is Some,
            r matches Some(c) ==> c.param_index_spec() == self.param_index_spec()->Some_0
                && c.is_on_spec() == self.is_on_spec(),
    {
        match self.param_index {
            Some(i) => Some(ModifierCondition::new(i, self.is_on)),
            None => None,
        }
    }

    pub fn param_index(&self) -> (r: Option<u32>)
        ensures
            r == self.param_index_spec(),
    {
        self.param_index
    }

    pub fn with_param_index(&self, param_index: Option<u32>) -> (r: ModifierConditionModel)
        ensures
            r.param_index_spec() == param_index,
            r.is_on_spec() == self.is_on_spec(),
    {
        ModifierConditionModel { param_index, ..*self }
    }

    pub fn is_on(&self) -> (r: bool)
        ensures
            r == self.is_on_spec(),
    {
        self.is_on
    }

    pub fn with_is_on(&self, is_on: bool) -> (r: ModifierConditionModel)
        ensures
            r.is_on_spec() == is_on,
            r.param_index_spec() == self.param_index_spec(),
    {
        ModifierConditionModel { is_on, ..*self }
    }
}

/// The two activation conditions of a mapping, evaluated independently;
/// the mapping is active only when both hold.
#[derive(Clone, Copy, PartialEq, Eq, Debug, Structural)]
pub struct ActivationState {
    is_active_1: bool,
    is_active_2: bool,
}

impl ActivationState {
    pub fn new(is_active_1: bool, is_active_2: bool) -> (r: ActivationState)
        ensures
            r.is_active_1_spec() == is_active_1,
            r.is_active_2_spec() == is_active_2,
    {
        ActivationState { is_active_1, is_active_2 }
    }

    pub closed spec fn is_active_1_spec(&self) -> bool {
        self.is_active_1
    }

    pub closed spec fn is_active_2_spec(&self) -> bool {
        self.is_active_2
    }

    /// Active means both conditions hold.
    pub fn is_active(&self) -> (r: bool)
        ensures
            r == (self.is_active_1_spec() && self.is_active_2_spec()),
    {
        self.is_active_1 && self.is_active_2
    }
}

} // verus!
