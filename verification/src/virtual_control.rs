//! Virtual control elements: the abstract knobs and buttons that sources
//! and targets can be mapped through, independent of concrete hardware.

use vstd::prelude::*;

verus! {

/// A control value exchanged with a virtual control element: an absolute
/// position in thousandths of the unit range, or a relative increment.
#[derive(Clone, Copy, PartialEq, Eq, Debug, Structural)]
pub enum ControlValue {
    Absolute(u32),
    Relative(i32),
}

/// An abstract control element: a continuous one (fader, knob) or a
/// button, each identified by an index.
#[derive(Clone, Copy, PartialEq, Eq, Debug, Hash, Structural)]
pub enum VirtualControlElement {
    Continuous(u32),
    Button(u32),
}

impl VirtualControlElement {
    pub fn index(&self) -> (r: u32)
        ensures
            r == match *self {
                VirtualControlElement::Continuous(i) => i,
                VirtualControlElement::Button(i) => i,
            },
    {
        match self {
            VirtualControlElement::Continuous(i) => *i,
            VirtualControlElement::Button(i) => *i,
        }
    }
}

/// A target addressed by a virtual control element.
#[derive(Clone, Copy, PartialEq, Eq, Debug, Hash, Structural)]
pub struct VirtualTarget {
    control_element: VirtualControlElement,
}

impl VirtualTarget {
    pub fn new(control_element: VirtualControlElement) -> (r: VirtualTarget)
        ensures
            r.control_element_spec() == control_element,
    {
        VirtualTarget { control_element }
    }

    pub closed spec fn control_element_spec(&self) -> VirtualControlElement {
        self.control_element
    }

    pub fn control_element(&self) -> (r: VirtualControlElement)
        ensures
            r == self.control_element_spec(),
    {
        self.control_element
    }
}

/// A source fed by a virtual control element.
#[derive(Clone, Copy, PartialEq, Eq, Debug, Hash, Structural)]
pub struct VirtualSource {
    control_element: VirtualControlElement,
}

impl VirtualSource {
    pub fn new(control_element: VirtualControlElement) -> (r: VirtualSource)
        ensures
            r.control_element_spec() == control_element,
    {
        VirtualSource { control_element }
    }

    pub closed spec fn control_element_spec(&self) -> VirtualControlElement {
        self.control_element
    }

    pub fn from_source_value(source_value: VirtualSourceValue) -> (r: VirtualSource)
        ensures
            r.control_element_spec() == source_value.control_element_spec(),
    {
        VirtualSource::new(source_value.control_element())
    }

    pub fn control_element(&self) -> (r: VirtualControlElement)
        ensures
            r == self.control_element_spec(),
    {
        self.control_element
    }

    /// The value this source extracts from an incoming virtual value: its
    /// control value exactly when the element matches, nothing otherwise.
    pub fn control(&self, value: &VirtualSourceValue) -> (r: Option<ControlValue>)
        ensures
            r is Some <==> self.control_element_spec() == value.control_element_spec(),
            r matches Some(v) ==> v == value.control_value_spec(),
    {
        if self.control_element != value.control_element {
            return None;
        }
        Some(value.control_value)
    }

    /// The virtual value this source emits as feedback, in thousandths of
    /// the unit range.
    pub fn feedback(&self, feedback_value: u32) -> (r: VirtualSourceValue)
        ensures
            r.control_element_spec() == self.control_element_spec(),
            r.control_value_spec() == ControlValue::Absolute(feedback_value),
    {
        VirtualSourceValue::new(self.control_element, ControlValue::Absolute(feedback_value))
    }
}

/// A control value addressed at a virtual control element.
#[derive(Clone, Copy, PartialEq, Eq, Debug, Structural)]
pub struct VirtualSourceValue {
    control_element: VirtualControlElement,
    control_value: ControlValue,
}

impl VirtualSourceValue {
    pub fn new(control_element: VirtualControlElement, control_value: ControlValue) -> (r:
        VirtualSourceValue)
        ensures
            r.control_element_spec() == control_element,
            r.control_value_spec() == control_value,
    {
        VirtualSourceValue { control_element, control_value }
    }

    pub closed spec fn control_element_spec(&self) -> VirtualControlElement {
        self.control_element
    }

    pub closed spec fn control_value_spec(&self) -> ControlValue {
        self.control_value
    }

    pub fn control_element(&self) -> (r: VirtualControlElement)
        ensures
            r == self.control_element_spec(),
    {
        self.control_element
    }
}

} // verus!
