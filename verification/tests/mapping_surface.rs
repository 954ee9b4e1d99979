//! Tests of the mapping-side surface: compartment parameter arithmetic,
//! conditional activation, virtual control elements, and raw MIDI
//! messages.

use clip_engine::activation::{
    ActivationState, ActivationType, ModifierCondition, ModifierConditionModel,
};
use clip_engine::compartment::{MappingCompartment, COMPARTMENT_PARAMETER_COUNT};
use clip_engine::mapping::{FeedbackSendBehavior, LifecyclePhase, ProcessorMappingOptions};
use clip_engine::raw_midi::RawMidiMessage;
use clip_engine::virtual_control::{
    ControlValue, VirtualControlElement, VirtualSource, VirtualSourceValue, VirtualTarget,
};

#[test]
fn compartment_parameter_arithmetic() {
    assert_eq!(COMPARTMENT_PARAMETER_COUNT, 100);
    assert_eq!(
        MappingCompartment::by_absolute_param_index(50),
        Some(MappingCompartment::MainMappings)
    );
    assert_eq!(
        MappingCompartment::by_absolute_param_index(150),
        Some(MappingCompartment::ControllerMappings)
    );
    assert_eq!(MappingCompartment::by_absolute_param_index(200), None);
    assert_eq!(MappingCompartment::ControllerMappings.relativize_absolute_index(150), 50);
    assert_eq!(MappingCompartment::MainMappings.relativize_absolute_index(50), 50);
    assert_eq!(MappingCompartment::MainMappings.param_range(), (0, 100));
    assert_eq!(MappingCompartment::ControllerMappings.param_range(), (100, 200));
    assert_eq!(
        MappingCompartment::enum_iter(),
        vec![MappingCompartment::ControllerMappings, MappingCompartment::MainMappings]
    );
}

#[test]
fn modifier_condition_model_round_trip() {
    let model = ModifierConditionModel::default();
    assert_eq!(model.param_index(), None);
    assert!(!model.is_on());
    assert!(model.create_modifier_condition().is_none());
    let model = model.with_param_index(Some(7)).with_is_on(true);
    assert_eq!(model.param_index(), Some(7));
    assert!(model.is_on());
    let condition = model.create_modifier_condition().unwrap();
    assert_eq!(condition, ModifierCondition::new(7, true));
    assert_eq!(ActivationType::Always, ActivationType::Always);
}

#[test]
fn activation_needs_both_conditions() {
    assert!(ActivationState::new(true, true).is_active());
    assert!(!ActivationState::new(true, false).is_active());
    assert!(!ActivationState::new(false, true).is_active());
    assert!(!ActivationState::new(false, false).is_active());
}

#[test]
fn virtual_source_matches_its_element() {
    let element = VirtualControlElement::Continuous(3);
    let source = VirtualSource::new(element);
    assert_eq!(source.control_element(), element);
    assert_eq!(element.index(), 3);
    assert_eq!(VirtualControlElement::Button(9).index(), 9);
    let value = VirtualSourceValue::new(element, ControlValue::Absolute(700));
    assert_eq!(source.control(&value), Some(ControlValue::Absolute(700)));
    let other = VirtualSourceValue::new(VirtualControlElement::Button(3), ControlValue::Absolute(700));
    assert_eq!(source.control(&other), None);
    let feedback = source.feedback(250);
    assert_eq!(feedback.control_element(), element);
    let target = VirtualTarget::new(element);
    assert_eq!(target.control_element(), element);
    assert_eq!(VirtualSource::from_source_value(value).control_element(), element);
}

#[test]
fn processor_mapping_options_hold_their_flags() {
    let options = ProcessorMappingOptions {
        target_is_active: true,
        control_is_enabled: false,
        feedback_is_enabled: true,
        feedback_send_behavior: FeedbackSendBehavior::default(),
    };
    assert!(options.target_is_active);
    assert!(!options.control_is_enabled);
    assert_eq!(options.feedback_send_behavior, FeedbackSendBehavior::Normal);
    assert_eq!(LifecyclePhase::from(true), LifecyclePhase::Activation);
    assert_eq!(LifecyclePhase::from(false), LifecyclePhase::Deactivation);
}

#[test]
fn hex_midi_messages_decode_ignoring_spaces() {
    let msg = RawMidiMessage::from_hex_string(&b"B0 7B 00".to_vec()).unwrap();
    assert_eq!(msg.bytes(), &vec![0xB0, 0x7B, 0x00]);
    let msg = RawMidiMessage::from_hex_string(&b"a07f".to_vec()).unwrap();
    assert_eq!(msg.bytes(), &vec![0xA0, 0x7F]);
}

#[test]
fn invalid_hex_midi_messages_are_rejected() {
    // An odd number of digits.
    assert!(RawMidiMessage::from_hex_string(&b"abc".to_vec()).is_none());
    // A character that is no hex digit.
    assert!(RawMidiMessage::from_hex_string(&b"zz".to_vec()).is_none());
}

#[test]
fn byte_array_messages_keep_their_bytes() {
    let msg = RawMidiMessage::ByteArray(vec![1, 2, 3]);
    assert_eq!(msg.bytes(), &vec![1, 2, 3]);
}
