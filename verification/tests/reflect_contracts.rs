use kinetik::foundation::{InstanceId, ResourceId};
use kinetik::reflect::{
    AssetReferenceValue, DescriptorError, EditorHint, PropertyDefault, PropertyDescriptor,
    PropertyType, PropertyValue, ValidationRule, ValueError,
};

fn bits<const N: usize>(values: [f32; N]) -> [u32; N] {
    values.map(f32::to_bits)
}

fn check_descriptor_creation_sets_core_fields() {
    let descriptor = PropertyDescriptor::new("Transform.Position", "Position", PropertyType::Vec3)
        .unwrap()
        .with_default_value(PropertyDefault::Value(PropertyValue::Vec3(bits([0.0; 3]))))
        .with_editor_hint(EditorHint::FreeNumber)
        .with_validation_rules(vec![ValidationRule::Required])
        .with_documentation("Local position.");

    assert_eq!(descriptor.path, "Transform.Position");
    assert_eq!(descriptor.display_name, "Position");
    assert_eq!(descriptor.value_type, PropertyType::Vec3);
    assert_eq!(
        descriptor.default_value,
        PropertyDefault::Value(PropertyValue::Vec3(bits([0.0; 3])))
    );
    assert_eq!(descriptor.serialization_key, "Transform.Position");
    assert!(descriptor.is_serialized());
    assert!(descriptor.is_editor_editable());
    assert!(descriptor.is_scriptable());
    assert!(descriptor.is_mutable_during_play());
    assert_eq!(descriptor.editor_hint, EditorHint::FreeNumber);
    assert_eq!(descriptor.validation_rules, vec![ValidationRule::Required]);
    assert_eq!(descriptor.documentation, "Local position.");
    descriptor.validate().unwrap();
}

fn check_read_only_descriptors_require_a_reason() {
    let descriptor = PropertyDescriptor::new("RuntimeId", "Runtime ID", PropertyType::InstanceId)
        .unwrap()
        .with_editor_editable(false);

    assert_eq!(
        descriptor.validate().unwrap_err(),
        DescriptorError::MissingReadOnlyReason {
            path: "RuntimeId".to_owned()
        }
    );

    descriptor
        .with_read_only_reason("Assigned by the runtime.")
        .validate()
        .unwrap();
}

fn check_invalid_descriptor_cases_are_reported() {
    assert_eq!(
        PropertyDescriptor::new("", "Name", PropertyType::String).unwrap_err(),
        DescriptorError::EmptyPath
    );
    assert_eq!(
        PropertyDescriptor::new("transform.Position", "Position", PropertyType::Vec3).unwrap_err(),
        DescriptorError::InvalidPath {
            path: "transform.Position".to_owned()
        }
    );
    assert_eq!(
        PropertyDescriptor::new("Name", "   ", PropertyType::String).unwrap_err(),
        DescriptorError::EmptyDisplayName {
            path: "Name".to_owned()
        }
    );
    assert_eq!(
        PropertyDescriptor::new("Name", "Name", PropertyType::String)
            .unwrap()
            .with_serialization_key(" ")
            .validate()
            .unwrap_err(),
        DescriptorError::EmptySerializationKey {
            path: "Name".to_owned()
        }
    );
    assert_eq!(
        PropertyDescriptor::new("Transform.Position", "Position", PropertyType::Vec3)
            .unwrap()
            .with_default_value(PropertyDefault::Value(PropertyValue::String(
                "wrong".to_owned()
            )))
            .validate()
            .unwrap_err(),
        DescriptorError::DefaultTypeMismatch {
            path: "Transform.Position".to_owned(),
            expected: PropertyType::Vec3,
            actual: PropertyType::String
        }
    );
}

#[test]
fn lib_descriptor_creation_sets_core_fields() {
    check_descriptor_creation_sets_core_fields();
}

#[test]
fn tests_descriptor_creation_sets_core_fields() {
    check_descriptor_creation_sets_core_fields();
}

#[test]
fn lib_read_only_descriptors_require_a_reason() {
    check_read_only_descriptors_require_a_reason();
}

#[test]
fn tests_read_only_descriptors_require_a_reason() {
    check_read_only_descriptors_require_a_reason();
}

#[test]
fn lib_invalid_descriptor_cases_are_reported() {
    check_invalid_descriptor_cases_are_reported();
}

#[test]
fn tests_invalid_descriptor_cases_are_reported() {
    check_invalid_descriptor_cases_are_reported();
}

#[test]
fn property_values_report_reflected_types() {
    assert_eq!(
        PropertyValue::String("Avala".to_owned()).property_type(),
        PropertyType::String
    );
    assert_eq!(PropertyValue::Bool(true).property_type(), PropertyType::Bool);
    assert_eq!(PropertyValue::F32(1.5f32.to_bits()).property_type(), PropertyType::F32);
    assert_eq!(
        PropertyValue::Vec2(bits([1.0, 2.0])).property_type(),
        PropertyType::Vec2
    );
    assert_eq!(
        PropertyValue::Transform(bits([0.0, 0.0, 0.0, 0.0, 0.0, 0.0, 1.0, 1.0, 1.0, 1.0]))
            .property_type(),
        PropertyType::Transform
    );
    assert_eq!(
        PropertyValue::InstanceId(InstanceId::new(1)).property_type(),
        PropertyType::InstanceId
    );
    assert_eq!(
        PropertyValue::ResourceId(ResourceId::new(1)).property_type(),
        PropertyType::ResourceId
    );
}

#[test]
fn property_values_validate_against_descriptors() {
    let descriptor =
        PropertyDescriptor::new("Transform.Position", "Position", PropertyType::Vec3).unwrap();
    let value = PropertyValue::Vec3(bits([1.0, 2.0, 3.0]));

    assert!(value.is_compatible_with(&descriptor));
    value.validate_for_descriptor(&descriptor).unwrap();

    let mismatch = PropertyValue::String("wrong".to_owned())
        .validate_for_descriptor(&descriptor)
        .unwrap_err();

    assert_eq!(
        mismatch,
        ValueError::TypeMismatch {
            path: "Transform.Position".to_owned(),
            expected: PropertyType::Vec3,
            actual: PropertyType::String
        }
    );
    assert_eq!(mismatch.diagnostic_code(), ValueError::type_mismatch_code());
    let diagnostic = mismatch.to_diagnostic();
    assert_eq!(diagnostic.code, ValueError::type_mismatch_code());
    assert_eq!(diagnostic.source.as_str(), "Reflection");
    assert_eq!(
        diagnostic.location.property_path.as_deref(),
        Some("Transform.Position")
    );
}

#[test]
fn property_value_defaults_are_type_aware() {
    assert_eq!(
        PropertyValue::type_default(PropertyType::Transform).unwrap(),
        PropertyValue::Transform(bits([0.0, 0.0, 0.0, 0.0, 0.0, 0.0, 1.0, 1.0, 1.0, 1.0]))
    );
    assert_eq!(
        PropertyValue::type_default(PropertyType::Color).unwrap(),
        PropertyValue::Color(bits([1.0, 1.0, 1.0, 1.0]))
    );
    assert_eq!(
        PropertyValue::type_default(PropertyType::InstanceId).unwrap_err(),
        ValueError::NoTypeDefault {
            value_type: PropertyType::InstanceId
        }
    );
}

#[test]
fn value_validation_rejects_invalid_descriptor_paths() {
    let mut descriptor = PropertyDescriptor::new("Name", "Name", PropertyType::String).unwrap();
    descriptor.path = "name".to_owned();

    assert_eq!(
        PropertyValue::String("Workspace".to_owned())
            .validate_for_descriptor(&descriptor)
            .unwrap_err(),
        ValueError::InvalidDescriptor(DescriptorError::InvalidPath {
            path: "name".to_owned()
        })
    );
}

#[test]
fn asset_references_reject_invalid_guids_and_paths() {
    let reference = AssetReferenceValue::new(7, "res://assets/part.glb").unwrap();
    assert_eq!(reference.guid(), 7);
    assert_eq!(reference.path(), "res://assets/part.glb");
    assert_eq!(
        AssetReferenceValue::new(0, "res://assets/part.glb").unwrap_err(),
        ValueError::InvalidAssetReferenceGuid { raw: 0 }
    );
    assert_eq!(
        AssetReferenceValue::new(7, "").unwrap_err(),
        ValueError::EmptyAssetReferencePath
    );
    assert!(matches!(
        AssetReferenceValue::new(7, "assets/part.glb").unwrap_err(),
        ValueError::InvalidAssetReferencePath { .. }
    ));
}
