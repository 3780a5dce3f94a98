use form_fields::fields::input_field::{
    DefaultWording, ErrorHandler, InputField, InputFieldError,
};
use form_fields::fields::AbstractFields;
use form_fields::forms::{Files, FormData};

#[test]
fn test_validate_default() {
    let mut form_data = FormData::new();
    let mut files = Files::new();

    let mut input_field: InputField<String> =
        InputField::new("name").set_default("John").max_length(100);
    let result = input_field.validate(&mut form_data, &mut files);
    assert_eq!(true, result.is_ok());

    let value = input_field.value();
    assert_eq!(value, "John");
}

#[test]
fn test_validate_string() {
    let mut form_data = FormData::new();
    form_data.insert("name".to_string(), vec!["John".to_string()]);

    let mut files = Files::new();

    let mut input_field: InputField<String> = InputField::new("name").max_length(100);
    let result = input_field.validate(&mut form_data, &mut files);
    assert_eq!(true, result.is_ok());

    let value = input_field.value();
    assert_eq!(value, "John");
}

#[test]
fn test_validate_optional() {
    let mut form_data = FormData::new();
    let mut files = Files::new();

    let mut input_field: InputField<Option<String>> = InputField::new("name").max_length(100);
    let result = input_field.validate(&mut form_data, &mut files);
    assert_eq!(true, result.is_ok());

    let value = input_field.value();
    assert_eq!(value, None);

    // With values
    form_data.insert("name".to_string(), vec!["John".to_string()]);
    let mut input_field2: InputField<Option<String>> = InputField::new("name").max_length(100);
    let result = input_field2.validate(&mut form_data, &mut files);
    assert_eq!(true, result.is_ok());
    assert_eq!(Some("John".to_string()), input_field2.value());
}

#[test]
fn test_validation_error() {
    let mut input_field: InputField<String> = InputField::new("name").max_length(100);
    let mut form_data = FormData::new();
    let mut files = Files::new();
    let result = input_field.validate(&mut form_data, &mut files);
    assert_eq!(false, result.is_ok());
}

#[test]
fn test_missing_field_message() {
    let mut input_field: InputField<String> = InputField::new("name");
    let mut form_data = FormData::new();
    let mut files = Files::new();
    let result = input_field.validate(&mut form_data, &mut files);
    assert_eq!(result, Err(vec!["This field is missing.".to_string()]));
    assert_eq!(false, input_field.is_validated());
}

#[test]
fn test_max_length_message() {
    let mut form_data = FormData::new();
    form_data.insert("name".to_string(), vec!["x".repeat(150)]);
    let mut files = Files::new();

    let mut input_field: InputField<String> = InputField::new("name").max_length(100);
    let result = input_field.validate(&mut form_data, &mut files);
    assert_eq!(
        result,
        Err(vec![
            "Character length exceeds maximum size of 100".to_string()
        ])
    );
    assert_eq!(false, input_field.is_validated());
}

#[test]
fn test_max_length_boundary() {
    // A value of exactly the maximum length passes.
    let mut form_data = FormData::new();
    form_data.insert("name".to_string(), vec!["x".repeat(7)]);
    let mut files = Files::new();

    let mut input_field: InputField<String> = InputField::new("name").max_length(7);
    let result = input_field.validate(&mut form_data, &mut files);
    assert_eq!(true, result.is_ok());
    assert_eq!("x".repeat(7), input_field.value());
}

#[test]
fn test_multiple_values_take_first() {
    // Only the first raw value is converted and length-checked.
    let mut form_data = FormData::new();
    form_data.insert(
        "name".to_string(),
        vec!["first".to_string(), "second".to_string()],
    );
    let mut files = Files::new();

    let mut input_field: InputField<String> = InputField::new("name").max_length(100);
    let result = input_field.validate(&mut form_data, &mut files);
    assert_eq!(true, result.is_ok());
    assert_eq!("first".to_string(), input_field.value());
}

#[test]
fn test_default_ignored_when_value_present() {
    let mut form_data = FormData::new();
    form_data.insert("name".to_string(), vec!["Alice".to_string()]);
    let mut files = Files::new();

    let mut input_field: InputField<String> = InputField::new("name").set_default("John");
    let result = input_field.validate(&mut form_data, &mut files);
    assert_eq!(true, result.is_ok());
    assert_eq!("Alice".to_string(), input_field.value());
}

#[test]
fn test_optional_empty_entry() {
    // An entry that is present but holds no values counts as empty.
    let mut form_data = FormData::new();
    form_data.insert("name".to_string(), vec![]);
    let mut files = Files::new();

    let mut input_field: InputField<Option<String>> = InputField::new("name");
    let result = input_field.validate(&mut form_data, &mut files);
    assert_eq!(true, result.is_ok());
    assert_eq!(None, input_field.value());
}

struct ShoutingWording;

impl ErrorHandler for ShoutingWording {
    // Ghost item of the trait; never called at runtime.
    fn handle_spec(
        &self,
        _error: form_fields::fields::input_field::InputFieldErrorView,
        _defaults: vstd::seq::Seq<vstd::seq::Seq<char>>,
    ) -> vstd::seq::Seq<vstd::seq::Seq<char>> {
        unreachable!()
    }

    fn handle(&self, error: InputFieldError, defaults: Vec<String>) -> Vec<String> {
        match error {
            InputFieldError::MissingField(name) => {
                vec![format!("Field {} is required!", name)]
            }
            _ => defaults,
        }
    }
}

#[test]
fn test_custom_error_handler() {
    let mut form_data = FormData::new();
    let mut files = Files::new();

    let base: InputField<String> = InputField::new("name");
    let mut input_field = base.handle_error_message(ShoutingWording);
    let result = input_field.validate(&mut form_data, &mut files);
    assert_eq!(result, Err(vec!["Field name is required!".to_string()]));
}

#[test]
fn test_validate_input_length_appends() {
    let handler: Option<DefaultWording> = None;
    let mut errors: Vec<String> = vec!["earlier".to_string()];
    form_fields::fields::input_field::validate_input_length(
        &"name".to_string(),
        &vec!["toolong".to_string()],
        &handler,
        &Some(3),
        &mut errors,
    );
    assert_eq!(
        errors,
        vec![
            "earlier".to_string(),
            "Character length exceeds maximum size of 3".to_string()
        ]
    );
}

#[test]
fn test_optional_value_still_length_checked() {
    // An optional shape does not skip the length check when a value arrived.
    let mut form_data = FormData::new();
    form_data.insert("name".to_string(), vec!["x".repeat(10)]);
    let mut files = Files::new();

    let mut input_field: InputField<Option<String>> = InputField::new("name").max_length(5);
    let result = input_field.validate(&mut form_data, &mut files);
    assert_eq!(
        result,
        Err(vec![
            "Character length exceeds maximum size of 5".to_string()
        ])
    );
}

#[test]
fn test_default_does_not_mask_length_error() {
    // A default value stands in only for absent input; an over-long value
    // present in the input is still rejected.
    let mut form_data = FormData::new();
    form_data.insert("name".to_string(), vec!["x".repeat(10)]);
    let mut files = Files::new();

    let mut input_field: InputField<String> =
        InputField::new("name").set_default("John").max_length(5);
    let result = input_field.validate(&mut form_data, &mut files);
    assert_eq!(
        result,
        Err(vec![
            "Character length exceeds maximum size of 5".to_string()
        ])
    );
}

#[test]
fn test_field_name() {
    let input_field: InputField<String> = InputField::new("name");
    assert_eq!("name".to_string(), input_field.field_name());
}

#[test]
fn test_form_data_replaces_and_removes() {
    let mut form_data = FormData::new();
    form_data.insert("name".to_string(), vec!["a".to_string()]);
    form_data.insert("name".to_string(), vec!["b".to_string()]);
    form_data.insert("other".to_string(), vec!["c".to_string()]);

    assert_eq!(
        Some(vec!["b".to_string()]),
        form_data.remove(&"name".to_string())
    );
    assert_eq!(None, form_data.remove(&"name".to_string()));
    assert_eq!(
        Some(vec!["c".to_string()]),
        form_data.remove(&"other".to_string())
    );
}
