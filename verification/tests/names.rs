use cdk_scaffold::error::ScaffoldError;
use cdk_scaffold::layout::check_destination;
use cdk_scaffold::layout::ProjectLayout;
use cdk_scaffold::name::validate;

fn b(s: &str) -> Vec<u8> {
    s.as_bytes().to_vec()
}

#[test]
fn pascal_of_hyphenated_name() {
    let names = validate(&b("my-cdk-app")).unwrap();
    assert_eq!(names.pascal, b("MyCdkApp"));
}

#[test]
fn pascal_of_single_segment() {
    let names = validate(&b("single")).unwrap();
    assert_eq!(names.pascal, b("Single"));
}

#[test]
fn pascal_drops_empty_segments() {
    let names = validate(&b("my--cdk---app")).unwrap();
    assert_eq!(names.pascal, b("MyCdkApp"));
}

#[test]
fn lower_strips_separators_and_case() {
    let names = validate(&b("My-CDK-App")).unwrap();
    assert_eq!(names.lower, b("mycdkapp"));
}

#[test]
fn lower_strips_underscores() {
    let names = validate(&b("my_cdk_app")).unwrap();
    assert_eq!(names.lower, b("mycdkapp"));
}

#[test]
fn empty_name_is_invalid() {
    let r = validate(&b(""));
    assert!(matches!(r, Err(ScaffoldError::InvalidName)));
}

#[test]
fn whitespace_only_name_is_invalid() {
    let r = validate(&b("   "));
    assert!(matches!(r, Err(ScaffoldError::InvalidName)));
}

#[test]
fn slash_in_name_is_invalid() {
    let r = validate(&b("my/app"));
    assert!(matches!(r, Err(ScaffoldError::InvalidName)));
}

#[test]
fn at_sign_in_name_is_invalid() {
    let r = validate(&b("my@app"));
    assert!(matches!(r, Err(ScaffoldError::InvalidName)));
}

#[test]
fn name_of_a_hundred_bytes_is_valid() {
    let raw = b(&"a".repeat(100));
    assert!(validate(&raw).is_ok());
}

#[test]
fn name_over_a_hundred_bytes_is_invalid() {
    let raw = b(&"a".repeat(101));
    assert!(matches!(validate(&raw), Err(ScaffoldError::InvalidName)));
}

#[test]
fn spaces_become_hyphens_after_trim() {
    let names = validate(&b("  my cdk app  ")).unwrap();
    assert_eq!(names.normalized, b("my-cdk-app"));
    assert_eq!(names.raw, b("  my cdk app  "));
}

#[test]
fn normalization_is_idempotent_on_valid_names() {
    let first = validate(&b(" My-CDK app_2 ")).unwrap();
    let again = validate(&first.normalized).unwrap();
    assert_eq!(again.normalized, first.normalized);
}

#[test]
fn derived_forms_come_from_the_raw_input() {
    // The pascal split runs over the raw input, so a space-separated word
    // is not a new segment.
    let names = validate(&b("my app")).unwrap();
    assert_eq!(names.normalized, b("my-app"));
    assert_eq!(names.pascal, b("My app"));
    assert_eq!(names.lower, b("my app"));
}

#[test]
fn existing_destination_is_rejected() {
    let r = check_destination(true);
    assert!(matches!(r, Err(ScaffoldError::AlreadyExists)));
}

#[test]
fn free_destination_is_accepted() {
    assert!(check_destination(false).is_ok());
}

#[test]
fn layout_roots_under_normalized_name() {
    let names = validate(&b("my-cdk-app")).unwrap();
    let layout = ProjectLayout::new(&names);
    assert_eq!(layout.base, b("./my-cdk-app"));
    assert_eq!(layout.bin, b("./my-cdk-app/bin"));
    assert_eq!(layout.lib, b("./my-cdk-app/lib"));
    assert_eq!(layout.test, b("./my-cdk-app/test"));
    assert_eq!(layout.src, b("./my-cdk-app/src"));
    assert_eq!(layout.events, b("./my-cdk-app/events"));
    let dirs = layout.directories();
    assert_eq!(dirs.len(), 6);
    assert_eq!(dirs[0], b("./my-cdk-app"));
    assert_eq!(dirs[5], b("./my-cdk-app/events"));
}

#[test]
fn error_labels_name_the_stage() {
    assert_eq!(ScaffoldError::InvalidName.label(), "invalid project name");
    assert_eq!(ScaffoldError::AlreadyExists.label(), "destination already exists");
}
