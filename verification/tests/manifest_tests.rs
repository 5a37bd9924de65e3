use wdk_build::manifest::{ManifestWarning, package_details_from_manifest};

#[test]
fn version_line_yields_product_and_file_version() {
    let details = package_details_from_manifest("version = \"1.2.3\"\n");
    assert_eq!(details.product_version, "1.2.3");
    assert_eq!(details.file_version, "1,2,3");
    assert_eq!(details.description, "");
    assert!(details.warnings.is_empty());
}

#[test]
fn two_part_version_yields_two_part_file_version() {
    let details = package_details_from_manifest("version = \"2.0\"\n");
    assert_eq!(details.product_version, "2.0");
    assert_eq!(details.file_version, "2,0");
}

#[test]
fn description_line_yields_description_without_quotes() {
    let details = package_details_from_manifest("description = \"A driver\"\n");
    assert_eq!(details.description, "A driver");
    assert_eq!(details.product_version, "");
    assert_eq!(details.file_version, "");
}

#[test]
fn full_manifest_is_read_line_by_line() {
    let text = "[package]\nname = \"surface-button\"\nversion = \"10.0.1\"\ndescription = \"Button driver\"\nedition = \"2021\"\n";
    let details = package_details_from_manifest(text);
    assert_eq!(details.product_version, "10.0.1");
    assert_eq!(details.file_version, "10,0,1");
    assert_eq!(details.description, "Button driver");
}

#[test]
fn later_matching_line_overwrites_earlier() {
    let text = "version = \"1.0\"\nversion = \"2.5\"\n";
    let details = package_details_from_manifest(text);
    assert_eq!(details.product_version, "2.5");
    assert_eq!(details.file_version, "2,5");
}

#[test]
fn matching_line_without_quotes_yields_empty_field_and_warning() {
    let details = package_details_from_manifest("version = 1.2.3\n");
    assert_eq!(details.product_version, "");
    assert_eq!(details.file_version, "");
    assert_eq!(details.warnings, vec![ManifestWarning::MalformedVersionLine]);
    assert_eq!(
        details.warnings[0].message(),
        "Malformed version line in manifest: fewer than two quote characters."
    );
}

#[test]
fn matching_line_with_one_quote_yields_empty_field_and_warning() {
    let details = package_details_from_manifest("description = \"unterminated\n");
    assert_eq!(details.description, "");
    assert_eq!(details.warnings, vec![ManifestWarning::MalformedDescriptionLine]);
    assert_eq!(
        details.warnings[0].message(),
        "Malformed description line in manifest: fewer than two quote characters."
    );
}

#[test]
fn each_malformed_line_gets_its_warning_in_order() {
    let text = "version = 1.0\ndescription = none\nversion = \"2.0\"\n";
    let details = package_details_from_manifest(text);
    assert_eq!(details.product_version, "2.0");
    assert_eq!(details.file_version, "2,0");
    assert_eq!(details.description, "");
    assert_eq!(
        details.warnings,
        vec![ManifestWarning::MalformedVersionLine, ManifestWarning::MalformedDescriptionLine]
    );
}

#[test]
fn crlf_line_endings_are_handled() {
    let text = "version = \"3.1.4\"\r\ndescription = \"CRLF manifest\"\r\n";
    let details = package_details_from_manifest(text);
    assert_eq!(details.product_version, "3.1.4");
    assert_eq!(details.file_version, "3,1,4");
    assert_eq!(details.description, "CRLF manifest");
}

#[test]
fn empty_manifest_yields_empty_fields() {
    let details = package_details_from_manifest("");
    assert_eq!(details.product_version, "");
    assert_eq!(details.description, "");
    assert_eq!(details.file_version, "");
}

#[test]
fn missing_final_newline_still_reads_last_line() {
    let details = package_details_from_manifest("description = \"no newline\"");
    assert_eq!(details.description, "no newline");
}
