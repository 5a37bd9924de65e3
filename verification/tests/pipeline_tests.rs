use wdk_build::generate_and_compile_rcfile;
use wdk_build::invoker::default_compiler_path;
use wdk_build::manifest::ManifestWarning;
use wdk_build::package_meta::{MetadataDiagnostic, MetadataError};

const DOCUMENT: &str = "{\"packages\": [\
    {\"name\": \"first\"},\
    {\"name\": \"second\", \"metadata\": {\"wdk\": {\
        \"companyname\": \"Contoso\",\
        \"copyright\": \"(c) Contoso\",\
        \"productname\": \"Surface Button\"}}}\
]}";

const MANIFEST: &str = "[package]\nversion = \"1.2.3\"\ndescription = \"A driver\"\n";

#[test]
fn plan_holds_descriptor_arguments_and_compiler() {
    let include_paths = vec!["C:\\inc1".to_owned(), "C:\\inc2".to_owned()];
    let plan = generate_and_compile_rcfile(
        &include_paths,
        DOCUMENT,
        Some(MANIFEST),
        None,
        default_compiler_path(),
    )
    .unwrap();
    assert_eq!(plan.compiler_args, vec!["/I C:\\inc1", "/I C:\\inc2", "resources.rc"]);
    assert_eq!(plan.compiler_path, default_compiler_path());
    assert!(plan.metadata_diagnostics.is_empty());
    assert!(plan.manifest_warnings.is_empty());
    assert!(plan.descriptor_contents.contains("#define VER_FILEVERSION        1,2,3,0\n"));
    assert!(plan.descriptor_contents.contains("#define VER_FILEVERSION_STR    \"1.2.3.0\"\n"));
    assert!(plan.descriptor_contents.contains("#define VER_FILEDESCRIPTION_STR \"A driver\"\n"));
    assert!(plan.descriptor_contents.contains("#define VER_COMPANYNAME_STR         \"Contoso\"\n"));
    assert!(plan.descriptor_contents.contains("#define VER_PRODUCTNAME_STR    \"Surface Button\"\n"));
}

#[test]
fn environment_override_reaches_the_plan() {
    let plan = generate_and_compile_rcfile(
        &Vec::new(),
        DOCUMENT,
        Some(MANIFEST),
        Some("C:\\tools\\rc.exe".to_owned()),
        default_compiler_path(),
    )
    .unwrap();
    assert_eq!(plan.compiler_path, "C:\\tools\\rc.exe");
}

#[test]
fn unreadable_manifest_degrades_to_empty_fields() {
    let plan = generate_and_compile_rcfile(
        &Vec::new(),
        DOCUMENT,
        None,
        None,
        default_compiler_path(),
    )
    .unwrap();
    assert!(plan.descriptor_contents.contains("#define VER_FILEVERSION        ,0\n"));
    assert!(plan.descriptor_contents.contains("#define VER_FILEVERSION_STR    \".0\"\n"));
    assert!(plan.descriptor_contents.contains("#define VER_FILEDESCRIPTION_STR \"\"\n"));
}

#[test]
fn short_package_list_still_produces_a_descriptor() {
    let plan = generate_and_compile_rcfile(
        &Vec::new(),
        "{\"packages\": [{\"name\": \"only\"}]}",
        Some(MANIFEST),
        None,
        default_compiler_path(),
    )
    .unwrap();
    assert_eq!(plan.metadata_diagnostics, vec![MetadataDiagnostic::NoSecondPackage]);
    assert!(plan.descriptor_contents.contains("#define VER_COMPANYNAME_STR         \"\"\n"));
    assert!(plan.descriptor_contents.contains("#define VER_FILEVERSION        1,2,3,0\n"));
    assert!(plan.descriptor_contents.ends_with("#include \"common.ver\""));
}

#[test]
fn malformed_manifest_line_reaches_the_plan_as_warning() {
    let plan = generate_and_compile_rcfile(
        &Vec::new(),
        DOCUMENT,
        Some("version = 1.2.3\n"),
        None,
        default_compiler_path(),
    )
    .unwrap();
    assert_eq!(plan.manifest_warnings, vec![ManifestWarning::MalformedVersionLine]);
    assert!(plan.descriptor_contents.contains("#define VER_FILEVERSION_STR    \".0\"\n"));
}

#[test]
fn unparsable_metadata_document_is_fatal() {
    let r = generate_and_compile_rcfile(
        &Vec::new(),
        "not json",
        Some(MANIFEST),
        None,
        default_compiler_path(),
    );
    assert_eq!(r.unwrap_err(), MetadataError::Unparsable);
}

#[test]
fn identical_inputs_yield_byte_identical_descriptors() {
    let a = generate_and_compile_rcfile(
        &Vec::new(),
        DOCUMENT,
        Some(MANIFEST),
        None,
        default_compiler_path(),
    )
    .unwrap();
    let b = generate_and_compile_rcfile(
        &Vec::new(),
        DOCUMENT,
        Some(MANIFEST),
        None,
        default_compiler_path(),
    )
    .unwrap();
    assert_eq!(a.descriptor_contents.as_bytes(), b.descriptor_contents.as_bytes());
}
