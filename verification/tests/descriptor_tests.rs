use wdk_build::descriptor::{MetadataRecord, render_descriptor};

fn record(
    company_name: &str,
    copyright: &str,
    product_name: &str,
    product_version: &str,
    file_version: &str,
    description: &str,
) -> MetadataRecord {
    MetadataRecord {
        company_name: company_name.to_owned(),
        copyright: copyright.to_owned(),
        product_name: product_name.to_owned(),
        product_version: product_version.to_owned(),
        file_version: file_version.to_owned(),
        description: description.to_owned(),
    }
}

fn expected_text(
    company_name: &str,
    copyright: &str,
    product_name: &str,
    product_version: &str,
    file_version: &str,
    description: &str,
) -> String {
    format!(
        "#include <windows.h>\n\
         #include <ntverp.h>\n\
         #define\tVER_FILETYPE\t            VFT_DRV\n\
         #define\tVER_FILESUBTYPE\t            VFT2_DRV_SYSTEM\n\
         #define VER_INTERNALNAME_STR        SurfaceButton.sys\n\
         #define VER_ORIGINALFILENAME_STR    VER_INTERNALNAME_STR\n\
         \n\
         #undef VER_FILEDESCRIPTION_STR     \n\
         #define VER_FILEDESCRIPTION_STR \"{description}\"\n\
         \n\
         #undef  VER_PRODUCTNAME_STR\n\
         #define VER_PRODUCTNAME_STR    VER_FILEDESCRIPTION_STR\n\
         \n\
         #define VER_FILEVERSION        {file_version},0\n\
         #define VER_FILEVERSION_STR    \"{product_version}.0\"\n\
         \n\
         #undef  VER_PRODUCTVERSION\n\
         #define VER_PRODUCTVERSION          VER_FILEVERSION\n\
         \n\
         #undef  VER_PRODUCTVERSION_STR\n\
         #define VER_PRODUCTVERSION_STR      VER_FILEVERSION_STR\n\
         \n\
         #define VER_LEGALCOPYRIGHT_STR      \"{copyright}\"\n\
         #ifdef  VER_COMPANYNAME_STR\n\
         \n\
         #undef  VER_COMPANYNAME_STR\n\
         #define VER_COMPANYNAME_STR         \"{company_name}\"\n\
         #endif\n\
         \n\
         #undef  VER_PRODUCTNAME_STR\n\
         #define VER_PRODUCTNAME_STR    \"{product_name}\"\n\
         \n\
         #include \"common.ver\""
    )
}

#[test]
fn all_empty_record_still_renders_full_template() {
    let rendered = render_descriptor(&record("", "", "", "", "", ""));
    assert_eq!(rendered, expected_text("", "", "", "", "", ""));
    assert!(rendered.starts_with("#include <windows.h>\n"));
    assert!(rendered.ends_with("#include \"common.ver\""));
    assert!(!rendered.contains('{'));
    assert!(!rendered.contains('}'));
}

#[test]
fn populated_record_embeds_every_field() {
    let rendered = render_descriptor(&record(
        "Contoso",
        "(c) Contoso",
        "Surface Button",
        "1.2.3",
        "1,2,3",
        "A driver",
    ));
    assert_eq!(
        rendered,
        expected_text("Contoso", "(c) Contoso", "Surface Button", "1.2.3", "1,2,3", "A driver")
    );
    assert!(rendered.contains("#define VER_FILEVERSION        1,2,3,0\n"));
    assert!(rendered.contains("#define VER_FILEVERSION_STR    \"1.2.3.0\"\n"));
    assert!(rendered.contains("#define VER_FILEDESCRIPTION_STR \"A driver\"\n"));
    assert!(rendered.contains("#define VER_COMPANYNAME_STR         \"Contoso\"\n"));
    assert!(rendered.contains("#define VER_LEGALCOPYRIGHT_STR      \"(c) Contoso\"\n"));
    assert!(rendered.contains("#define VER_PRODUCTNAME_STR    \"Surface Button\"\n"));
}

#[test]
fn rendering_twice_yields_byte_identical_text() {
    let a = render_descriptor(&record("C", "K", "P", "2.0", "2,0", "D"));
    let b = render_descriptor(&record("C", "K", "P", "2.0", "2,0", "D"));
    assert_eq!(a, b);
    assert_eq!(a.into_bytes(), b.into_bytes());
}
