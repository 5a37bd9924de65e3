//! Rendering of the resource-descriptor text: a fixed macro-header template
//! with the metadata fields spliced in at fixed places.

use vstd::prelude::*;

verus! {

/// The flat metadata record that the descriptor template embeds. Every field
/// defaults to the empty string when its source is absent.
pub struct MetadataRecord {
    pub company_name: String,
    pub copyright: String,
    pub product_name: String,
    /// Dotted numeric form, e.g. `1.2.3`.
    pub product_version: String,
    /// Comma-joined numeric form derived from the product version, e.g. `1,2,3`.
    pub file_version: String,
    pub description: String,
}

/// The full descriptor text for the given field values: the fixed template
/// with the description, the file version (a literal `,0` appended by the
/// template), the product version (a literal `.0` appended by the template),
/// the copyright, the company name and the product name spliced in, in that
/// order, and a fixed shared-header include at the end.
pub open spec fn rendered_descriptor(
    company_name: Seq<char>,
    copyright: Seq<char>,
    product_name: Seq<char>,
    product_version: Seq<char>,
    file_version: Seq<char>,
    description: Seq<char>,
) -> Seq<char> {
    "#include <windows.h>\n#include <ntverp.h>\n#define\tVER_FILETYPE\t            VFT_DRV\n#define\tVER_FILESUBTYPE\t            VFT2_DRV_SYSTEM\n#define VER_INTERNALNAME_STR        SurfaceButton.sys\n#define VER_ORIGINALFILENAME_STR    VER_INTERNALNAME_STR\n\n#undef VER_FILEDESCRIPTION_STR     \n#define VER_FILEDESCRIPTION_STR \""@
        + description
        + "\"\n\n#undef  VER_PRODUCTNAME_STR\n#define VER_PRODUCTNAME_STR    VER_FILEDESCRIPTION_STR\n\n#define VER_FILEVERSION        "@
        + file_version + ",0\n#define VER_FILEVERSION_STR    \""@ + product_version
        + ".0\"\n\n#undef  VER_PRODUCTVERSION\n#define VER_PRODUCTVERSION          VER_FILEVERSION\n\n#undef  VER_PRODUCTVERSION_STR\n#define VER_PRODUCTVERSION_STR      VER_FILEVERSION_STR\n\n#define VER_LEGALCOPYRIGHT_STR      \""@
        + copyright
        + "\"\n#ifdef  VER_COMPANYNAME_STR\n\n#undef  VER_COMPANYNAME_STR\n#define VER_COMPANYNAME_STR         \""@
        + company_name + "\"\n#endif\n\n#undef  VER_PRODUCTNAME_STR\n#define VER_PRODUCTNAME_STR    \""@
        + product_name + "\"\n\n#include \"common.ver\""@
}

/// The descriptor text that a record renders to.
pub open spec fn spec_descriptor_of(record: MetadataRecord) -> Seq<char> {
    rendered_descriptor(
        record.company_name@,
        record.copyright@,
        record.product_name@,
        record.product_version@,
        record.file_version@,
        record.description@,
    )
}

/// Renders the descriptor text for `record`.
pub fn render_descriptor(record: &MetadataRecord) -> (r: String)
    ensures
        r@ == spec_descriptor_of(*record),
{
    let mut out = String::new();
    out.append(
        "#include <windows.h>\n#include <ntverp.h>\n#define\tVER_FILETYPE\t            VFT_DRV\n#define\tVER_FILESUBTYPE\t            VFT2_DRV_SYSTEM\n#define VER_INTERNALNAME_STR        SurfaceButton.sys\n#define VER_ORIGINALFILENAME_STR    VER_INTERNALNAME_STR\n\n#undef VER_FILEDESCRIPTION_STR     \n#define VER_FILEDESCRIPTION_STR \"",
    );
    out.append(record.description.as_str());
    out.append(
        "\"\n\n#undef  VER_PRODUCTNAME_STR\n#define VER_PRODUCTNAME_STR    VER_FILEDESCRIPTION_STR\n\n#define VER_FILEVERSION        ",
    );
    out.append(record.file_version.as_str());
    out.append(",0\n#define VER_FILEVERSION_STR    \"");
    out.append(record.product_version.as_str());
    out.append(
        ".0\"\n\n#undef  VER_PRODUCTVERSION\n#define VER_PRODUCTVERSION          VER_FILEVERSION\n\n#undef  VER_PRODUCTVERSION_STR\n#define VER_PRODUCTVERSION_STR      VER_FILEVERSION_STR\n\n#define VER_LEGALCOPYRIGHT_STR      \"",
    );
    out.append(record.copyright.as_str());
    out.append(
        "\"\n#ifdef  VER_COMPANYNAME_STR\n\n#undef  VER_COMPANYNAME_STR\n#define VER_COMPANYNAME_STR         \"",
    );
    out.append(record.company_name.as_str());
    out.append("\"\n#endif\n\n#undef  VER_PRODUCTNAME_STR\n#define VER_PRODUCTNAME_STR    \"");
    out.append(record.product_name.as_str());
    out.append("\"\n\n#include \"common.ver\"");
    proof {
        assert(out@ =~= spec_descriptor_of(*record));
    }
    out
}

/// Descriptor generation is a pure function of the metadata fields: two
/// records whose fields agree render to byte-identical descriptor text, so
/// two runs on identical inputs write identical files.
pub proof fn lemma_descriptor_deterministic(a: MetadataRecord, b: MetadataRecord)
    requires
        a.company_name@ == b.company_name@,
        a.copyright@ == b.copyright@,
        a.product_name@ == b.product_name@,
        a.product_version@ == b.product_version@,
        a.file_version@ == b.file_version@,
        a.description@ == b.description@,
    ensures
        spec_descriptor_of(a) == spec_descriptor_of(b),
{
}

/// For every record — the all-empty one included — the rendered text keeps
/// the template intact: it begins with the fixed prelude that declares the
/// driver file-type tags and the internal-name tokens, it ends with the fixed
/// shared-header include, and every field stands inside it, so no
/// substitution place is left unfilled.
pub proof fn lemma_descriptor_well_formed(
    company_name: Seq<char>,
    copyright: Seq<char>,
    product_name: Seq<char>,
    product_version: Seq<char>,
    file_version: Seq<char>,
    description: Seq<char>,
)
    ensures
        ({
            let r = rendered_descriptor(
                company_name,
                copyright,
                product_name,
                product_version,
                file_version,
                description,
            );
            let head =
                "#include <windows.h>\n#include <ntverp.h>\n#define\tVER_FILETYPE\t            VFT_DRV\n#define\tVER_FILESUBTYPE\t            VFT2_DRV_SYSTEM\n#define VER_INTERNALNAME_STR        SurfaceButton.sys\n#define VER_ORIGINALFILENAME_STR    VER_INTERNALNAME_STR\n\n#undef VER_FILEDESCRIPTION_STR     \n#define VER_FILEDESCRIPTION_STR \""@;
            let tail = "\"\n\n#include \"common.ver\""@;
            &&& r.len() >= head.len() + description.len() + product_name.len() + tail.len()
            &&& r.subrange(0, head.len() as int) == head
            &&& r.subrange(head.len() as int, head.len() + description.len() as int) == description
            &&& r.subrange(
                r.len() - tail.len() - product_name.len(),
                r.len() - tail.len(),
            ) == product_name
            &&& r.subrange(r.len() - tail.len(), r.len() as int) == tail
        }),
{
    let r = rendered_descriptor(
        company_name,
        copyright,
        product_name,
        product_version,
        file_version,
        description,
    );
    let head =
        "#include <windows.h>\n#include <ntverp.h>\n#define\tVER_FILETYPE\t            VFT_DRV\n#define\tVER_FILESUBTYPE\t            VFT2_DRV_SYSTEM\n#define VER_INTERNALNAME_STR        SurfaceButton.sys\n#define VER_ORIGINALFILENAME_STR    VER_INTERNALNAME_STR\n\n#undef VER_FILEDESCRIPTION_STR     \n#define VER_FILEDESCRIPTION_STR \""@;
    let tail = "\"\n\n#include \"common.ver\""@;
    assert(r.subrange(0, head.len() as int) =~= head);
    assert(r.subrange(head.len() as int, head.len() + description.len() as int) =~= description);
    assert(r.subrange(r.len() - tail.len() - product_name.len(), r.len() - tail.len())
        =~= product_name);
    assert(r.subrange(r.len() - tail.len(), r.len() as int) =~= tail);
}

} // verus!
