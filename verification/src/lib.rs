//! Build-time helper that renders a Windows version-resource descriptor from
//! package metadata and prepares the invocation of the external resource
//! compiler that turns it into a linkable object. The caller performs the
//! reads and writes at the edges: it hands in the package metadata document,
//! the manifest text and the environment override, writes the rendered
//! descriptor to the fixed path, and spawns the resolved compiler with the
//! prepared argument list.

pub mod descriptor;
pub mod invoker;
pub mod manifest;
pub mod package_meta;
pub mod text;

use vstd::prelude::*;
use crate::descriptor::{MetadataRecord, rendered_descriptor, render_descriptor};
use crate::invoker::{spec_compiler_args, build_compiler_args, resolve_compiler_path};
use crate::manifest::{
    ManifestWarning, PackageDetails, spec_manifest_warnings, spec_package_details,
    package_details_from_manifest,
};
use crate::package_meta::{
    MetadataDiagnostic, MetadataError, WdkMetadata, json_parsed, spec_wdk_diagnostics,
    spec_wdk_fields, wdk_metadata_from_document,
};

verus! {

/// Everything the caller needs to finish the build step: the descriptor text
/// to write at the fixed path, the compiler to spawn, its argument list, and
/// the degraded-path diagnostics of the metadata lookup.
#[derive(Debug)]
pub struct BuildPlan {
    pub descriptor_contents: String,
    pub compiler_path: String,
    pub compiler_args: Vec<String>,
    pub metadata_diagnostics: Vec<MetadataDiagnostic>,
    pub manifest_warnings: Vec<ManifestWarning>,
}

/// The manifest-sourced fields (product version, description, file version):
/// parsed from the manifest text when it could be read, all empty when it
/// could not — an unreadable manifest degrades, it does not fail the build.
pub open spec fn spec_manifest_details(manifest_text: Option<&str>) -> (
    Seq<char>,
    Seq<char>,
    Seq<char>,
) {
    match manifest_text {
        Some(t) => spec_package_details(t@),
        None => (Seq::<char>::empty(), Seq::<char>::empty(), Seq::<char>::empty()),
    }
}

/// Produces the build plan for one invocation: the metadata record is drawn
/// from the package metadata document and the manifest text, rendered into
/// the descriptor template, and the compiler invocation is resolved from the
/// environment override, the fallback path and the include paths. An
/// unparsable metadata document is the one fatal error; everything else
/// degrades to empty fields with diagnostics.
pub fn generate_and_compile_rcfile(
    include_paths: &Vec<String>,
    package_metadata_document: &str,
    manifest_text: Option<&str>,
    compiler_override: Option<String>,
    fallback_compiler_path: &str,
) -> (r: Result<BuildPlan, MetadataError>)
    ensures
        r is Err <==> json_parsed(package_metadata_document@) is None,
        r is Err ==> r->Err_0 == MetadataError::Unparsable,
        r is Ok ==> ({
            let plan = r->Ok_0;
            let details = spec_manifest_details(manifest_text);
            let fields = spec_wdk_fields(package_metadata_document@);
            &&& plan.compiler_path@ == match compiler_override {
                Some(p) => p@,
                None => fallback_compiler_path@,
            }
            &&& plan.compiler_args.deep_view() == spec_compiler_args(
                include_paths.deep_view(),
                "resources.rc"@,
            )
            &&& plan.descriptor_contents@ == rendered_descriptor(
                fields.0,
                fields.1,
                fields.2,
                details.0,
                details.2,
                details.1,
            )
            &&& plan.metadata_diagnostics@ == spec_wdk_diagnostics(package_metadata_document@)
            &&& plan.manifest_warnings@ == match manifest_text {
                Some(t) => spec_manifest_warnings(t@),
                None => Seq::<ManifestWarning>::empty(),
            }
        }),
{
    let wdk = match wdk_metadata_from_document(package_metadata_document) {
        Ok(w) => w,
        Err(e) => {
            return Err(e);
        },
    };
    let details = match manifest_text {
        Some(t) => package_details_from_manifest(t),
        None => PackageDetails {
            product_version: String::new(),
            description: String::new(),
            file_version: String::new(),
            warnings: Vec::new(),
        },
    };
    let WdkMetadata { company_name, copyright, product_name, diagnostics } = wdk;
    let record = MetadataRecord {
        company_name,
        copyright,
        product_name,
        product_version: details.product_version,
        file_version: details.file_version,
        description: details.description,
    };
    let descriptor_contents = render_descriptor(&record);
    let compiler_path = resolve_compiler_path(compiler_override, fallback_compiler_path);
    let compiler_args = build_compiler_args(include_paths);
    let plan = BuildPlan {
        descriptor_contents,
        compiler_path,
        compiler_args,
        metadata_diagnostics: diagnostics,
        manifest_warnings: details.warnings,
    };
    Ok(plan)
}

} // verus!
