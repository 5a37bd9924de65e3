//! Extraction of company, copyright and product name from the package
//! manager's metadata document. The document is JSON; the three fields are
//! read from the `metadata.wdk` section of the second package entry. Missing
//! fields degrade to empty strings with a diagnostic; a document that does
//! not parse is a fatal error.

use vstd::prelude::*;

verus! {

#[verifier::external_type_specification]
#[verifier::external_body]
pub struct ExValue(serde_json::Value);

/// What serde_json::from_str returns for a document text: `None` where the
/// text is not valid JSON, the parsed value otherwise. The result depends on
/// the text alone.
pub uninterp spec fn json_parsed(document: Seq<char>) -> Option<serde_json::Value>;

/// What serde_json::Value::get returns for a string index: the value under
/// the key where `value` is an object holding it, `None` otherwise. The
/// result depends on the value and the key alone.
pub uninterp spec fn json_get_of(value: serde_json::Value, key: Seq<char>) -> Option<
    serde_json::Value,
>;

/// What serde_json::Value::as_array returns: the elements where `value` is a
/// JSON array, `None` otherwise. The result depends on the value alone.
pub uninterp spec fn json_array_of(value: serde_json::Value) -> Option<Seq<serde_json::Value>>;

/// What serde_json::Value::as_str returns: the contents where `value` is a
/// JSON string, `None` otherwise. The result depends on the value alone.
pub uninterp spec fn json_str_of(value: serde_json::Value) -> Option<Seq<char>>;

/// Relies on serde_json::from_str: parses the text as a JSON document,
/// yielding `None` where serde_json reports a parse error.
#[verifier::external_body]
fn parse_json_document(text: &str) -> (r: Option<serde_json::Value>)
    ensures
        r == json_parsed(text@),
{
    serde_json::from_str(text).ok()
}

/// Relies on serde_json::Value::get with a string index: the value under the
/// given key when the value is an object holding it, `None` otherwise.
#[verifier::external_body]
fn json_get<'a>(value: &'a serde_json::Value, key: &str) -> (r: Option<&'a serde_json::Value>)
    ensures
        match r {
            Some(v) => json_get_of(*value, key@) == Some(*v),
            None => json_get_of(*value, key@) is None,
        },
{
    value.get(key)
}

/// Relies on serde_json::Value::as_array: the element vector when the value
/// is a JSON array, `None` otherwise.
#[verifier::external_body]
fn json_as_array<'a>(value: &'a serde_json::Value) -> (r: Option<&'a Vec<serde_json::Value>>)
    ensures
        match r {
            Some(entries) => json_array_of(*value) == Some(entries@),
            None => json_array_of(*value) is None,
        },
{
    value.as_array()
}

/// Relies on serde_json::Value::as_str: the contents when the value is a
/// JSON string, `None` otherwise.
#[verifier::external_body]
fn json_as_str(value: &serde_json::Value) -> (r: Option<String>)
    ensures
        match r {
            Some(s) => json_str_of(*value) == Some(s@),
            None => json_str_of(*value) is None,
        },
{
    value.as_str().map(str::to_owned)
}

/// A degraded-path diagnostic of the metadata lookup: the build goes on with
/// an empty field, and the line is written to the console.
#[derive(Clone, Copy, PartialEq, Eq, Structural, Debug)]
pub enum MetadataDiagnostic {
    /// The package list held fewer than two entries.
    NoSecondPackage,
    CompanyNameMissing,
    CopyrightMissing,
    ProductNameMissing,
}

impl MetadataDiagnostic {
    /// The console line that reports this diagnostic.
    pub open spec fn spec_message(self) -> Seq<char> {
        match self {
            MetadataDiagnostic::NoSecondPackage => "No packages found in metadata."@,
            MetadataDiagnostic::CompanyNameMissing => "CompanyName not found in metadata."@,
            MetadataDiagnostic::CopyrightMissing => "Copyright not found in metadata."@,
            MetadataDiagnostic::ProductNameMissing => "ProductName not found in metadata."@,
        }
    }

    /// Renders the console line for this diagnostic.
    pub fn message(&self) -> (r: String)
        ensures
            r@ == self.spec_message(),
    {
        match self {
            MetadataDiagnostic::NoSecondPackage => "No packages found in metadata.".to_owned(),
            MetadataDiagnostic::CompanyNameMissing => "CompanyName not found in metadata.".to_owned(),
            MetadataDiagnostic::CopyrightMissing => "Copyright not found in metadata.".to_owned(),
            MetadataDiagnostic::ProductNameMissing => "ProductName not found in metadata.".to_owned(),
        }
    }
}

/// What the JSON lookup found: either no second package entry, or the three
/// optional `metadata.wdk` string fields of that entry.
pub enum PackageLookup {
    NoSecondPackage,
    Fields {
        company_name: Option<String>,
        copyright: Option<String>,
        product_name: Option<String>,
    },
}

/// The package-sourced part of the metadata, with the diagnostics the lookup
/// produced.
#[derive(Debug)]
pub struct WdkMetadata {
    pub company_name: String,
    pub copyright: String,
    pub product_name: String,
    pub diagnostics: Vec<MetadataDiagnostic>,
}

/// The diagnostics owed for a second package entry whose fields are present
/// (`true`) or missing (`false`), in the order the fields are looked up.
pub open spec fn spec_missing_field_diags(
    company_present: bool,
    copyright_present: bool,
    product_present: bool,
) -> Seq<MetadataDiagnostic> {
    (if company_present {
        Seq::<MetadataDiagnostic>::empty()
    } else {
        seq![MetadataDiagnostic::CompanyNameMissing]
    }) + (if copyright_present {
        Seq::<MetadataDiagnostic>::empty()
    } else {
        seq![MetadataDiagnostic::CopyrightMissing]
    }) + (if product_present {
        Seq::<MetadataDiagnostic>::empty()
    } else {
        seq![MetadataDiagnostic::ProductNameMissing]
    })
}

/// `m` is what the lookup result `lookup` resolves to: every absent field is
/// the empty string, every present field is kept verbatim, and the
/// diagnostics report exactly what was absent.
pub open spec fn resolves_to(lookup: PackageLookup, m: WdkMetadata) -> bool {
    match lookup {
        PackageLookup::NoSecondPackage => {
            &&& m.company_name@ == Seq::<char>::empty()
            &&& m.copyright@ == Seq::<char>::empty()
            &&& m.product_name@ == Seq::<char>::empty()
            &&& m.diagnostics@ == seq![MetadataDiagnostic::NoSecondPackage]
        },
        PackageLookup::Fields { company_name, copyright, product_name } => {
            &&& m.company_name@ == match company_name {
                Some(s) => s@,
                None => Seq::<char>::empty(),
            }
            &&& m.copyright@ == match copyright {
                Some(s) => s@,
                None => Seq::<char>::empty(),
            }
            &&& m.product_name@ == match product_name {
                Some(s) => s@,
                None => Seq::<char>::empty(),
            }
            &&& m.diagnostics@ == spec_missing_field_diags(
                company_name is Some,
                copyright is Some,
                product_name is Some,
            )
        },
    }
}

/// Resolves a lookup result to the metadata fields: best-effort population,
/// absent fields left empty and reported rather than failing the build.
pub fn resolve_package_fields(lookup: PackageLookup) -> (r: WdkMetadata)
    ensures
        resolves_to(lookup, r),
{
    match lookup {
        PackageLookup::NoSecondPackage => {
            let mut diagnostics: Vec<MetadataDiagnostic> = Vec::new();
            diagnostics.push(MetadataDiagnostic::NoSecondPackage);
            proof {
                assert(diagnostics@ =~= seq![MetadataDiagnostic::NoSecondPackage]);
            }
            WdkMetadata {
                company_name: String::new(),
                copyright: String::new(),
                product_name: String::new(),
                diagnostics,
            }
        },
        PackageLookup::Fields { company_name, copyright, product_name } => {
            let ghost company_present = company_name is Some;
            let ghost copyright_present = copyright is Some;
            let ghost product_present = product_name is Some;
            let mut diagnostics: Vec<MetadataDiagnostic> = Vec::new();
            let company_name = match company_name {
                Some(s) => s,
                None => {
                    diagnostics.push(MetadataDiagnostic::CompanyNameMissing);
                    String::new()
                },
            };
            let copyright = match copyright {
                Some(s) => s,
                None => {
                    diagnostics.push(MetadataDiagnostic::CopyrightMissing);
                    String::new()
                },
            };
            let product_name = match product_name {
                Some(s) => s,
                None => {
                    diagnostics.push(MetadataDiagnostic::ProductNameMissing);
                    String::new()
                },
            };
            proof {
                assert(diagnostics@ =~= spec_missing_field_diags(
                    company_present,
                    copyright_present,
                    product_present,
                ));
            }
            WdkMetadata { company_name, copyright, product_name, diagnostics }
        },
    }
}

/// A fatal metadata failure: the build must not go on with corrupt data.
#[derive(Clone, Copy, PartialEq, Eq, Structural, Debug)]
pub enum MetadataError {
    /// The package metadata document could not be parsed as JSON.
    Unparsable,
}

/// The second entry of the document's `packages` list, where the parsed
/// document holds a `packages` array with at least two entries.
pub open spec fn spec_second_package(root: serde_json::Value) -> Option<serde_json::Value> {
    match json_get_of(root, "packages"@) {
        Some(packages) => match json_array_of(packages) {
            Some(entries) => if entries.len() >= 2 {
                Some(entries[1])
            } else {
                None
            },
            None => None,
        },
        None => None,
    }
}

/// The string under `metadata.wdk.<key>` of a package entry, where that path
/// exists and holds a string.
pub open spec fn spec_wdk_field(entry: serde_json::Value, key: Seq<char>) -> Option<Seq<char>> {
    match json_get_of(entry, "metadata"@) {
        Some(meta) => match json_get_of(meta, "wdk"@) {
            Some(wdk) => match json_get_of(wdk, key) {
                Some(v) => json_str_of(v),
                None => None,
            },
            None => None,
        },
        None => None,
    }
}

/// An absent field degrades to the empty string.
pub open spec fn spec_field_or_empty(field: Option<Seq<char>>) -> Seq<char> {
    match field {
        Some(s) => s,
        None => Seq::empty(),
    }
}

/// The (company name, copyright, product name) triple that the document
/// yields: the `metadata.wdk` strings of the second package entry, each
/// degrading to empty where absent, and all empty where the document holds
/// no second package entry.
pub open spec fn spec_wdk_fields(document: Seq<char>) -> (Seq<char>, Seq<char>, Seq<char>) {
    match json_parsed(document) {
        Some(root) => match spec_second_package(root) {
            Some(entry) => (
                spec_field_or_empty(spec_wdk_field(entry, "companyname"@)),
                spec_field_or_empty(spec_wdk_field(entry, "copyright"@)),
                spec_field_or_empty(spec_wdk_field(entry, "productname"@)),
            ),
            None => (Seq::<char>::empty(), Seq::<char>::empty(), Seq::<char>::empty()),
        },
        None => (Seq::<char>::empty(), Seq::<char>::empty(), Seq::<char>::empty()),
    }
}

/// The diagnostics the document's lookup owes: the no-packages line where it
/// holds no second package entry, one line per absent field otherwise.
pub open spec fn spec_wdk_diagnostics(document: Seq<char>) -> Seq<MetadataDiagnostic> {
    match json_parsed(document) {
        Some(root) => match spec_second_package(root) {
            Some(entry) => spec_missing_field_diags(
                spec_wdk_field(entry, "companyname"@) is Some,
                spec_wdk_field(entry, "copyright"@) is Some,
                spec_wdk_field(entry, "productname"@) is Some,
            ),
            None => seq![MetadataDiagnostic::NoSecondPackage],
        },
        None => Seq::empty(),
    }
}

/// The three `metadata.wdk` string fields of `entry`, each `None` where the
/// path to it is missing or not a string.
fn wdk_fields_of_entry(entry: &serde_json::Value) -> (r: (Option<String>, Option<String>, Option<
    String,
>))
    ensures
        match r.0 {
            Some(s) => spec_wdk_field(*entry, "companyname"@) == Some(s@),
            None => spec_wdk_field(*entry, "companyname"@) is None,
        },
        match r.1 {
            Some(s) => spec_wdk_field(*entry, "copyright"@) == Some(s@),
            None => spec_wdk_field(*entry, "copyright"@) is None,
        },
        match r.2 {
            Some(s) => spec_wdk_field(*entry, "productname"@) == Some(s@),
            None => spec_wdk_field(*entry, "productname"@) is None,
        },
{
    let wdk = match json_get(entry, "metadata") {
        Some(meta) => json_get(meta, "wdk"),
        None => None,
    };
    match wdk {
        Some(wdk) => {
            let company_name = match json_get(wdk, "companyname") {
                Some(v) => json_as_str(v),
                None => None,
            };
            let copyright = match json_get(wdk, "copyright") {
                Some(v) => json_as_str(v),
                None => None,
            };
            let product_name = match json_get(wdk, "productname") {
                Some(v) => json_as_str(v),
                None => None,
            };
            (company_name, copyright, product_name)
        },
        None => (None, None, None),
    }
}

/// Reads the package-sourced metadata fields from the JSON text of the
/// package metadata document. A document that does not parse is the one
/// fatal error, and the only one; otherwise the fields and diagnostics are
/// exactly what the document yields: absent fields empty with their
/// diagnostics, present fields verbatim.
pub fn wdk_metadata_from_document(document: &str) -> (r: Result<WdkMetadata, MetadataError>)
    ensures
        r is Err <==> json_parsed(document@) is None,
        r is Err ==> r->Err_0 == MetadataError::Unparsable,
        r is Ok ==> ({
            let m = r->Ok_0;
            &&& (m.company_name@, m.copyright@, m.product_name@) == spec_wdk_fields(document@)
            &&& m.diagnostics@ == spec_wdk_diagnostics(document@)
        }),
{
    let root = match parse_json_document(document) {
        Some(root) => root,
        None => {
            return Err(MetadataError::Unparsable);
        },
    };
    let lookup = match json_get(&root, "packages") {
        Some(packages) => match json_as_array(packages) {
            Some(entries) => {
                if entries.len() < 2 {
                    PackageLookup::NoSecondPackage
                } else {
                    let (company_name, copyright, product_name) = wdk_fields_of_entry(&entries[1]);
                    PackageLookup::Fields { company_name, copyright, product_name }
                }
            },
            None => PackageLookup::NoSecondPackage,
        },
        None => PackageLookup::NoSecondPackage,
    };
    proof {
        match spec_second_package(root) {
            Some(entry) => {
                assert(lookup matches PackageLookup::Fields { company_name, copyright, product_name }
                    && (match company_name {
                        Some(s) => spec_wdk_field(entry, "companyname"@) == Some(s@),
                        None => spec_wdk_field(entry, "companyname"@) is None,
                    })
                    && (match copyright {
                        Some(s) => spec_wdk_field(entry, "copyright"@) == Some(s@),
                        None => spec_wdk_field(entry, "copyright"@) is None,
                    })
                    && (match product_name {
                        Some(s) => spec_wdk_field(entry, "productname"@) == Some(s@),
                        None => spec_wdk_field(entry, "productname"@) is None,
                    }));
            },
            None => {
                assert(lookup is NoSecondPackage);
            },
        }
    }
    let ghost the_lookup = lookup;
    let resolved = resolve_package_fields(lookup);
    let r: Result<WdkMetadata, MetadataError> = Ok(resolved);
    proof {
        assert(resolves_to(the_lookup, r->Ok_0));
    }
    r
}

} // verus!
