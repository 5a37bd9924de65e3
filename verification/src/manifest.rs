//! Extraction of version and description fields from the package manifest
//! text. The manifest is read line by line: a line beginning with `version`
//! yields the product version (the text between its first and last double
//! quote) and, derived from it, the comma-joined file version; a line
//! beginning with `description` yields the description. A later matching
//! line overwrites an earlier one.

use vstd::prelude::*;
use crate::text::{
    spec_dots_to_commas, spec_lines, spec_quoted, spec_starts_with, spec_well_quoted,
    dots_to_commas, quoted_value, split_lines, str_starts_with, well_quoted,
};

verus! {

/// A warning of the manifest parse: a line matched a field prefix but held
/// fewer than two quote characters, so the field degrades to the empty
/// string rather than a truncated value. The build goes on; the line is
/// written to the console.
#[derive(Clone, Copy, PartialEq, Eq, Structural, Debug)]
pub enum ManifestWarning {
    MalformedVersionLine,
    MalformedDescriptionLine,
}

impl ManifestWarning {
    /// The console line that reports this warning.
    pub open spec fn spec_message(self) -> Seq<char> {
        match self {
            ManifestWarning::MalformedVersionLine => "Malformed version line in manifest: fewer than two quote characters."@,
            ManifestWarning::MalformedDescriptionLine => "Malformed description line in manifest: fewer than two quote characters."@,
        }
    }

    /// Renders the console line for this warning.
    pub fn message(&self) -> (r: String)
        ensures
            r@ == self.spec_message(),
    {
        match self {
            ManifestWarning::MalformedVersionLine => "Malformed version line in manifest: fewer than two quote characters.".to_owned(),
            ManifestWarning::MalformedDescriptionLine => "Malformed description line in manifest: fewer than two quote characters.".to_owned(),
        }
    }
}

/// The manifest-sourced part of the metadata: product version, description,
/// the file version derived from the product version, and the warnings for
/// matching lines without a well-formed quoted value.
pub struct PackageDetails {
    pub product_version: String,
    pub description: String,
    pub file_version: String,
    pub warnings: Vec<ManifestWarning>,
}

/// The warnings one manifest line owes: a version or description prefix
/// without a well-formed quoted value.
pub open spec fn spec_line_warnings(line: Seq<char>) -> Seq<ManifestWarning> {
    (if spec_starts_with(line, "version"@) && !spec_well_quoted(line) {
        seq![ManifestWarning::MalformedVersionLine]
    } else {
        Seq::<ManifestWarning>::empty()
    }) + (if spec_starts_with(line, "description"@) && !spec_well_quoted(line) {
        seq![ManifestWarning::MalformedDescriptionLine]
    } else {
        Seq::<ManifestWarning>::empty()
    })
}

/// The warnings of every line, in line order.
pub open spec fn spec_warnings_of_lines(lines: Seq<Seq<char>>) -> Seq<ManifestWarning>
    decreases lines.len(),
{
    if lines.len() == 0 {
        Seq::empty()
    } else {
        spec_line_warnings(lines[0]) + spec_warnings_of_lines(lines.subrange(1, lines.len() as int))
    }
}

/// The warnings the manifest text owes.
pub open spec fn spec_manifest_warnings(text: Seq<char>) -> Seq<ManifestWarning> {
    spec_warnings_of_lines(spec_lines(text))
}

/// The triple (product version, description, file version) after one
/// manifest line has been applied to the accumulated triple `acc`.
pub open spec fn apply_manifest_line(
    acc: (Seq<char>, Seq<char>, Seq<char>),
    line: Seq<char>,
) -> (Seq<char>, Seq<char>, Seq<char>) {
    let after_version = if spec_starts_with(line, "version"@) {
        (spec_quoted(line), acc.1, spec_dots_to_commas(spec_quoted(line)))
    } else {
        acc
    };
    if spec_starts_with(line, "description"@) {
        (after_version.0, spec_quoted(line), after_version.2)
    } else {
        after_version
    }
}

/// The triple after every line of `lines` has been applied in order.
pub open spec fn fold_manifest_lines(
    lines: Seq<Seq<char>>,
    acc: (Seq<char>, Seq<char>, Seq<char>),
) -> (Seq<char>, Seq<char>, Seq<char>)
    decreases lines.len(),
{
    if lines.len() == 0 {
        acc
    } else {
        fold_manifest_lines(lines.subrange(1, lines.len() as int), apply_manifest_line(acc, lines[0]))
    }
}

/// The fields that the manifest text yields: every field empty at the start,
/// the lines applied in order.
pub open spec fn spec_package_details(text: Seq<char>) -> (Seq<char>, Seq<char>, Seq<char>) {
    fold_manifest_lines(
        spec_lines(text),
        (Seq::<char>::empty(), Seq::<char>::empty(), Seq::<char>::empty()),
    )
}

/// Parses the manifest text into its version and description fields, with a
/// warning for every matching line whose quoted value is malformed.
pub fn package_details_from_manifest(text: &str) -> (r: PackageDetails)
    ensures
        r.product_version@ == spec_package_details(text@).0,
        r.description@ == spec_package_details(text@).1,
        r.file_version@ == spec_package_details(text@).2,
        r.warnings@ == spec_manifest_warnings(text@),
{
    let lines = split_lines(text);
    let ghost all = spec_lines(text@);
    let mut product_version = String::new();
    let mut description = String::new();
    let mut file_version = String::new();
    let mut warnings: Vec<ManifestWarning> = Vec::new();
    let n = lines.len();
    proof {
        assert(all.subrange(0, n as int) =~= all);
    }
    let mut i: usize = 0;
    while i < n
        invariant
            n == lines@.len(),
            0 <= i <= n,
            lines.deep_view() == all,
            spec_package_details(text@) == fold_manifest_lines(
                all.subrange(i as int, n as int),
                (product_version@, description@, file_version@),
            ),
            spec_manifest_warnings(text@) == warnings@ + spec_warnings_of_lines(
                all.subrange(i as int, n as int),
            ),
        decreases n - i,
    {
        let ghost acc = (product_version@, description@, file_version@);
        let ghost warnings_before = warnings@;
        let line = &lines[i];
        proof {
            assert(line@ == all[i as int]);
        }
        let quoted_ok = well_quoted(line.as_str());
        if str_starts_with(line.as_str(), "version") {
            product_version = quoted_value(line.as_str());
            file_version = dots_to_commas(product_version.as_str());
            if !quoted_ok {
                warnings.push(ManifestWarning::MalformedVersionLine);
            }
        }
        if str_starts_with(line.as_str(), "description") {
            description = quoted_value(line.as_str());
            if !quoted_ok {
                warnings.push(ManifestWarning::MalformedDescriptionLine);
            }
        }
        i += 1;
        proof {
            assert((product_version@, description@, file_version@) == apply_manifest_line(
                acc,
                all[i - 1],
            ));
            assert(warnings@ =~= warnings_before + spec_line_warnings(all[i - 1]));
            assert(all.subrange(i - 1, n as int).subrange(1, n - (i - 1)) =~= all.subrange(
                i as int,
                n as int,
            ));
            assert(all.subrange(i - 1, n as int)[0] == all[i - 1]);
            assert(warnings_before + spec_line_warnings(all[i - 1]) + spec_warnings_of_lines(
                all.subrange(i as int, n as int),
            ) =~= warnings_before + spec_warnings_of_lines(all.subrange(i - 1, n as int)));
        }
    }
    proof {
        assert(all.subrange(n as int, n as int) =~= Seq::<Seq<char>>::empty());
        assert(warnings@ + Seq::<ManifestWarning>::empty() =~= warnings@);
    }
    PackageDetails { product_version, description, file_version, warnings }
}

} // verus!
