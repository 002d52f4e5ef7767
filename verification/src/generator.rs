use vstd::prelude::*;
use vstd::string::StringExecFns;
use crate::args::license_names_ok;
use crate::errors::GenError;
use crate::manifest::{
    doc_insert_field, field_line_spec, has_blank, is_blank, license_key, mit_value, readme_key,
    readme_value, ManifestDocument,
};
use crate::pathname::{final_component, final_component_spec};
use crate::templates::{
    cargotoml, gitignore_spec, gitignore_text, helloworld_rs, hello_world_spec, mit_license_spec,
    mitlicense, readme_spec, readme_text, skeleton_spec,
};
use crate::year::{current_year_string, year_wf};

verus! {

/// One file the generator asks its runner to write: a path relative to the
/// package root, and the full content.
pub struct FileSpec {
    pub rel_path: String,
    pub contents: String,
}

/// The package generator: it owns the target path, the package name derived
/// from it, the captured year, the configured copyright names, and the
/// manifest document, and decides what every generated file contains.
pub struct PackageGen {
    pub path: String,
    pub package_name: String,
    pub year: String,
    pub names: String,
    pub manifest: ManifestDocument,
}

impl PackageGen {
    /// Well-formedness: the package name is the path's final component, the
    /// year is four digits, and the manifest still has its insertion point.
    pub open spec fn wf(self) -> bool {
        &&& final_component_spec(self.path@) == Some(self.package_name@)
        &&& year_wf(self.year@)
        &&& has_blank(self.manifest@)
    }

    /// Builds a generator for the package at `path` with the given copyright
    /// names and year string.  The manifest starts as the rendered skeleton.
    pub fn new(path: &str, names: String, year: String) -> (g: PackageGen)
        requires
            final_component_spec(path@) is Some,
            year_wf(year@),
        ensures
            g.wf(),
            g.path@ == path@,
            Some(g.package_name@) == final_component_spec(path@),
            g.year@ == year@,
            g.names@ == names@,
            g.manifest@ == skeleton_spec(g.package_name@),
    {
        let package_name = match final_component(path) {
            Some(n) => n,
            None => {
                proof {
                    assert(false);
                }
                String::new()
            },
        };
        let lines = cargotoml(package_name.clone());
        let manifest = ManifestDocument::from_lines(lines);
        let g = PackageGen { path: String::from_str(path), package_name, year, names, manifest };
        proof {
            assert(is_blank(g.manifest@[4]));
        }
        g
    }

    /// Builds a generator whose year is read from the wall clock at
    /// construction time.
    pub fn new_now(path: &str, names: String) -> (g: PackageGen)
        requires
            final_component_spec(path@) is Some,
        ensures
            g.wf(),
            g.path@ == path@,
            Some(g.package_name@) == final_component_spec(path@),
            g.names@ == names@,
            g.manifest@ == skeleton_spec(g.package_name@),
    {
        let year = current_year_string();
        PackageGen::new(path, names, year)
    }

    /// The base scaffold: given what the runner observed of the target path,
    /// either refuses a non-empty target, or lists every file of the default
    /// layout with its content.  The runner must initialize the repository at
    /// the target (creating it) before writing the listed files, and must
    /// pass `target_is_empty` as true only for an existing empty directory.
    pub fn scaffold_plan(&self, target_exists: bool, target_is_empty: bool) -> (r: Result<
        Vec<FileSpec>,
        GenError,
    >)
        ensures
            target_exists && !target_is_empty ==> (r matches Err(e) && e matches GenError::TargetNotEmpty(p)
                && p@ == self.path@),
            !(target_exists && !target_is_empty) ==> (r matches Ok(plan) && plan@.len() == 3
                && plan@[0].rel_path@ == "src/main.rs"@ && plan@[0].contents@ == hello_world_spec()
                && plan@[1].rel_path@ == "Cargo.toml"@ && plan@[1].contents@ == crate::manifest::join_lines(self.manifest@)
                && plan@[2].rel_path@ == ".gitignore"@ && plan@[2].contents@ == gitignore_spec()),
    {
        if target_exists && !target_is_empty {
            return Err(GenError::TargetNotEmpty(self.path.clone()));
        }
        let mut plan: Vec<FileSpec> = Vec::new();
        plan.push(FileSpec { rel_path: String::from_str("src/main.rs"), contents: helloworld_rs() });
        plan.push(
            FileSpec { rel_path: String::from_str("Cargo.toml"), contents: self.manifest.serialize() },
        );
        plan.push(FileSpec { rel_path: String::from_str(".gitignore"), contents: gitignore_text() });
        Ok(plan)
    }

    /// Adds the MIT license: renders the license text from the stored names
    /// and year, records `license = "MIT"` in the manifest (idempotently),
    /// and lists the license file and the re-serialized manifest for the
    /// runner to write.
    pub fn add_license(&mut self) -> (r: Result<Vec<FileSpec>, GenError>)
        requires
            old(self).wf(),
            license_names_ok(old(self).names@),
        ensures
            final(self).wf(),
            final(self).path == old(self).path,
            final(self).package_name == old(self).package_name,
            final(self).year == old(self).year,
            final(self).names == old(self).names,
            doc_insert_field(old(self).manifest@, license_key(), mit_value()) == Some(
                final(self).manifest@,
            ),
            r matches Ok(plan) && plan@.len() == 2 && plan@[0].rel_path@ == "LICENSE"@
                && plan@[0].contents@ == mit_license_spec(old(self).names@, old(self).year@)
                && plan@[1].rel_path@ == "Cargo.toml"@
                && plan@[1].contents@ == crate::manifest::join_lines(final(self).manifest@),
    {
        proof {
            reveal_strlit("license");
            reveal_strlit("MIT");
            assert("license"@ =~= license_key());
            assert("MIT"@ =~= mit_value());
            crate::manifest::lemma_insert_field_defined(self.manifest@, license_key(), mit_value());
        }
        let license = mitlicense(&self.names, &self.year);
        let res = self.manifest.insert_field("license", "MIT");
        match res {
            Ok(_) => {
                let manifest_text = self.manifest.serialize();
                let mut plan: Vec<FileSpec> = Vec::new();
                plan.push(FileSpec { rel_path: String::from_str("LICENSE"), contents: license });
                plan.push(
                    FileSpec { rel_path: String::from_str("Cargo.toml"), contents: manifest_text },
                );
                Ok(plan)
            },
            Err(e) => {
                proof {
                    assert(false);
                }
                Err(e)
            },
        }
    }

    /// Adds the README: renders the heading line from the package name,
    /// records `readme = "README.md"` in the manifest (idempotently), and
    /// lists the README and the re-serialized manifest for the runner to
    /// write.
    pub fn add_readme(&mut self) -> (r: Result<Vec<FileSpec>, GenError>)
        requires
            old(self).wf(),
        ensures
            final(self).wf(),
            final(self).path == old(self).path,
            final(self).package_name == old(self).package_name,
            final(self).year == old(self).year,
            final(self).names == old(self).names,
            doc_insert_field(old(self).manifest@, readme_key(), readme_value()) == Some(
                final(self).manifest@,
            ),
            r matches Ok(plan) && plan@.len() == 2 && plan@[0].rel_path@ == "README.md"@
                && plan@[0].contents@ == readme_spec(old(self).package_name@)
                && plan@[1].rel_path@ == "Cargo.toml"@
                && plan@[1].contents@ == crate::manifest::join_lines(final(self).manifest@),
    {
        proof {
            reveal_strlit("readme");
            reveal_strlit("README.md");
            assert("readme"@ =~= readme_key());
            assert("README.md"@ =~= readme_value());
            crate::manifest::lemma_insert_field_defined(self.manifest@, readme_key(), readme_value());
        }
        let readme = readme_text(self.package_name.as_str());
        let res = self.manifest.insert_field("readme", "README.md");
        match res {
            Ok(_) => {
                let manifest_text = self.manifest.serialize();
                let mut plan: Vec<FileSpec> = Vec::new();
                plan.push(FileSpec { rel_path: String::from_str("README.md"), contents: readme });
                plan.push(
                    FileSpec { rel_path: String::from_str("Cargo.toml"), contents: manifest_text },
                );
                Ok(plan)
            },
            Err(e) => {
                proof {
                    assert(false);
                }
                Err(e)
            },
        }
    }

    /// The success message reported after a full run.
    pub fn success_message(&self) -> (r: String)
        ensures
            r@ == "Created "@ + self.path@,
    {
        let mut s = String::from_str("Created ");
        s.append(self.path.as_str());
        s
    }
}

/// Adding the license twice is the same as adding it once: on a manifest
/// that declares `license` at most once and still has its insertion point,
/// the insertion `add_license` performs succeeds, leaves exactly one
/// `license` field, and a second identical insertion changes nothing.
pub proof fn lemma_add_license_idempotent(lines: Seq<Seq<char>>)
    requires
        has_blank(lines),
        crate::manifest::count_fields(lines, license_key()) <= 1,
    ensures
        doc_insert_field(lines, license_key(), mit_value()) matches Some(d)
            && crate::manifest::count_fields(d, license_key()) == 1
            && doc_insert_field(d, license_key(), mit_value()) == Some(d),
{
    crate::manifest::lemma_insert_field_defined(lines, license_key(), mit_value());
    crate::manifest::lemma_insert_field_count_one(lines, license_key(), mit_value());
    crate::manifest::lemma_insert_field_idempotent(lines, license_key(), mit_value());
}

/// Adding the README twice is the same as adding it once, in the same sense.
pub proof fn lemma_add_readme_idempotent(lines: Seq<Seq<char>>)
    requires
        has_blank(lines),
        crate::manifest::count_fields(lines, readme_key()) <= 1,
    ensures
        doc_insert_field(lines, readme_key(), readme_value()) matches Some(d)
            && crate::manifest::count_fields(d, readme_key()) == 1
            && doc_insert_field(d, readme_key(), readme_value()) == Some(d),
{
    crate::manifest::lemma_insert_field_defined(lines, readme_key(), readme_value());
    crate::manifest::lemma_insert_field_count_one(lines, readme_key(), readme_value());
    crate::manifest::lemma_insert_field_idempotent(lines, readme_key(), readme_value());
}

/// Every manifest skeleton carries the package name: its second line is the
/// `name` field for the path's final component, so the scaffolded manifest
/// document contains a `name` field equal to that component.
pub proof fn lemma_scaffold_manifest_has_name(path: Seq<char>)
    ensures
        match final_component_spec(path) {
            Some(n) => skeleton_spec(n)[1] == field_line_spec(crate::manifest::name_key(), n)
                && skeleton_spec(n).contains(field_line_spec(crate::manifest::name_key(), n))
                && crate::manifest::count_fields(skeleton_spec(n), crate::manifest::name_key())
                == 1,
            None => true,
        },
{
    match final_component_spec(path) {
        Some(n) => {
            crate::templates::lemma_skeleton_name_field(n);
            assert(skeleton_spec(n)[1] == field_line_spec(crate::manifest::name_key(), n));
        },
        None => {},
    }
}

} // verus!
