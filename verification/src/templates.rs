use vstd::prelude::*;
use vstd::string::StringExecFns;
use crate::manifest::{
    doc_insert_field, field_line_spec, has_field, is_blank, is_first_blank_index,
    lemma_exists_first_blank_index, lemma_head_differs_not_field, license_key, line_is_field,
    mit_value, name_key, render_field_line,
};

verus! {

/// The fixed entry-point stub placed in the package's source subdirectory.
pub open spec fn hello_world_spec() -> Seq<char> {
    "fn main() {\n    println!(\"Hello, world!\");\n}"@
}

/// Renders the entry-point stub.
pub fn helloworld_rs() -> (r: String)
    ensures
        r@ == hello_world_spec(),
{
    String::from_str("fn main() {\n    println!(\"Hello, world!\");\n}")
}

/// The fixed ignore-file content: the build output directory.
pub open spec fn gitignore_spec() -> Seq<char> {
    "/target\n"@
}

/// Renders the ignore file.
pub fn gitignore_text() -> (r: String)
    ensures
        r@ == gitignore_spec(),
{
    String::from_str("/target\n")
}

/// The fixed comment line of the manifest skeleton.
pub open spec fn manifest_comment() -> Seq<char> {
    "# See more keys and their definitions at https://doc.rust-lang.org/cargo/reference/manifest.html"@
}

/// The manifest skeleton for a package called `name`: a metadata block, a
/// blank insertion point, a comment, a second blank line, and an empty
/// dependency block followed by a final blank line.
pub open spec fn skeleton_spec(name: Seq<char>) -> Seq<Seq<char>> {
    seq![
        "[package]"@,
        field_line_spec(name_key(), name),
        "version = \"0.1.0\""@,
        "edition = \"2021\""@,
        Seq::<char>::empty(),
        manifest_comment(),
        Seq::<char>::empty(),
        "[dependencies]"@,
        Seq::<char>::empty(),
    ]
}

/// Renders the manifest skeleton, line by line.
pub fn cargotoml(name: String) -> (r: Vec<String>)
    requires
        name@.len() > 0,
    ensures
        r.deep_view() == skeleton_spec(name@),
{
    let mut v: Vec<String> = Vec::new();
    v.push(String::from_str("[package]"));
    v.push(render_field_line("name", name.as_str()));
    v.push(String::from_str("version = \"0.1.0\""));
    v.push(String::from_str("edition = \"2021\""));
    v.push(String::new());
    v.push(String::from_str(
        "# See more keys and their definitions at https://doc.rust-lang.org/cargo/reference/manifest.html",
    ));
    v.push(String::new());
    v.push(String::from_str("[dependencies]"));
    v.push(String::new());
    proof {
        reveal_strlit("name");
        assert("name"@ =~= name_key());
        assert(v.deep_view() =~= skeleton_spec(name@));
    }
    v
}

/// No line of the skeleton declares the `license` key, and the skeleton's
/// insertion point is the first blank line, right after the metadata block.
proof fn lemma_skeleton_shape(name: Seq<char>)
    ensures
        !has_field(skeleton_spec(name), license_key()),
        is_first_blank_index(skeleton_spec(name), 4),
{
    let sk = skeleton_spec(name);
    reveal_strlit("[package]");
    reveal_strlit("version = \"0.1.0\"");
    reveal_strlit("edition = \"2021\"");
    reveal_strlit(
        "# See more keys and their definitions at https://doc.rust-lang.org/cargo/reference/manifest.html",
    );
    reveal_strlit("[dependencies]");
    assert(sk[1][0] == name_key()[0]);
    lemma_head_differs_not_field(sk[0], license_key());
    lemma_head_differs_not_field(sk[1], license_key());
    lemma_head_differs_not_field(sk[2], license_key());
    lemma_head_differs_not_field(sk[3], license_key());
    lemma_head_differs_not_field(sk[4], license_key());
    lemma_head_differs_not_field(sk[5], license_key());
    lemma_head_differs_not_field(sk[6], license_key());
    lemma_head_differs_not_field(sk[7], license_key());
    lemma_head_differs_not_field(sk[8], license_key());
    assert forall|i: int| 0 <= i < sk.len() implies !line_is_field(sk[i], license_key()) by {}
    assert(is_blank(sk[4]));
    assert forall|j: int| 0 <= j < 4 implies !is_blank(sk[j]) by {}
}

/// The skeleton's second line is the `name` field, and no other line
/// declares that key: the rendered manifest names the package exactly once.
pub proof fn lemma_skeleton_name_field(name: Seq<char>)
    ensures
        skeleton_spec(name)[1] == field_line_spec(name_key(), name),
        crate::manifest::count_fields(skeleton_spec(name), name_key()) == 1,
{
    let sk = skeleton_spec(name);
    reveal_strlit("[package]");
    reveal_strlit("version = \"0.1.0\"");
    reveal_strlit("edition = \"2021\"");
    reveal_strlit(
        "# See more keys and their definitions at https://doc.rust-lang.org/cargo/reference/manifest.html",
    );
    reveal_strlit("[dependencies]");
    crate::manifest::lemma_field_line_is_field(name_key(), name);
    lemma_head_differs_not_field(sk[0], name_key());
    lemma_head_differs_not_field(sk[2], name_key());
    lemma_head_differs_not_field(sk[3], name_key());
    lemma_head_differs_not_field(sk[4], name_key());
    lemma_head_differs_not_field(sk[5], name_key());
    lemma_head_differs_not_field(sk[6], name_key());
    lemma_head_differs_not_field(sk[7], name_key());
    lemma_head_differs_not_field(sk[8], name_key());
    assert forall|j: int| 0 <= j < sk.len() && j != 1 implies !line_is_field(
        sk[j],
        name_key(),
    ) by {}
    crate::manifest::lemma_count_fields_single(sk, name_key(), 1);
}

/// Round trip through the manifest model: inserting `license = "MIT"` into
/// the rendered skeleton succeeds, leaves the metadata block and everything
/// from the comment through the dependency block unchanged, and places the
/// new field exactly between them, at the old insertion point.
pub proof fn lemma_skeleton_license_between_blocks(name: Seq<char>)
    ensures
        doc_insert_field(skeleton_spec(name), license_key(), mit_value()) matches Some(d)
            && d.len() == 10
            && d.subrange(0, 4) == skeleton_spec(name).subrange(0, 4)
            && d[4] == field_line_spec(license_key(), mit_value())
            && d.subrange(5, 10) == skeleton_spec(name).subrange(4, 9),
{
    let sk = skeleton_spec(name);
    lemma_skeleton_shape(name);
    lemma_exists_first_blank_index(sk);
    let b = choose|x: int| is_first_blank_index(sk, x);
    assert(b == 4);
    let d = sk.insert(4, field_line_spec(license_key(), mit_value()));
    assert(d.subrange(0, 4) =~= sk.subrange(0, 4));
    assert(d.subrange(5, 10) =~= sk.subrange(4, 9));
}

/// The README for a package called `name`: a single level-1 heading line.
pub open spec fn readme_spec(name: Seq<char>) -> Seq<char> {
    seq!['#', ' '] + name
}

/// Renders the README.
pub fn readme_text(name: &str) -> (r: String)
    requires
        name@.len() > 0,
    ensures
        r@ == readme_spec(name@),
{
    let mut s = String::from_str("# ");
    s.append(name);
    proof {
        reveal_strlit("# ");
        assert(s@ =~= readme_spec(name@));
    }
    s
}

/// Everything of the MIT license text after the copyright line's names.
pub open spec fn license_tail() -> Seq<char> {
    "\n\nPermission is hereby granted, free of charge, to any person obtaining a copy\nof this software and associated documentation files (the \"Software\"), to deal\nin the Software without restriction, including without limitation the rights\nto use, copy, modify, merge, publish, distribute, sublicense, and/or sell\ncopies of the Software, and to permit persons to whom the Software is\nfurnished to do so, subject to the following conditions:\n\nThe above copyright notice and this permission notice shall be included in all\ncopies or substantial portions of the Software.\n\nTHE SOFTWARE IS PROVIDED \"AS IS\", WITHOUT WARRANTY OF ANY KIND, EXPRESS OR\nIMPLIED, INCLUDING BUT NOT LIMITED TO THE WARRANTIES OF MERCHANTABILITY,\nFITNESS FOR A PARTICULAR PURPOSE AND NONINFRINGEMENT. IN NO EVENT SHALL THE\nAUTHORS OR COPYRIGHT HOLDERS BE LIABLE FOR ANY CLAIM, DAMAGES OR OTHER\nLIABILITY, WHETHER IN AN ACTION OF CONTRACT, TORT OR OTHERWISE, ARISING FROM,\nOUT OF OR IN CONNECTION WITH THE SOFTWARE OR THE USE OR OTHER DEALINGS IN THE\nSOFTWARE."@
}

/// The full MIT license text: the copyright line holds the year, then the
/// holders' names.
pub open spec fn mit_license_spec(names: Seq<char>, year: Seq<char>) -> Seq<char> {
    "Copyright (c) "@ + year + seq![' '] + names + license_tail()
}

/// Renders the MIT license text for the given holders and year.
pub fn mitlicense(names: &String, year: &String) -> (r: String)
    requires
        crate::year::year_wf(year@),
    ensures
        r@ == mit_license_spec(names@, year@),
{
    let mut s = String::from_str("Copyright (c) ");
    s.append(year.as_str());
    s.append(" ");
    s.append(names.as_str());
    s.append(
        "\n\nPermission is hereby granted, free of charge, to any person obtaining a copy\nof this software and associated documentation files (the \"Software\"), to deal\nin the Software without restriction, including without limitation the rights\nto use, copy, modify, merge, publish, distribute, sublicense, and/or sell\ncopies of the Software, and to permit persons to whom the Software is\nfurnished to do so, subject to the following conditions:\n\nThe above copyright notice and this permission notice shall be included in all\ncopies or substantial portions of the Software.\n\nTHE SOFTWARE IS PROVIDED \"AS IS\", WITHOUT WARRANTY OF ANY KIND, EXPRESS OR\nIMPLIED, INCLUDING BUT NOT LIMITED TO THE WARRANTIES OF MERCHANTABILITY,\nFITNESS FOR A PARTICULAR PURPOSE AND NONINFRINGEMENT. IN NO EVENT SHALL THE\nAUTHORS OR COPYRIGHT HOLDERS BE LIABLE FOR ANY CLAIM, DAMAGES OR OTHER\nLIABILITY, WHETHER IN AN ACTION OF CONTRACT, TORT OR OTHERWISE, ARISING FROM,\nOUT OF OR IN CONNECTION WITH THE SOFTWARE OR THE USE OR OTHER DEALINGS IN THE\nSOFTWARE.",
    );
    proof {
        reveal_strlit(" ");
        assert(" "@ =~= seq![' ']);
        assert(s@ =~= mit_license_spec(names@, year@));
    }
    s
}

} // verus!
