use chrono::Datelike;
use pkgscaffold::args::Args;
use pkgscaffold::errors::GenError;
use pkgscaffold::generator::PackageGen;
use pkgscaffold::pathname::final_component;
use pkgscaffold::templates::{gitignore_text, helloworld_rs, mitlicense};
use pkgscaffold::year::four_digit_year;

#[test]
fn final_component_takes_last_segment() {
    assert_eq!(final_component("/tmp/demo/myapp"), Some("myapp".to_string()));
    assert_eq!(final_component("myapp"), Some("myapp".to_string()));
    assert_eq!(final_component("demo/myapp///"), Some("myapp".to_string()));
}

#[test]
fn final_component_rejects_unusable_paths() {
    assert_eq!(final_component(""), None);
    assert_eq!(final_component("/"), None);
    assert_eq!(final_component("///"), None);
    assert_eq!(final_component("."), None);
    assert_eq!(final_component("/tmp/demo/.."), None);
    assert_eq!(final_component("a/."), None);
}

#[test]
fn helloworld_stub_is_the_fixed_program() {
    assert_eq!(
        helloworld_rs(),
        "fn main() {\n    println!(\"Hello, world!\");\n}"
    );
}

#[test]
fn gitignore_lists_build_output() {
    assert_eq!(gitignore_text(), "/target\n");
}

#[test]
fn mitlicense_copyright_line_holds_year_and_names() {
    let text = mitlicense(&"Jane Doe".to_string(), &"2026".to_string());
    let first_line = text.lines().next().unwrap();
    assert_eq!(first_line, "Copyright (c) 2026 Jane Doe");
    assert!(text.contains("Permission is hereby granted"));
    assert!(text.ends_with("SOFTWARE."));
}

#[test]
fn four_digit_year_pads_with_zeros() {
    assert_eq!(four_digit_year(2026), "2026");
    assert_eq!(four_digit_year(7), "0007");
    assert_eq!(four_digit_year(0), "0000");
    assert_eq!(four_digit_year(9999), "9999");
}

#[test]
fn scaffold_plan_lists_the_default_layout() {
    let g = PackageGen::new(
        "/tmp/demo/myapp",
        "Jane Doe".to_string(),
        "2026".to_string(),
    );
    let plan = g.scaffold_plan(false, false).unwrap();
    assert_eq!(plan.len(), 3);
    assert_eq!(plan[0].rel_path, "src/main.rs");
    assert_eq!(plan[0].contents, helloworld_rs());
    assert_eq!(plan[1].rel_path, "Cargo.toml");
    assert!(plan[1].contents.contains("name = \"myapp\""));
    assert_eq!(
        plan[1].contents,
        "[package]\nname = \"myapp\"\nversion = \"0.1.0\"\nedition = \"2021\"\n\n# See more keys and their definitions at https://doc.rust-lang.org/cargo/reference/manifest.html\n\n[dependencies]\n"
    );
    assert_eq!(plan[2].rel_path, ".gitignore");
    assert_eq!(plan[2].contents, "/target\n");
}

#[test]
fn scaffold_refuses_nonempty_target() {
    let g = PackageGen::new(
        "/tmp/demo/myapp",
        "Jane Doe".to_string(),
        "2026".to_string(),
    );
    let r = g.scaffold_plan(true, false);
    match r {
        Err(GenError::TargetNotEmpty(p)) => {
            assert_eq!(p, "/tmp/demo/myapp");
            assert_eq!(
                GenError::TargetNotEmpty(p).message(),
                "/tmp/demo/myapp is not empty"
            );
        }
        _ => panic!("expected TargetNotEmpty"),
    }
}

#[test]
fn scaffold_accepts_missing_or_empty_target() {
    let g = PackageGen::new("myapp", "Jane Doe".to_string(), "2026".to_string());
    assert!(g.scaffold_plan(false, false).is_ok());
    assert!(g.scaffold_plan(true, true).is_ok());
}

#[test]
fn full_run_creates_all_files_with_expected_contents() {
    let mut g = PackageGen::new(
        "/tmp/demo/myapp",
        "Jane Doe".to_string(),
        "2026".to_string(),
    );
    let mut files: Vec<(String, String)> = Vec::new();
    for f in g.scaffold_plan(false, false).unwrap() {
        files.push((f.rel_path, f.contents));
    }
    for f in g.add_readme().unwrap() {
        files.push((f.rel_path, f.contents));
    }
    for f in g.add_license().unwrap() {
        files.push((f.rel_path, f.contents));
    }
    let readme = files.iter().rev().find(|(p, _)| p == "README.md").unwrap();
    assert_eq!(readme.1, "# myapp");
    let license = files.iter().rev().find(|(p, _)| p == "LICENSE").unwrap();
    assert!(license.1.starts_with("Copyright (c) 2026 Jane Doe"));
    let manifest = files.iter().rev().find(|(p, _)| p == "Cargo.toml").unwrap();
    assert!(manifest.1.contains("name = \"myapp\""));
    assert!(manifest.1.contains("readme = \"README.md\""));
    assert!(manifest.1.contains("license = \"MIT\""));
    assert_eq!(g.success_message(), "Created /tmp/demo/myapp");
}

#[test]
fn license_year_tracks_generator_construction() {
    let before = chrono::Utc::now().year();
    let mut g = PackageGen::new_now("/tmp/demo/myapp", "Jane Doe".to_string());
    let after = chrono::Utc::now().year();
    let plan = g.add_license().unwrap();
    let license = &plan[0];
    assert_eq!(license.rel_path, "LICENSE");
    let line = license.contents.lines().next().unwrap();
    let with_before = format!("Copyright (c) {:04} Jane Doe", before);
    let with_after = format!("Copyright (c) {:04} Jane Doe", after);
    assert!(line == with_before || line == with_after);
}

#[test]
fn adding_twice_keeps_one_field_each() {
    let mut g = PackageGen::new("myapp", "Jane Doe".to_string(), "2026".to_string());
    g.add_readme().unwrap();
    g.add_readme().unwrap();
    g.add_license().unwrap();
    let plan = g.add_license().unwrap();
    let manifest = &plan[1].contents;
    assert_eq!(manifest.matches("license = \"MIT\"").count(), 1);
    assert_eq!(manifest.matches("readme = \"README.md\"").count(), 1);
}

#[test]
fn args_decide_readme_and_license() {
    let args = Args {
        path: "myapp".to_string(),
        verbose: 0,
        readme: true,
        names: "Jane Doe".to_string(),
    };
    assert!(args.wants_readme());
    assert!(args.wants_license());
    let defaulted = Args {
        path: "myapp".to_string(),
        verbose: 0,
        readme: false,
        names: "<copyright holders>".to_string(),
    };
    assert!(!defaulted.wants_readme());
    assert!(!defaulted.wants_license());
    let empty = Args {
        path: "myapp".to_string(),
        verbose: 0,
        readme: false,
        names: String::new(),
    };
    assert!(!empty.wants_license());
}
