use rust_repl::image::RustProject;

#[test]
fn empty_image_renders_bare_entry_point() {
    let p = RustProject::new();
    assert_eq!(p.generate_rust(), "fn main() {\n}\n");
}

#[test]
fn render_lists_imports_then_statements() {
    let mut p = RustProject::new();
    p.add_crate("std::io", "default");
    p.add_crate("rand", "0.8.5");
    p.add_command("let x = 5;");
    p.add_command("println!(\"{}\", x);");
    assert_eq!(
        p.generate_rust(),
        "use std::io;\nuse rand;\nfn main() {\nlet x = 5;\nprintln!(\"{}\", x);\n}\n"
    );
}

#[test]
fn add_crate_overwrites_version_in_place() {
    let mut p = RustProject::new();
    p.add_crate("rand", "0.7.0");
    p.add_crate("serde", "1.0.0");
    p.add_crate("rand", "0.8.5");
    let imports = p.imports();
    assert_eq!(imports.len(), 2);
    assert_eq!(imports[0], ("rand".to_string(), "0.8.5".to_string()));
    assert_eq!(imports[1], ("serde".to_string(), "1.0.0".to_string()));
}

#[test]
fn add_command_appends_in_order() {
    let mut p = RustProject::new();
    p.add_command("let a = 1;");
    p.add_command("let b = 2;");
    p.add_command("let a = 1;");
    let commands = p.commands();
    assert_eq!(commands.len(), 3);
    assert_eq!(commands[0], "let a = 1;");
    assert_eq!(commands[1], "let b = 2;");
    assert_eq!(commands[2], "let a = 1;");
}

#[test]
fn merge_makes_full_snapshot_copy() {
    let mut a = RustProject::new();
    a.add_crate("std::io", "default");
    a.add_command("let a = 1;");
    let mut b = RustProject::new();
    b.add_command("let b = 2;");
    b.add_command("let c = 3;");
    b.merge(&a);
    assert_eq!(b.generate_rust(), a.generate_rust());
    assert_eq!(b.commands().len(), 1);
    assert_eq!(b.imports().len(), 1);
}

#[test]
fn merge_into_equal_image_is_noop() {
    let mut a = RustProject::new();
    a.add_crate("rand", "0.8.5");
    a.add_command("let a = 1;");
    let mut b = RustProject::new();
    b.add_crate("rand", "0.8.5");
    b.add_command("let a = 1;");
    let before = b.generate_rust();
    b.merge(&a);
    assert_eq!(b.generate_rust(), before);
    assert_eq!(b.imports(), a.imports());
    assert_eq!(b.commands(), a.commands());
}

#[test]
fn merge_round_trip_restores_content() {
    let mut a = RustProject::new();
    a.add_command("let a = 1;");
    let mut b = RustProject::new();
    b.add_command("let b = 2;");
    let a_render = a.generate_rust();
    b.merge(&a);
    a.merge(&b);
    assert_eq!(a.generate_rust(), a_render);
    assert_eq!(b.generate_rust(), a_render);
}
