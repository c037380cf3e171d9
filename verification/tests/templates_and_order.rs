use benchscale::backend::libvirt::templates::{
    no_template_dir_error, template_name_from_file, TemplateRegistry,
};
use benchscale::order::{insert_sorted, str_less};

#[test]
fn template_names_come_from_qcow2_files() {
    assert_eq!(template_name_from_file("ubuntu-22.04.qcow2"), Some("ubuntu-22.04".to_string()));
    assert_eq!(template_name_from_file("a.b.qcow2"), Some("a.b".to_string()));
    assert_eq!(template_name_from_file("notes.txt"), None);
    assert_eq!(template_name_from_file(".qcow2"), None);
    assert_eq!(template_name_from_file("plain"), None);
}

#[test]
fn registry_lists_sorted_and_replaces() {
    let mut reg = TemplateRegistry::new();
    reg.register_template("zeta".to_string(), "/t/zeta.qcow2".to_string());
    reg.register_template("alpha".to_string(), "/t/alpha.qcow2".to_string());
    reg.register_template("mid".to_string(), "/t/mid.qcow2".to_string());
    reg.register_template("alpha".to_string(), "/other/alpha.qcow2".to_string());
    assert_eq!(reg.list_templates(), vec!["alpha", "mid", "zeta"]);
    assert_eq!(reg.get_template_path("alpha").unwrap(), "/other/alpha.qcow2");
}

#[test]
fn unknown_template_lists_available() {
    let mut reg = TemplateRegistry::new();
    reg.register_template("b".to_string(), "/b.qcow2".to_string());
    reg.register_template("a".to_string(), "/a.qcow2".to_string());
    let e = reg.get_template_path("c").unwrap_err();
    assert_eq!(
        e.to_string(),
        "Template 'c' not registered. Available templates: [\"a\", \"b\"]"
    );
}

#[test]
fn discovery_registers_qcow2_files_only() {
    let mut reg = TemplateRegistry::new();
    let files = vec![
        "desk.qcow2".to_string(),
        "README".to_string(),
        "srv.qcow2".to_string(),
        "desk.qcow2".to_string(),
    ];
    let count = reg.discover_templates("/var/lib/templates", &files);
    assert_eq!(count, 3);
    assert_eq!(reg.list_templates(), vec!["desk", "srv"]);
    assert_eq!(reg.get_template_path("srv").unwrap(), "/var/lib/templates/srv.qcow2");
    assert!(no_template_dir_error().to_string().starts_with("No template directory configured"));
}

#[test]
fn string_order_matches_std() {
    let words = ["", "a", "ab", "b", "B", "äx", "a\u{10000}", "abc"];
    for x in words.iter() {
        for y in words.iter() {
            assert_eq!(str_less(x, y), x < y, "{:?} < {:?}", x, y);
        }
    }
}

#[test]
fn sorted_insertion() {
    let mut v: Vec<String> = Vec::new();
    for w in ["pear", "apple", "zucchini", "fig"] {
        insert_sorted(&mut v, w.to_string());
    }
    assert_eq!(v, vec!["apple", "fig", "pear", "zucchini"]);
}
