use archbelt::artifact::XcFileMeta;
use archbelt::blueprint::{Blueprint, Component, ComponentData, Hdd, RootData, XcFile};

fn file(name: &str, code: &str) -> XcFile {
    XcFile { name: name.to_string(), plain_code: code.to_string() }
}

fn drive(files: Vec<XcFile>) -> Hdd {
    Hdd { capacity: 1024, label: "disk".to_string(), xc_files: files }
}

fn component(
    module: &str,
    alias: Option<&str>,
    hdd: Option<Hdd>,
    children: Option<Vec<Component>>,
) -> Component {
    Component {
        alias: alias.map(|a| a.to_string()),
        module: module.to_string(),
        data: ComponentData { hdd, components: children },
    }
}

fn blueprint(components: Vec<Component>) -> Blueprint {
    Blueprint { author: "ada".to_string(), data: RootData { components }, version: 3 }
}

#[test]
fn name_without_alias_is_the_module() {
    let c = component("Computer", None, None, None);
    assert_eq!(c.name(), "Computer");
}

#[test]
fn name_with_empty_alias_is_the_module() {
    let c = component("Computer", Some(""), None, None);
    assert_eq!(c.name(), "Computer");
}

#[test]
fn name_with_alias_is_the_alias() {
    let c = component("Computer", Some("Foo"), None, None);
    assert_eq!(c.name(), "Foo");
}

#[test]
fn name_with_blank_alias_is_the_alias() {
    let c = component("Computer", Some(" "), None, None);
    assert_eq!(c.name(), " ");
}

#[test]
fn has_hdd_tells_a_device() {
    let with = ComponentData { hdd: Some(drive(vec![])), components: None };
    let without = ComponentData { hdd: None, components: Some(vec![]) };
    assert!(with.has_hdd());
    assert!(!without.has_hdd());
}

#[test]
fn has_data_storage_looks_at_the_component_itself() {
    let inner = component("inner", None, Some(drive(vec![file("a.xc", "a")])), None);
    let outer = component("outer", None, None, Some(vec![inner]));
    assert!(!outer.has_data_storage());
    let own = component("own", None, Some(drive(vec![])), None);
    assert!(own.has_data_storage());
}

#[test]
fn hdd_xc_files_copies_in_order() {
    let hdd = drive(vec![file("a.xc", "one"), file("b.xc", "two"), file("a.xc", "three")]);
    let files = hdd.xc_files();
    assert_eq!(files.len(), 3);
    assert_eq!(files[0].name, "a.xc");
    assert_eq!(files[0].plain_code, "one");
    assert_eq!(files[1].name, "b.xc");
    assert_eq!(files[1].plain_code, "two");
    assert_eq!(files[2].name, "a.xc");
    assert_eq!(files[2].plain_code, "three");
    assert_eq!(hdd.xc_files.len(), 3);
}

#[test]
fn component_xc_files_tags_with_display_name() {
    let c = component(
        "Computer",
        Some("Brain"),
        Some(drive(vec![file("main.xc", "print 1"), file("lib.xc", "x")])),
        None,
    );
    let files = c.xc_files();
    assert_eq!(files.len(), 2);
    assert_eq!(files[0].component(), "Brain");
    assert_eq!(files[0].component_path(), "Brain");
    assert_eq!(files[0].file_name(), "main.xc");
    assert_eq!(files[0].file_content(), "print 1");
    assert_eq!(files[1].component(), "Brain");
    assert_eq!(files[1].file_name(), "lib.xc");
    assert_eq!(files[1].file_content(), "x");
}

#[test]
fn component_xc_files_without_device_is_empty() {
    let inner = component("inner", None, Some(drive(vec![file("a.xc", "a")])), None);
    let outer = component("outer", None, None, Some(vec![inner]));
    assert!(outer.xc_files().is_empty());
}

#[test]
fn component_xc_files_with_empty_device_is_empty() {
    let c = component("c", None, Some(drive(vec![])), None);
    assert!(c.xc_files().is_empty());
}

#[test]
fn meta_new_pairs_component_and_file() {
    let m = XcFileMeta::new("core".to_string(), file("main.xc", "print 1"));
    assert_eq!(m.component(), "core");
    assert_eq!(m.component_path(), "core");
    assert_eq!(m.file_name(), "main.xc");
    assert_eq!(m.file_content(), "print 1");
}

#[test]
fn meta_nested_keeps_name_and_path_apart() {
    let m = XcFileMeta::nested(
        "nested".to_string(),
        "Booster/nested".to_string(),
        file("n.xc", "x"),
    );
    assert_eq!(m.component(), "nested");
    assert_eq!(m.component_path(), "Booster/nested");
    assert_eq!(m.file_name(), "n.xc");
    assert_eq!(m.file_content(), "x");
}

#[test]
fn output_path_collated_is_below_the_component() {
    let m = XcFileMeta::nested(
        "nested".to_string(),
        "Booster/nested".to_string(),
        file("n.xc", "x"),
    );
    assert_eq!(m.output_path(true), "Booster/nested/n.xc");
}

#[test]
fn output_path_flat_is_the_file_name() {
    let m = XcFileMeta::nested(
        "nested".to_string(),
        "Booster/nested".to_string(),
        file("n.xc", "x"),
    );
    assert_eq!(m.output_path(false), "n.xc");
}

#[test]
fn output_path_of_top_level_component() {
    let m = XcFileMeta::new("core".to_string(), file("main.xc", "print 1"));
    assert_eq!(m.output_path(true), "core/main.xc");
    assert_eq!(m.output_path(false), "main.xc");
}

#[test]
fn output_path_with_empty_parts() {
    let m = XcFileMeta::new(String::new(), file("", ""));
    assert_eq!(m.output_path(true), "/");
    assert_eq!(m.output_path(false), "");
}

#[test]
fn meta_clone_keeps_everything() {
    let m = XcFileMeta::nested("n".to_string(), "p/n".to_string(), file("f.xc", "code"));
    let c = m.clone();
    assert_eq!(c.component(), "n");
    assert_eq!(c.component_path(), "p/n");
    assert_eq!(c.file_name(), "f.xc");
    assert_eq!(c.file_content(), "code");
}

#[test]
fn component_clone_is_deep() {
    let leaf = component("leaf", Some("L"), Some(drive(vec![file("l.xc", "leaf code")])), None);
    let mid = component("mid", None, None, Some(vec![leaf]));
    let top = component("top", Some("T"), Some(drive(vec![file("t.xc", "top code")])), Some(vec![mid]));
    let copy = top.clone();
    assert_eq!(copy.name(), "T");
    assert_eq!(copy.alias.as_deref(), Some("T"));
    assert_eq!(copy.module, "top");
    let hdd = copy.data.hdd.as_ref().unwrap();
    assert_eq!(hdd.capacity, 1024);
    assert_eq!(hdd.label, "disk");
    assert_eq!(hdd.xc_files[0].name, "t.xc");
    let mid_copy = &copy.data.components.as_ref().unwrap()[0];
    assert_eq!(mid_copy.name(), "mid");
    assert!(mid_copy.data.hdd.is_none());
    let leaf_copy = &mid_copy.data.components.as_ref().unwrap()[0];
    assert_eq!(leaf_copy.name(), "L");
    assert_eq!(leaf_copy.module, "leaf");
    assert_eq!(leaf_copy.data.hdd.as_ref().unwrap().xc_files[0].plain_code, "leaf code");
    assert!(leaf_copy.data.components.is_none());
}

#[test]
fn components_with_hdd_lists_devices_of_every_depth_in_traversal_order() {
    let nested = component("nested", None, Some(drive(vec![file("n.xc", "x")])), None);
    let bp = blueprint(vec![
        component("a", None, Some(drive(vec![file("a.xc", "a")])), None),
        component("b", None, None, Some(vec![nested])),
        component("c", Some("See"), Some(drive(vec![])), None),
    ]);
    let with = bp.components_with_hdd();
    assert_eq!(with.len(), 3);
    assert_eq!(with[0].name(), "a");
    assert_eq!(with[0].data.hdd.as_ref().unwrap().xc_files[0].name, "a.xc");
    assert_eq!(with[1].name(), "nested");
    assert_eq!(with[1].data.hdd.as_ref().unwrap().xc_files[0].name, "n.xc");
    assert_eq!(with[2].name(), "See");
}

#[test]
fn components_with_hdd_finds_a_device_below_a_bare_component() {
    let deep = component("deep", None, Some(drive(vec![file("d.xc", "d")])), None);
    let mid = component("mid", None, None, Some(vec![deep]));
    let top = component("top", None, None, Some(vec![mid]));
    let with = blueprint(vec![top]).components_with_hdd();
    assert_eq!(with.len(), 1);
    assert_eq!(with[0].module, "deep");
}

#[test]
fn components_with_hdd_lists_a_parent_before_its_children() {
    let inner = component("inner", Some("In"), Some(drive(vec![file("i.xc", "i")])), None);
    let outer = component("outer", Some(""), Some(drive(vec![file("o.xc", "o")])), Some(vec![inner]));
    let later = component("later", None, Some(drive(vec![])), Some(vec![]));
    let with = blueprint(vec![outer, later]).components_with_hdd();
    assert_eq!(with.len(), 3);
    assert_eq!(with[0].module, "outer");
    assert_eq!(with[0].alias.as_deref(), Some(""));
    assert_eq!(with[0].data.components.as_ref().unwrap().len(), 1);
    assert_eq!(with[0].data.components.as_ref().unwrap()[0].module, "inner");
    assert_eq!(with[1].module, "inner");
    assert_eq!(with[1].alias.as_deref(), Some("In"));
    assert!(with[1].data.components.is_none());
    assert_eq!(with[2].module, "later");
    assert!(with[2].alias.is_none());
    assert_eq!(with[2].data.components.as_ref().unwrap().len(), 0);
}

#[test]
fn components_with_hdd_keeps_each_component_as_it_is() {
    let mut hdd = drive(vec![file("a.xc", "code")]);
    hdd.capacity = 77;
    hdd.label = "boot".to_string();
    let bp = blueprint(vec![
        component("skip", Some("none"), None, None),
        component("Computer", Some("Brain"), Some(hdd), None),
    ]);
    let with = bp.components_with_hdd();
    assert_eq!(with.len(), 1);
    assert_eq!(with[0].alias.as_deref(), Some("Brain"));
    assert_eq!(with[0].module, "Computer");
    let kept = with[0].data.hdd.as_ref().unwrap();
    assert_eq!(kept.capacity, 77);
    assert_eq!(kept.label, "boot");
    assert_eq!(kept.xc_files.len(), 1);
    assert_eq!(kept.xc_files[0].name, "a.xc");
    assert_eq!(kept.xc_files[0].plain_code, "code");
    assert_eq!(bp.data.components.len(), 2);
}

#[test]
fn components_with_hdd_of_empty_blueprint() {
    assert!(blueprint(vec![]).components_with_hdd().is_empty());
}

#[test]
fn artifacts_reach_every_depth_in_traversal_order() {
    let deepest = component(
        "d3",
        Some("Deep"),
        Some(drive(vec![file("z.xc", "zz"), file("y.xc", "yy")])),
        None,
    );
    let d2 = component("d2", None, None, Some(vec![deepest]));
    let d1 = component("d1", Some("One"), Some(drive(vec![file("one.xc", "1")])), Some(vec![d2]));
    let sibling = component("s", None, Some(drive(vec![file("s.xc", "s")])), None);
    let bp = blueprint(vec![d1, sibling]);
    let found = bp.artifacts();
    assert_eq!(found.len(), 4);
    let got: Vec<(String, String, String, String)> = found
        .iter()
        .map(|m| {
            (
                m.component().to_string(),
                m.component_path().to_string(),
                m.file_name().to_string(),
                m.file_content().to_string(),
            )
        })
        .collect();
    let want = vec![
        ("One", "One", "one.xc", "1"),
        ("Deep", "One/d2/Deep", "z.xc", "zz"),
        ("Deep", "One/d2/Deep", "y.xc", "yy"),
        ("s", "s", "s.xc", "s"),
    ];
    for (g, w) in got.iter().zip(want.iter()) {
        assert_eq!(g.0, w.0);
        assert_eq!(g.1, w.1);
        assert_eq!(g.2, w.2);
        assert_eq!(g.3, w.3);
    }
}

#[test]
fn artifacts_count_every_file_of_a_wide_and_deep_tree() {
    let mut level = component("leaf", None, Some(drive(vec![file("f.xc", "0")])), None);
    for depth in 1..40 {
        let here = drive(vec![file("f.xc", "a"), file("g.xc", "b")]);
        let name = format!("n{}", depth);
        level = component(&name, None, Some(here), Some(vec![level]));
    }
    let bp = blueprint(vec![level.clone(), component("gap", None, None, Some(vec![])), level]);
    assert_eq!(bp.artifacts().len(), 2 * (1 + 39 * 2));
}

#[test]
fn artifacts_of_empty_blueprint() {
    assert!(blueprint(vec![]).artifacts().is_empty());
}

#[test]
fn artifacts_under_a_parent_with_an_empty_name() {
    let child = component("child", None, Some(drive(vec![file("c.xc", "c")])), None);
    let parent = component("", Some(""), None, Some(vec![child]));
    let found = blueprint(vec![parent]).artifacts();
    assert_eq!(found.len(), 1);
    assert_eq!(found[0].component(), "child");
    assert_eq!(found[0].component_path(), "/child");
}
