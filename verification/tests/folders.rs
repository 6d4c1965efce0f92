use streamduck::folders::{folder_choice, folder_link_values, folder_press, folder_values, link_choices, link_id_from_choice, set_folder_values, used_folders, FolderAction, FolderComponent, FolderLinkComponent};
use streamduck::ui::{UIFieldType, UIFieldValue, UIValue};

fn s(v: &str) -> String {
    v.to_string()
}

fn folder(id: &str, children: &[&str]) -> (String, Vec<String>) {
    (s(id), children.iter().map(|c| s(c)).collect())
}

#[test]
fn used_folders_follow_folder_buttons_from_the_root() {
    let folders = vec![
        folder("a", &["b"]),
        folder("b", &["c", "ghost"]),
        folder("c", &[]),
        folder("orphan", &["a"]),
    ];
    let mut used = used_folders(&folders, &vec![s("a")]);
    used.sort();
    assert_eq!(used, vec![s("a"), s("b"), s("c"), s("ghost")]);
}

#[test]
fn roots_without_folders_are_not_used() {
    let folders = vec![folder("a", &[])];
    assert_eq!(used_folders(&folders, &vec![s("missing")]), Vec::<String>::new());
    assert_eq!(used_folders(&folders, &vec![]), Vec::<String>::new());
}

#[test]
fn cycles_between_folders_end() {
    let folders = vec![folder("a", &["b"]), folder("b", &["a"])];
    let mut used = used_folders(&folders, &vec![s("a"), s("a")]);
    used.sort();
    assert_eq!(used, vec![s("a"), s("b")]);
}

#[test]
fn choices_read_back_as_folder_ids() {
    assert_eq!(folder_choice("Games", "x1"), "Games (x1)");
    let folders = vec![(s("x1"), s("Games")), (s("y2"), s("Work"))];
    assert_eq!(link_choices(&folders), vec![s("Games (x1)"), s("Work (y2)")]);
    assert_eq!(link_id_from_choice(&folders, "Work (y2)"), Some(s("y2")));
    assert_eq!(link_id_from_choice(&folders, "Work (zz)"), None);
}

#[test]
fn bracket_in_display_name_reads_back_wrong_id() {
    let folders = vec![(s("id"), s("A (b)"))];
    assert_eq!(link_id_from_choice(&folders, "A (b) (id)"), Some(s("b")));
}

#[test]
fn folder_values_show_id_and_name() {
    let c = FolderComponent { id: s("x"), name: s("Folder") };
    let v = folder_values(&c);
    assert!(matches!(&v[0].value, UIFieldValue::Label(t) if t == "x"));
    assert!(matches!(&v[1].value, UIFieldValue::InputFieldString(t) if t == "Folder"));
}

#[test]
fn folder_name_changes_only_with_a_name_value() {
    let mut c = FolderComponent { id: s("x"), name: s("Folder") };
    let value = |name: &str, v: UIFieldValue| UIValue { name: s(name), display_name: s(""), description: s(""), ty: UIFieldType::Label, value: v };
    assert!(!set_folder_values(&mut c, vec![value("name", UIFieldValue::Checkbox(true))]));
    assert_eq!(c.name, "Folder");
    assert!(set_folder_values(&mut c, vec![value("name", UIFieldValue::InputFieldString(s("Games")))]));
    assert_eq!(c.name, "Games");
    assert_eq!(c.id, "x");
}

#[test]
fn link_values_choose_the_linked_folder() {
    let folders = vec![(s("x1"), s("Games")), (s("y2"), s("Work"))];
    let v = folder_link_values(&FolderLinkComponent { id: s("y2") }, &folders);
    assert!(matches!(&v[0].value, UIFieldValue::Choice(t) if t == "Work (y2)"));
    let v = folder_link_values(&FolderLinkComponent { id: s("nope") }, &folders);
    assert!(matches!(&v[0].value, UIFieldValue::Choice(t) if t.is_empty()));
}

#[test]
fn pressing_folder_buttons() {
    let folder = FolderComponent { id: "f1".to_string(), name: "Games".to_string() };
    let link = FolderLinkComponent { id: "f2".to_string() };
    assert!(matches!(folder_press(true, Some(&folder), None, 3), FolderAction::PopScreen));
    assert!(matches!(folder_press(true, None, None, 1), FolderAction::Nothing));
    match folder_press(false, Some(&folder), Some(&link), 1) {
        FolderAction::Open { folder_id, display_name } => {
            assert_eq!(folder_id, "f1");
            assert_eq!(display_name, Some("Games".to_string()));
        }
        _ => panic!("expected the folder to open"),
    }
    match folder_press(false, None, Some(&link), 1) {
        FolderAction::Open { folder_id, display_name } => {
            assert_eq!(folder_id, "f2");
            assert_eq!(display_name, None);
        }
        _ => panic!("expected the link to open"),
    }
    assert!(matches!(folder_press(false, None, None, 2), FolderAction::Nothing));
}
