use streamduck::keys::{key_variants, to_key, to_key_variant, KeyCode};

#[test]
fn key_variants_lists_names_in_order() {
    let keys = key_variants();
    assert_eq!(keys.len(), 32);
    assert_eq!(keys[0], "Alt");
    assert_eq!(keys[7], "Escape");
    assert_eq!(keys[31], "Char");
}

#[test]
fn names_read_as_keys() {
    assert_eq!(to_key("F5".to_string(), ' '), Some(KeyCode::F5));
    assert_eq!(to_key("Page Down".to_string(), ' '), Some(KeyCode::PageDown));
    assert_eq!(to_key("Char".to_string(), 'x'), Some(KeyCode::Layout('x')));
    assert_eq!(to_key("nothing".to_string(), 'x'), None);
    assert_eq!(to_key("".to_string(), 'x'), None);
}

#[test]
fn escape_reads_as_end() {
    assert_eq!(to_key("Escape".to_string(), ' '), Some(KeyCode::End));
    assert_eq!(to_key_variant(KeyCode::Escape), ("Escape".to_string(), None));
}

#[test]
fn keys_have_names() {
    assert_eq!(to_key_variant(KeyCode::CapsLock), ("Caps Lock".to_string(), None));
    assert_eq!(to_key_variant(KeyCode::Layout('q')), ("Char".to_string(), Some('q')));
    assert_eq!(to_key_variant(KeyCode::Other), ("".to_string(), None));
}

#[test]
fn every_name_but_escape_reads_back() {
    for name in key_variants() {
        if name == "Escape" {
            continue;
        }
        let key = to_key(name.clone(), 'z').unwrap();
        assert_eq!(to_key_variant(key).0, name);
    }
}
