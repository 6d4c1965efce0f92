use streamduck::commands::{get_command_map, split_words, split_at_char, StreamduckHelper};

fn strings(v: &[&str]) -> Vec<String> {
    v.iter().map(|s| s.to_string()).collect()
}

#[test]
fn split_keeps_empty_words() {
    assert_eq!(split_words("a  b"), strings(&["a", "", "b"]));
    assert_eq!(split_words(""), strings(&[""]));
    assert_eq!(split_words("device "), strings(&["device", ""]));
    assert_eq!(split_at_char("1,2,3", ','), strings(&["1", "2", "3"]));
}

#[test]
fn command_map_knows_top_level_commands() {
    let map = get_command_map();
    assert!(map.contains_key("device"));
    assert!(map.contains_key("button"));
    assert!(!map.contains_key("list"));
    let device = map.get("device");
    assert!(device.contains_key("list"));
    assert!(device.contains_key("remove"));
    assert!(!device.contains_key("device"));
}

#[test]
fn keys_matching_are_sorted_and_unique() {
    let map = get_command_map();
    assert_eq!(map.keys_matching("b"), strings(&["back", "brightness", "button"]));
    let button = map.get("button");
    assert_eq!(button.keys_matching("c"), strings(&["component", "copy"]));
}

#[test]
fn hint_completes_the_last_word() {
    let helper = StreamduckHelper;
    assert_eq!(helper.hint("dev"), Some("ice".to_string()));
    assert_eq!(helper.hint("b"), Some("ack".to_string()));
    assert_eq!(helper.hint("device l"), Some("ist".to_string()));
    assert_eq!(helper.hint("button component params s"), Some("et".to_string()));
    assert_eq!(helper.hint("config reload a"), Some("ll".to_string()));
}

#[test]
fn hint_gives_nothing_without_an_unfinished_word() {
    let helper = StreamduckHelper;
    assert_eq!(helper.hint(""), None);
    assert_eq!(helper.hint("device "), None);
    assert_eq!(helper.hint("device list"), None);
    assert_eq!(helper.hint("xyz"), None);
    assert_eq!(helper.hint("xyz abc"), None);
    assert_eq!(helper.hint("device zz"), None);
}

#[test]
fn complete_offers_sorted_candidates() {
    let helper = StreamduckHelper;
    assert_eq!(helper.complete("de", 2), (0, strings(&["device"])));
    assert_eq!(helper.complete("device ", 7), (7, strings(&["add", "list", "remove"])));
    assert_eq!(
        helper.complete("button component params ", 24),
        (24, strings(&["add", "list", "remove", "set", "upload"]))
    );
    assert_eq!(helper.complete("image r", 7), (6, strings(&["remove"])));
}

#[test]
fn complete_on_empty_line_offers_every_command() {
    let helper = StreamduckHelper;
    let (pos, all) = helper.complete("", 0);
    assert_eq!(pos, 0);
    assert_eq!(
        all,
        strings(&[
            "back", "brightness", "button", "component", "config", "device", "exit", "font", "help", "image",
            "module", "press", "select", "stack"
        ])
    );
}

#[test]
fn complete_on_whole_command_keeps_position() {
    let helper = StreamduckHelper;
    assert_eq!(helper.complete("device list", 11), (11, Vec::<String>::new()));
    assert_eq!(helper.complete("xyz abc", 7), (0, Vec::<String>::new()));
}

#[test]
fn hint_is_rest_of_first_candidate() {
    let helper = StreamduckHelper;
    for line in ["b", "dev", "button c", "module p", "config s", "i"] {
        let hint = helper.hint(line).unwrap();
        let (_, candidates) = helper.complete(line, line.len());
        let last = line.split(' ').last().unwrap();
        assert_eq!(format!("{}{}", last, hint), candidates[0]);
    }
}
