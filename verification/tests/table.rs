use streamduck::table::print_table_with_strings;

fn col(v: &[&str]) -> Vec<String> {
    v.iter().map(|s| s.to_string()).collect()
}

#[test]
fn table_pads_columns_to_widest_entry() {
    let table = vec![col(&["Name", "a", "longer"]), col(&["N", "12", "3"])];
    let text = print_table_with_strings(table, "-", "|");
    assert_eq!(text, "- Name   - N  -\n|      a | 12 |\n| longer |  3 |\n");
}

#[test]
fn empty_table_prints_nothing() {
    assert_eq!(print_table_with_strings(vec![], "-", "|"), "");
    assert_eq!(print_table_with_strings(vec![col(&[])], "-", "|"), "");
}
