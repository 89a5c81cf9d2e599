use init_tools::route::field_separator;
use init_tools::route::interface_routed;

const TABLE: &str = "Iface\tDestination\tGateway \tFlags\tRefCnt\tUse\tMetric\tMask\t\tMTU\tWindow\tIRTT\neth0\t00000000\t0102A8C0\t0003\t0\t0\t100\t00000000\t0\t0\t0\neth10\t0002A8C0\t00000000\t0001\t0\t0\t100\t00FFFFFF\t0\t0\t0\n";

#[test]
fn longer_interface_name_is_not_a_match() {
    assert!(!interface_routed("eth10\t00000000\t0102A8C0\n", "eth1"));
}

#[test]
fn interface_followed_by_tab_is_routed() {
    assert!(interface_routed("eth1\t00000000\t0102A8C0\n", "eth1"));
}

#[test]
fn interface_followed_by_space_is_routed() {
    assert!(interface_routed("eth1 00000000 0102A8C0", "eth1"));
}

#[test]
fn interface_is_found_on_any_line() {
    assert!(interface_routed(TABLE, "eth0"));
    assert!(interface_routed(TABLE, "eth10"));
    assert!(interface_routed(TABLE, "Iface"));
    assert!(!interface_routed(TABLE, "eth1"));
    assert!(!interface_routed(TABLE, "eth"));
    assert!(!interface_routed(TABLE, "wlan0"));
}

#[test]
fn interface_must_stand_at_the_start_of_a_line() {
    assert!(!interface_routed("x eth1\t0\n", "eth1"));
    assert!(!interface_routed(" eth1\t0\n", "eth1"));
    assert!(!interface_routed(TABLE, "00000000"));
}

#[test]
fn interface_needs_a_separator_behind_it() {
    assert!(!interface_routed("eth1", "eth1"));
    assert!(!interface_routed("eth1\n", "eth1"));
    assert!(!interface_routed("eth1\r\n", "eth1"));
    assert!(!interface_routed("eth1:0\t0\n", "eth1"));
    assert!(interface_routed("eth1\t\r\n", "eth1"));
}

#[test]
fn empty_table_routes_nothing() {
    assert!(!interface_routed("", "eth1"));
    assert!(!interface_routed("", ""));
}

#[test]
fn empty_name_matches_a_line_that_starts_with_a_separator() {
    assert!(interface_routed("\teth1\n", ""));
    assert!(interface_routed("eth0\t0\n 1\n", ""));
    assert!(!interface_routed("eth1\t0\n", ""));
}

#[test]
fn name_with_a_newline_is_never_routed() {
    assert!(!interface_routed("a\nb\tc\n", "a\nb"));
    assert!(!interface_routed("eth1\n\t0\n", "eth1\n"));
}

#[test]
fn interface_routed_agrees_with_a_search_line_by_line() {
    let tables = [
        "", "eth1", "eth1\t", "eth1 x\neth2\ty\n", "\n\neth1\t\n", "a\r\nb \r\n", "a\rb\tc\n",
        "eth10 x\neth1x y\n eth1 z\n", "eth1\u{a0}x\n",
    ];
    let names = ["", "eth1", "eth10", "a", "b", "a\rb", "eth", "eth1\u{a0}x", "a\r"];
    for table in tables {
        for name in names {
            let expected = table.lines().any(|line| {
                line.starts_with(name)
                    && line[name.len()..].starts_with(|c| c == '\t' || c == ' ')
            });
            assert_eq!(interface_routed(table, name), expected, "{:?} in {:?}", name, table);
        }
    }
}

#[test]
fn field_separator_is_space_or_tab() {
    assert!(field_separator(' '));
    assert!(field_separator('\t'));
    assert!(!field_separator('\n'));
    assert!(!field_separator('\r'));
    assert!(!field_separator('0'));
    assert!(!field_separator('\u{a0}'));
}
