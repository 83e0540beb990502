use fix_automation::network::ip_from_addr_output;

#[test]
fn first_global_address_without_prefix_length() {
    let out = "2: eth0: <BROADCAST,MULTICAST,UP> mtu 1500 qdisc fq_codel state UP group default qlen 1000\n    inet 192.168.1.5/24 brd 192.168.1.255 scope global dynamic eth0\n       valid_lft 86000sec preferred_lft 86000sec\n3: wlan0: <UP>\n    inet 10.0.0.7/8 scope global wlan0\n";
    assert_eq!(ip_from_addr_output(out), Some("192.168.1.5".to_string()));
}

#[test]
fn address_without_slash_is_kept_whole() {
    assert_eq!(ip_from_addr_output("inet 172.16.0.1 scope global\n"), Some("172.16.0.1".to_string()));
}

#[test]
fn no_inet_line_gives_none() {
    assert_eq!(ip_from_addr_output(""), None);
    assert_eq!(ip_from_addr_output("    inet6 fe80::1/64 scope link\n"), None);
    assert_eq!(ip_from_addr_output("1: lo: <LOOPBACK,UP>\n"), None);
}

#[test]
fn windows_line_endings_are_accepted() {
    assert_eq!(ip_from_addr_output("\tinet 10.1.2.3/16 scope global\r\n"), Some("10.1.2.3".to_string()));
}
