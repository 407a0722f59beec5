use chrome_host::server::domain::hosts::{is_system_ip, is_valid_ip, is_valid_source_url, HostRules};

const SAMPLE: &str = r#"
# 整行注释
10.1.1.1  a.internal.com  b.internal.com   # 行内注释
10.1.1.2  a.internal.com               # 同名后者覆盖
# 被剔除的条目
127.0.0.1  danger.com
0.0.0.0    ads.com
localhost  mine.com
10.1.1.3  localhost
bad_ip     x.com
10.1.1.4  onlyip.local
"#;

#[test]
fn parse_extracts_dedupes_and_filters() {
    let rules = HostRules::parse(SAMPLE);
    assert_eq!(rules.len(), 3, "a/b 覆盖合并 + onlyip，共 3 条");
    let json = rules.to_snapshot_json();
    assert!(json.contains("a.internal.com"));
    assert!(json.contains("10.1.1.4"), "系统条目/坏 IP 行不入映射");
    assert!(!json.contains("danger.com"));
    assert!(!json.contains("ads.com"));
    assert!(!json.contains("mine.com"));
    assert!(!json.contains("x.com"));
}

#[test]
fn resolver_rules_format() {
    let rules = HostRules::parse("10.0.0.1 alpha.test\n10.0.0.2 beta.test\n");
    assert_eq!(rules.to_resolver_rules(), "MAP alpha.test 10.0.0.1, MAP beta.test 10.0.0.2");
}

#[test]
fn merge_remote_overrides_local() {
    let local = HostRules::parse("10.9.9.9 shared.com\n10.9.9.8 local-only.com\n");
    let remote = HostRules::parse("10.1.1.1 shared.com\n");
    let merged = HostRules::merge(&local, &remote);
    assert_eq!(merged.len(), 2);
    let json = merged.to_snapshot_json();
    assert!(json.contains("10.1.1.1"), "远程覆盖同名");
    assert!(json.contains("local-only.com"), "本地独有保留");
}

#[test]
fn ipv6_entries_pass_but_linklocal_and_loopback_filtered() {
    let rules = HostRules::parse("2400:cb00::1 v6.local\nfe80::1 link.local\n::1 loop.v6\n");
    assert!(rules.to_snapshot_json().contains("v6.local"), "全球单播 IPv6 放行");
    assert!(!rules.to_snapshot_json().contains("link.local"), "链路本地 fe80:: 剧除");
    assert!(!rules.to_snapshot_json().contains("loop.v6"), "回环 ::1 剧除");
}

#[test]
fn source_url_accepts_any_http_url() {
    assert!(is_valid_source_url("https://example.com/hosts.txt"));
    assert!(is_valid_source_url("https://example.com/hosts/qa.txt"));
    assert!(!is_valid_source_url("ftp://example.com/hosts"));
    assert!(!is_valid_source_url("not-a-url"));
}

#[test]
fn later_line_wins_and_hosts_are_lowercased() {
    let rules = HostRules::parse("10.0.0.1 Foo.TEST\n10.0.0.2 foo.test\n");
    assert_eq!(rules.len(), 1);
    assert_eq!(rules.to_resolver_rules(), "MAP foo.test 10.0.0.2");
}

#[test]
fn resolver_rules_are_sorted_by_host() {
    let rules = HostRules::parse("10.0.0.2 zeta.test\n10.0.0.1 alpha.test\n");
    assert_eq!(rules.to_resolver_rules(), "MAP alpha.test 10.0.0.1, MAP zeta.test 10.0.0.2");
    assert_eq!(HostRules::new().to_resolver_rules(), "");
    assert!(HostRules::new().is_empty());
}

#[test]
fn snapshot_json_is_a_host_to_ip_object() {
    let rules = HostRules::parse("10.0.0.1 alpha.test\n");
    let v: serde_json::Value = serde_json::from_str(&rules.to_snapshot_json()).unwrap();
    assert_eq!(v["alpha.test"], "10.0.0.1");
    assert_eq!(HostRules::new().to_snapshot_json(), "{}");
}

#[test]
fn ip_validity_and_system_addresses() {
    assert!(is_valid_ip("10.0.0.1"));
    assert!(is_valid_ip("2400:cb00::1"));
    assert!(!is_valid_ip("10.0.0"));
    assert!(!is_valid_ip("10.0.0.1.5"));
    assert!(!is_valid_ip("bad_ip"));
    assert!(is_system_ip("127.0.0.1"));
    assert!(is_system_ip("0.0.0.0"));
    assert!(is_system_ip("255.255.255.255"));
    assert!(is_system_ip("fe80::1"));
    assert!(is_system_ip("::1"));
    assert!(!is_system_ip("10.0.0.1"));
}

#[test]
fn merge_of_empty_sides() {
    let remote = HostRules::parse("10.1.1.1 a.com\n");
    let merged = HostRules::merge(&HostRules::new(), &remote);
    assert_eq!(merged.to_resolver_rules(), "MAP a.com 10.1.1.1");
    let merged = HostRules::merge(&remote, &HostRules::new());
    assert_eq!(merged.to_resolver_rules(), "MAP a.com 10.1.1.1");
}

#[test]
fn parsing_joined_texts_equals_merging_their_parses() {
    let a = "10.0.0.1 a.com b.com\n10.0.0.9 c.com";
    let b = "10.0.0.2 a.com\n# note\n10.0.0.3 d.com";
    let joined = HostRules::parse(&format!("{a}\n{b}"));
    let merged = HostRules::merge(&HostRules::parse(a), &HostRules::parse(b));
    assert_eq!(joined.to_resolver_rules(), merged.to_resolver_rules());
    assert_eq!(joined.len(), 4);
}
