use jls::driver::{error_line, exit_code, process, Config};
use jls::listing::{first_failure, handle_dir_entry, is_hidden, list, EntryRecord, OsError};
use jls::output::format_listing;

fn entries(names: &[&[u8]]) -> Vec<Result<Vec<u8>, OsError>> {
    names.iter().map(|n| Ok(n.to_vec())).collect()
}

fn not_found() -> OsError {
    OsError { code: Some(2), message: "No such file or directory (os error 2)".to_string() }
}

fn names_of(records: &[EntryRecord]) -> Vec<String> {
    records.iter().map(|r| r.filename.clone()).collect()
}

fn expected_value(names: &[&str]) -> serde_json::Value {
    let items = names
        .iter()
        .map(|n| {
            let mut m = serde_json::Map::new();
            m.insert("filename".to_string(), serde_json::Value::String(n.to_string()));
            serde_json::Value::Object(m)
        })
        .collect();
    serde_json::Value::Array(items)
}

#[test]
fn scenario_three_entries_compact() {
    let cfg = Config::new(Some("/tmp/t".to_string()), false, false);
    let out = process(&cfg, entries(&[b"a.txt", b".hidden", b"b.log"])).ok().unwrap();
    assert_eq!(out, r#"[{"filename":"a.txt"},{"filename":"b.log"}]"#);
}

#[test]
fn scenario_three_entries_almost_all() {
    let cfg = Config::new(Some("/tmp/t".to_string()), false, true);
    let out = process(&cfg, entries(&[b"a.txt", b".hidden", b"b.log"])).ok().unwrap();
    assert_eq!(out, r#"[{"filename":"a.txt"},{"filename":".hidden"},{"filename":"b.log"}]"#);
}

#[test]
fn directory_defaults_to_current() {
    let cfg = Config::new(None, false, false);
    assert_eq!(cfg.directory, "./");
    assert!(!cfg.pretty_print);
    assert!(!cfg.almost_all);
    let given = Config::new(Some("/var".to_string()), true, true);
    assert_eq!(given.directory, "/var");
    assert!(given.pretty_print && given.almost_all);
}

#[test]
fn missing_directory_reports_error() {
    let e = not_found();
    assert_eq!(error_line(&e), "jls: No such file or directory (os error 2)");
    assert_eq!(exit_code(&e), 2);
    let no_code = OsError { code: None, message: "odd".to_string() };
    assert_eq!(exit_code(&no_code), 1);
    assert_eq!(error_line(&no_code), "jls: odd");
}

#[test]
fn empty_directory_is_empty_array() {
    let compact = process(&Config::new(None, false, false), Vec::new()).ok().unwrap();
    let pretty = process(&Config::new(None, true, true), Vec::new()).ok().unwrap();
    assert_eq!(compact, "[]");
    assert_eq!(pretty, "[]");
}

#[test]
fn almost_all_keeps_every_entry_in_order() {
    let raw: &[&[u8]] = &[b"z", b".a", b"m", b"..x", b"b"];
    let records = list(entries(raw), true).ok().unwrap();
    assert_eq!(names_of(&records), vec!["z", ".a", "m", "..x", "b"]);
}

#[test]
fn hidden_entries_left_out_in_order() {
    let raw: &[&[u8]] = &[b"z", b".a", b"m", b"..x", b"b", b"c.d"];
    let records = list(entries(raw), false).ok().unwrap();
    assert_eq!(names_of(&records), vec!["z", "m", "b", "c.d"]);
    assert!(is_hidden(".x"));
    assert!(!is_hidden("x."));
    assert!(!is_hidden(""));
}

#[test]
fn same_entries_same_output() {
    let raw: &[&[u8]] = &[b"one", b".two", b"three"];
    for (almost_all, pretty) in [(false, false), (false, true), (true, false), (true, true)] {
        let cfg = Config::new(None, pretty, almost_all);
        let a = process(&cfg, entries(raw)).ok().unwrap();
        let b = process(&cfg, entries(raw)).ok().unwrap();
        assert_eq!(a, b);
    }
}

#[test]
fn output_parses_to_one_key_objects() {
    let raw: &[&[u8]] = &[b"a.txt", b".hidden", b"we\"ird\\name\n", b"b.log"];
    for pretty in [false, true] {
        let out = process(&Config::new(None, pretty, false), entries(raw)).ok().unwrap();
        let parsed: serde_json::Value = serde_json::from_str(&out).unwrap();
        let items = parsed.as_array().unwrap();
        assert_eq!(items.len(), 3);
        for item in items {
            let obj = item.as_object().unwrap();
            assert_eq!(obj.len(), 1);
            assert!(obj.get("filename").unwrap().is_string());
        }
    }
}

#[test]
fn pretty_and_compact_parse_equal() {
    let raw: &[&[u8]] = &[b"a.txt", b".hidden", b"b.log", b"tab\there"];
    let compact = process(&Config::new(None, false, true), entries(raw)).ok().unwrap();
    let pretty = process(&Config::new(None, true, true), entries(raw)).ok().unwrap();
    let c: serde_json::Value = serde_json::from_str(&compact).unwrap();
    let p: serde_json::Value = serde_json::from_str(&pretty).unwrap();
    assert_eq!(c, p);
    assert_eq!(c, expected_value(&["a.txt", ".hidden", "b.log", "tab\there"]));
}

#[test]
fn layouts_match_serde_json() {
    let names = ["a.txt", "quote\"d", "b.log"];
    let raw: Vec<&[u8]> = names.iter().map(|n| n.as_bytes()).collect();
    let value = expected_value(&names);
    let compact = process(&Config::new(None, false, true), entries(&raw)).ok().unwrap();
    let pretty = process(&Config::new(None, true, true), entries(&raw)).ok().unwrap();
    assert_eq!(compact, serde_json::to_string(&value).unwrap());
    assert_eq!(pretty, serde_json::to_string_pretty(&value).unwrap());
}

#[test]
fn pretty_layout_exact() {
    let out = process(&Config::new(None, true, false), entries(&[b"a.txt", b".hidden", b"b.log"]))
        .ok()
        .unwrap();
    assert_eq!(
        out,
        "[\n  {\n    \"filename\": \"a.txt\"\n  },\n  {\n    \"filename\": \"b.log\"\n  }\n]"
    );
}

#[test]
fn names_are_escaped() {
    let records = vec![EntryRecord { filename: "say \"hi\"\\".to_string() }];
    assert_eq!(format_listing(&records, false), r#"[{"filename":"say \"hi\"\\"}]"#);
}

#[test]
fn invalid_utf8_replaced() {
    let record = handle_dir_entry(&vec![b'a', 0xff, b'b']);
    assert_eq!(record.filename, "a\u{FFFD}b");
    let out = process(&Config::new(None, false, false), entries(&[b"ok", &[0xc3, 0x28]])).ok().unwrap();
    assert_eq!(out, "[{\"filename\":\"ok\"},{\"filename\":\"\u{FFFD}(\"}]");
}

#[test]
fn first_failed_read_is_reported() {
    let mut es = entries(&[b"a", b"b"]);
    es.insert(1, Err(OsError { code: Some(13), message: "first".to_string() }));
    es.push(Err(OsError { code: Some(5), message: "second".to_string() }));
    assert_eq!(first_failure(&es), Some(1));
    let e = process(&Config::new(None, false, true), es).err().unwrap();
    assert_eq!(e.code, Some(13));
    assert_eq!(e.message, "first");
    assert_eq!(first_failure(&entries(&[b"a"])), None);
}
