use matricks::path_map::{parse_path_mappings, PathMap};

#[test]
fn directive_splits_on_first_separator() {
    let p = PathMap::from_string("/data>/home/pi/data".to_string()).unwrap();
    assert_eq!(p.from, "/data");
    assert_eq!(p.to, "/home/pi/data");
    let p = PathMap::from_string("a>b>c".to_string()).unwrap();
    assert_eq!(p.from, "a");
    assert_eq!(p.to, "b>c");
    let p = PathMap::from_string(">".to_string()).unwrap();
    assert_eq!(p.from, "");
    assert_eq!(p.to, "");
}

#[test]
fn directive_without_separator_is_rejected() {
    assert!(PathMap::from_string("/data".to_string()).is_err());
    assert!(PathMap::from_string(String::new()).is_err());
}

#[test]
fn invalid_directives_are_dropped_in_order() {
    let ds = vec!["a>b".to_string(), "bad".to_string(), "c>d".to_string(), "worse".to_string()];
    let (granted, rejected) = parse_path_mappings(&ds);
    let pairs: Vec<(String, String)> = granted.into_iter().map(|p| (p.from, p.to)).collect();
    assert_eq!(pairs, vec![("a".to_string(), "b".to_string()), ("c".to_string(), "d".to_string())]);
    assert_eq!(rejected, vec!["bad".to_string(), "worse".to_string()]);
}
