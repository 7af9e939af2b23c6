use request_uri::uri::{PathQueryFragment, RequestUri, Uri};

fn pqf(path: &[&str], query: Option<&str>, fragment: Option<&str>) -> PathQueryFragment {
    PathQueryFragment {
        path: path.iter().map(|s| s.to_string()).collect(),
        query: query.map(|s| s.to_string()),
        fragment: fragment.map(|s| s.to_string()),
    }
}

fn pairs(items: &[(&str, &str)]) -> Vec<(String, String)> {
    items.iter().map(|(k, v)| (k.to_string(), v.to_string())).collect()
}

#[test]
fn round_trip_absolute_path() {
    let p = pqf(&["where"], Some("q=now"), None);
    let target = RequestUri::AbsolutePath(p.clone());
    match target {
        RequestUri::AbsolutePath(got) => assert_eq!(got, p),
        _ => panic!("wrong variant"),
    }
}

#[test]
fn round_trip_absolute_uri() {
    let u = Uri { serialization: "http://www.example.org/pub/WWW/TheProject.html".to_string() };
    let target = RequestUri::AbsoluteUri(u.clone());
    match target {
        RequestUri::AbsoluteUri(got) => assert_eq!(got, u),
        _ => panic!("wrong variant"),
    }
}

#[test]
fn round_trip_authority() {
    let target = RequestUri::Authority("www.example.com:80".to_string());
    match target {
        RequestUri::Authority(got) => assert_eq!(got, "www.example.com:80".to_string()),
        _ => panic!("wrong variant"),
    }
}

#[test]
fn round_trip_star() {
    let target = RequestUri::Star;
    assert!(matches!(target, RequestUri::Star));
}

#[test]
fn query_pairs_absent_query() {
    let p = pqf(&["where"], None, None);
    assert!(p.query_pairs().is_none());
}

#[test]
fn query_pairs_present_but_empty_query() {
    let p = pqf(&["where"], Some(""), None);
    assert_eq!(p.query_pairs(), Some(Vec::new()));
}

#[test]
fn query_pairs_single_pair() {
    let p = pqf(&["where"], Some("q=now"), None);
    assert_eq!(p.query_pairs(), Some(pairs(&[("q", "now")])));
}

#[test]
fn query_pairs_duplicate_keys_kept_in_order() {
    let p = pqf(&[], Some("a=1&a=2"), None);
    assert_eq!(p.query_pairs(), Some(pairs(&[("a", "1"), ("a", "2")])));
}

#[test]
fn query_pairs_key_without_eq_gets_empty_value() {
    let p = pqf(&[], Some("flag"), None);
    assert_eq!(p.query_pairs(), Some(pairs(&[("flag", "")])));
}

#[test]
fn query_pairs_percent_decodes() {
    let p = pqf(&[], Some("k=a%20b"), None);
    assert_eq!(p.query_pairs(), Some(pairs(&[("k", "a b")])));
}

#[test]
fn query_pairs_plus_decodes_to_space() {
    let p = pqf(&[], Some("k=a+b"), None);
    assert_eq!(p.query_pairs(), Some(pairs(&[("k", "a b")])));
}

#[test]
fn query_pairs_percent_decodes_key_too() {
    let p = pqf(&[], Some("%23first=%25try%25"), None);
    assert_eq!(p.query_pairs(), Some(pairs(&[("#first", "%try%")])));
}

#[test]
fn query_pairs_malformed_escape_passes_through() {
    let p = pqf(&[], Some("k=%zz"), None);
    assert_eq!(p.query_pairs(), Some(pairs(&[("k", "%zz")])));
}

#[test]
fn query_pairs_empty_segments_dropped() {
    let p = pqf(&[], Some("a=1&&b=2"), None);
    assert_eq!(p.query_pairs(), Some(pairs(&[("a", "1"), ("b", "2")])));
}

#[test]
fn query_pairs_splits_at_first_eq_only() {
    let p = pqf(&[], Some("k=a=b"), None);
    assert_eq!(p.query_pairs(), Some(pairs(&[("k", "a=b")])));
}

#[test]
fn query_pairs_empty_key() {
    let p = pqf(&[], Some("=x"), None);
    assert_eq!(p.query_pairs(), Some(pairs(&[("", "x")])));
}

#[test]
fn absolute_path_equality_same_fields() {
    let a = RequestUri::AbsolutePath(pqf(&["a", "b"], Some("q=now"), Some("frag")));
    let b = RequestUri::AbsolutePath(pqf(&["a", "b"], Some("q=now"), Some("frag")));
    assert_eq!(a, b);
}

#[test]
fn absolute_path_inequality_any_field() {
    let base = pqf(&["a", "b"], Some("q=now"), Some("frag"));
    let other_path = pqf(&["a", "c"], Some("q=now"), Some("frag"));
    let other_query = pqf(&["a", "b"], Some("q=later"), Some("frag"));
    let other_fragment = pqf(&["a", "b"], Some("q=now"), None);
    assert_ne!(RequestUri::AbsolutePath(base.clone()), RequestUri::AbsolutePath(other_path));
    assert_ne!(RequestUri::AbsolutePath(base.clone()), RequestUri::AbsolutePath(other_query));
    assert_ne!(RequestUri::AbsolutePath(base), RequestUri::AbsolutePath(other_fragment));
}

#[test]
fn absent_query_differs_from_empty_query() {
    assert_ne!(pqf(&[], None, None), pqf(&[], Some(""), None));
}

#[test]
fn star_equals_star_only() {
    assert_eq!(RequestUri::Star, RequestUri::Star);
    assert_ne!(RequestUri::Star, RequestUri::Authority("www.example.com:80".to_string()));
    assert_ne!(RequestUri::Star, RequestUri::AbsolutePath(pqf(&[], None, None)));
    let u = Uri { serialization: "http://example.org/".to_string() };
    assert_ne!(RequestUri::Star, RequestUri::AbsoluteUri(u));
}

#[test]
fn uri_equality_is_by_serialization() {
    let a = Uri { serialization: "http://example.org/".to_string() };
    let b = Uri { serialization: "http://example.org/".to_string() };
    let c = Uri { serialization: "http://example.org/other".to_string() };
    assert_eq!(a, b);
    assert_ne!(a, c);
}

#[test]
fn authority_equality_is_by_text() {
    let a = RequestUri::Authority("www.example.com:80".to_string());
    let b = RequestUri::Authority("www.example.com:80".to_string());
    let c = RequestUri::Authority("www.example.com:443".to_string());
    assert_eq!(a, b);
    assert_ne!(a, c);
}

#[test]
fn clone_preserves_value() {
    let p = pqf(&["where"], Some("q=now"), Some("frag"));
    assert_eq!(p.clone(), p);
    let t = RequestUri::AbsolutePath(p);
    assert_eq!(t.clone(), t);
}
