use mail_triage::recipients::resolve_recipients;
use mail_triage::strutil::join_with;

fn strs(v: &Vec<String>) -> Vec<&str> {
    v.iter().map(|s| s.as_str()).collect()
}

#[test]
fn operator_address_never_appears() {
    let (to, cc) = resolve_recipients(
        "emika@example.com",
        "john@example.com, minzi@example.com",
        "john@example.com",
        "john@example.com",
    );
    for e in to.iter().chain(cc.iter()) {
        assert!(!e.contains("john@example.com"));
    }
    assert_eq!(strs(&to), vec![" minzi@example.com", "emika@example.com"]);
    assert_eq!(cc.len(), 0);
}

#[test]
fn whitespace_entries_are_dropped() {
    let (to, cc) = resolve_recipients("a@x.com,  , ,b@y.com", "", "  ", "self@me.com");
    for e in to.iter() {
        assert!(!e.trim().is_empty());
    }
    assert_eq!(strs(&to), vec!["a@x.com", "b@y.com"]);
    assert_eq!(cc.len(), 0);
}

#[test]
fn output_is_sorted_with_no_adjacent_duplicates() {
    let (to, _) = resolve_recipients(
        "c@z.com",
        "b@y.com,c@z.com,a@x.com,b@y.com",
        "",
        "self@me.com",
    );
    let views = strs(&to);
    assert_eq!(views, vec!["a@x.com", "b@y.com", "c@z.com"]);
    for w in views.windows(2) {
        assert!(w[0] < w[1]);
    }
}

#[test]
fn cc_list_is_resolved_from_cc_header_alone() {
    let (to, cc) = resolve_recipients(
        "from@x.com",
        "",
        "z@q.com, a@q.com,self@me.com stays out, a@q.com",
        "self@me.com",
    );
    assert_eq!(strs(&to), vec!["from@x.com"]);
    assert_eq!(strs(&cc), vec![" a@q.com", "z@q.com"]);
}

#[test]
fn all_filtered_gives_empty_joined_field() {
    let (to, cc) = resolve_recipients("self@me.com", "", "", "self@me.com");
    assert_eq!(join_with(&to, ", "), "");
    assert_eq!(join_with(&cc, ", "), "");
}
