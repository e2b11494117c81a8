use monoio_gateway::message::{
    field_value_ok, generate_response, Header, Headers, Request, BAD_GATEWAY, NOT_FOUND,
};

fn names(headers: &Headers) -> Vec<String> {
    headers.fields.iter().map(|h| String::from_utf8(h.name.clone()).unwrap()).collect()
}

#[test]
fn first_field_of_a_name_is_found_whatever_its_case() {
    let mut h = Headers::new();
    h.append(b"Accept", b"*/*");
    h.append(b"HOST", b"a");
    h.append(b"host", b"b");
    assert_eq!(h.len(), 3);
    assert_eq!(h.get(b"host"), Some(&b"a".to_vec()));
    assert_eq!(h.get(b"Host"), Some(&b"a".to_vec()));
    assert_eq!(h.get(b"accept"), Some(&b"*/*".to_vec()));
    assert_eq!(h.get(b"content-length"), None);
    assert!(h.contains(b"hOsT"));
    assert!(!h.contains(b"hos"));
}

#[test]
fn setting_a_field_leaves_one_of_its_name_and_keeps_the_others() {
    let mut h = Headers::new();
    h.append(b"Host", b"a");
    h.append(b"Accept", b"*/*");
    h.append(b"HOST", b"b");
    h.append(b"User-Agent", b"t");
    h.set(b"host", b"c");
    assert_eq!(names(&h), vec!["Accept", "User-Agent", "host"]);
    assert_eq!(h.get(b"Host"), Some(&b"c".to_vec()));
    assert_eq!(h.get(b"accept"), Some(&b"*/*".to_vec()));
    assert_eq!(h.get(b"user-agent"), Some(&b"t".to_vec()));
}

#[test]
fn setting_a_new_field_adds_it_at_the_end() {
    let mut h = Headers::new();
    h.append(b"Accept", b"*/*");
    h.set(b"host", b"c");
    assert_eq!(names(&h), vec!["Accept", "host"]);
    assert_eq!(h.get(b"host"), Some(&b"c".to_vec()));
}

#[test]
fn a_generated_response_has_the_status_and_nothing_else() {
    let r = generate_response(NOT_FOUND);
    assert_eq!(r.status, 404);
    assert_eq!(r.headers.len(), 0);
    let r = generate_response(BAD_GATEWAY);
    assert_eq!(r.status, 502);
}

#[test]
fn a_new_request_has_start_line_only() {
    let r = Request::new("GET", "/x");
    assert_eq!(r.method, "GET");
    assert_eq!(r.path, "/x");
    assert_eq!(r.query, None);
    assert_eq!(r.headers.len(), 0);
}

#[test]
fn header_from_texts_and_its_duplicate() {
    let h = Header::new("Host", "svc");
    assert_eq!(h.name, b"Host".to_vec());
    assert_eq!(h.value, b"svc".to_vec());
    assert_eq!(h.duplicate(), h);
}

#[test]
fn field_values_exclude_control_characters() {
    assert!(field_value_ok(b"Bearer abc"));
    assert!(field_value_ok(b"a\tb"));
    assert!(field_value_ok(&[0xff, 0x80]));
    assert!(!field_value_ok(b"a\r\nb"));
    assert!(!field_value_ok(&[0x7f]));
    assert!(!field_value_ok(&[0x00]));
    assert!(field_value_ok(b""));
}
