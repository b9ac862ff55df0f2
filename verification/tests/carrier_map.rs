use rustpaymentapi::carrier::Carrier;

#[test]
fn get_is_case_insensitive() {
    let mut c = Carrier::new();
    c.push_header(b"Content-Type".to_vec(), b"text/plain".to_vec());
    assert_eq!(c.get(&b"content-type".to_vec()), Some(&b"text/plain".to_vec()));
    assert_eq!(c.get(&b"CONTENT-TYPE".to_vec()), Some(&b"text/plain".to_vec()));
}

#[test]
fn get_absent_key_is_none_not_an_error() {
    let mut c = Carrier::new();
    c.push_header(b"accept".to_vec(), b"*/*".to_vec());
    assert_eq!(c.get(&b"authorization".to_vec()), None);
}

#[test]
fn get_returns_the_first_of_duplicates() {
    let mut c = Carrier::new();
    c.push_header(b"x-tag".to_vec(), b"one".to_vec());
    c.push_header(b"X-Tag".to_vec(), b"two".to_vec());
    assert_eq!(c.get(&b"x-tag".to_vec()), Some(&b"one".to_vec()));
}

#[test]
fn keys_lists_all_names_in_order() {
    let mut c = Carrier::new();
    c.push_header(b"accept".to_vec(), b"*/*".to_vec());
    c.push_header(b"traceparent".to_vec(), b"nonsense".to_vec());
    let keys = c.keys();
    assert_eq!(keys, vec![b"accept".to_vec(), b"traceparent".to_vec()]);
}

#[test]
fn set_replaces_the_first_match() {
    let mut c = Carrier::new();
    c.push_header(b"X-Tag".to_vec(), b"one".to_vec());
    c.push_header(b"x-tag".to_vec(), b"two".to_vec());
    c.set(b"x-tag".to_vec(), b"three".to_vec());
    assert_eq!(c.get(&b"x-tag".to_vec()), Some(&b"three".to_vec()));
    assert_eq!(c.keys().len(), 2);
}

#[test]
fn set_appends_when_absent() {
    let mut c = Carrier::new();
    c.set(b"x-tag".to_vec(), b"one".to_vec());
    assert_eq!(c.get(&b"x-tag".to_vec()), Some(&b"one".to_vec()));
    assert_eq!(c.keys(), vec![b"x-tag".to_vec()]);
}
