use postal::{Component, Components, Expansions};

#[test]
fn expansions_yield_in_order_then_none() {
    let raw: Vec<&[u8]> = vec![b"one", b"two", b"three"];
    let mut expansions = Expansions::new(raw);
    assert_eq!(expansions.next(), Some("one"));
    assert_eq!(expansions.next(), Some("two"));
    assert_eq!(expansions.next(), Some("three"));
    assert_eq!(expansions.next(), None);
    assert_eq!(expansions.next(), None);
}

#[test]
fn expansions_of_nothing() {
    let mut expansions = Expansions::new(Vec::new());
    assert_eq!(expansions.next(), None);
    assert_eq!(expansions.collect(), Vec::<&str>::new());
}

#[test]
fn expansions_decode_utf8() {
    let raw: Vec<&[u8]> = vec!["stra\u{df}e 7".as_bytes(), b"\xe6\x9d\xb1\xe4\xba\xac", b""];
    let mut expansions = Expansions::new(raw);
    assert_eq!(expansions.collect(), vec!["stra\u{df}e 7", "\u{6771}\u{4eac}", ""]);
}

#[test]
fn expansions_stop_for_good_at_an_entry_that_does_not_decode() {
    let raw: Vec<&[u8]> = vec![b"first", b"bad \xff byte", b"third"];
    let mut expansions = Expansions::new(raw);
    assert_eq!(expansions.next(), Some("first"));
    assert_eq!(expansions.next(), None);
    assert_eq!(expansions.next(), None);
    assert_eq!(expansions.collect(), Vec::<&str>::new());
}

#[test]
fn expansions_reject_malformed_encodings() {
    // a truncated sequence, an overlong encoding, and a surrogate
    for bad in [&b"\xe6\x9d"[..], &b"\xc0\xaf"[..], &b"\xed\xa0\x80"[..]] {
        let mut expansions = Expansions::new(vec![bad, b"after"]);
        assert_eq!(expansions.next(), None);
    }
}

#[test]
fn expansions_collect_takes_what_is_left() {
    let raw: Vec<&[u8]> = vec![b"a", b"b", b"c", b"\x80", b"e"];
    let mut expansions = Expansions::new(raw);
    assert_eq!(expansions.next(), Some("a"));
    assert_eq!(expansions.collect(), vec!["b", "c"]);
    assert_eq!(expansions.collect(), Vec::<&str>::new());
    assert_eq!(expansions.next(), None);
}

#[test]
fn yielded_texts_outlive_the_reader() {
    let storage = [b"kept".to_vec()];
    let first;
    {
        let mut expansions = Expansions::new(vec![storage[0].as_slice()]);
        first = expansions.next();
    }
    assert_eq!(first, Some("kept"));
}

#[test]
fn components_pair_labels_with_values() {
    let labels: Vec<&[u8]> = vec![b"road", b"city"];
    let values: Vec<&[u8]> = vec![b"main st", b"podunk"];
    let mut components = Components::new(labels, values);
    assert_eq!(components.next(), Some(Component { label: "road", value: "main st" }));
    assert_eq!(components.next(), Some(Component { label: "city", value: "podunk" }));
    assert_eq!(components.next(), None);
    assert_eq!(components.next(), None);
}

#[test]
fn components_of_nothing() {
    let mut components = Components::new(Vec::new(), Vec::new());
    assert_eq!(components.next(), None);
    assert_eq!(components.collect(), Vec::<Component>::new());
}

#[test]
fn components_stop_at_a_value_that_does_not_decode() {
    let labels: Vec<&[u8]> = vec![b"road", b"city", b"state"];
    let values: Vec<&[u8]> = vec![b"main st", b"pod\xffunk", b"tx"];
    let mut components = Components::new(labels, values);
    assert_eq!(components.next(), Some(Component { label: "road", value: "main st" }));
    assert_eq!(components.next(), None);
    assert_eq!(components.next(), None);
}

#[test]
fn components_stop_at_a_label_that_does_not_decode() {
    let labels: Vec<&[u8]> = vec![b"ro\xfead", b"city"];
    let values: Vec<&[u8]> = vec![b"main st", b"podunk"];
    let mut components = Components::new(labels, values);
    assert_eq!(components.collect(), Vec::<Component>::new());
    assert_eq!(components.next(), None);
}

#[test]
fn components_collect_takes_what_is_left() {
    let labels: Vec<&[u8]> = vec![b"house_number", b"road", b"city"];
    let values: Vec<&[u8]> = vec![b"1234", b"main st", b"podunk"];
    let mut components = Components::new(labels, values);
    assert_eq!(components.next(), Some(Component { label: "house_number", value: "1234" }));
    assert_eq!(
        components.collect(),
        vec![
            Component { label: "road", value: "main st" },
            Component { label: "city", value: "podunk" },
        ]
    );
    assert_eq!(components.collect(), Vec::<Component>::new());
}
