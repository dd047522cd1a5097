use movie_service::propagation;
use movie_service::propagation::{extract, inject};
use movie_service::trace::TraceContext;
use tonic::metadata::MetadataMap;

fn sample_context() -> TraceContext {
    TraceContext {
        trace_id: 0x4bf9_2f35_77b3_4da6_a3ce_929d_0e0e_4736,
        span_id: 0x00f0_67aa_0ba9_02b7,
        sampled: true,
        trace_state: String::from("foo=bar"),
    }
}

#[test]
fn inject_writes_the_traceparent_header() {
    let mut carrier = MetadataMap::new();
    inject(&sample_context(), &mut carrier);
    assert_eq!(
        carrier.get("traceparent").unwrap().to_str().unwrap(),
        "00-4bf92f3577b34da6a3ce929d0e0e4736-00f067aa0ba902b7-01"
    );
    assert_eq!(carrier.get("tracestate").unwrap().to_str().unwrap(), "foo=bar");
    assert_eq!(carrier.len(), 2);
}

#[test]
fn inject_writes_an_unsampled_flag() {
    let mut carrier = MetadataMap::new();
    let context = TraceContext { trace_id: 1, span_id: 2, sampled: false, trace_state: String::new() };
    inject(&context, &mut carrier);
    assert_eq!(
        carrier.get("traceparent").unwrap().to_str().unwrap(),
        "00-00000000000000000000000000000001-0000000000000002-00"
    );
    assert_eq!(carrier.get("tracestate").unwrap().to_str().unwrap(), "");
}

#[test]
fn inject_of_an_empty_context_writes_nothing() {
    let mut carrier = MetadataMap::new();
    inject(&TraceContext::empty(), &mut carrier);
    assert!(carrier.is_empty());
    let half = TraceContext { trace_id: 7, span_id: 0, sampled: true, trace_state: String::new() };
    inject(&half, &mut carrier);
    assert!(carrier.is_empty());
}

#[test]
fn extract_reads_back_what_inject_wrote() {
    let mut carrier = MetadataMap::new();
    let sent = sample_context();
    inject(&sent, &mut carrier);
    let received = extract(&carrier);
    assert_eq!(received.trace_id, sent.trace_id);
    assert_eq!(received.span_id, sent.span_id);
    assert_eq!(received.sampled, sent.sampled);
    assert_eq!(received.trace_state, "foo=bar");
}

#[test]
fn extract_from_an_empty_carrier_is_the_empty_context() {
    let received = extract(&MetadataMap::new());
    assert_eq!(received, TraceContext::empty());
    assert!(!received.is_valid());
}

#[test]
fn extract_refuses_a_malformed_header() {
    let mut carrier = MetadataMap::new();
    propagation::set(&mut carrier, "traceparent", String::from("00-qw000000000000000000000000000000-cd00000000000000-01"));
    assert_eq!(extract(&carrier), TraceContext::empty());
    propagation::set(&mut carrier, "traceparent", String::from("00-00000000000000000000000000000000-cd00000000000000-01"));
    assert_eq!(extract(&carrier), TraceContext::empty());
}

#[test]
fn extract_drops_vendor_fields_that_are_no_list() {
    let mut carrier = MetadataMap::new();
    propagation::set(&mut carrier, "traceparent", String::from("00-4bf92f3577b34da6a3ce929d0e0e4736-00f067aa0ba902b7-00"));
    propagation::set(&mut carrier, "tracestate", String::from("no list"));
    let received = extract(&carrier);
    assert!(received.is_valid());
    assert!(!received.sampled);
    assert_eq!(received.trace_state, "");
}

#[test]
fn set_keeps_a_key_in_lower_case() {
    let mut carrier = MetadataMap::new();
    propagation::set(&mut carrier, "X-Request", String::from("abc"));
    assert_eq!(carrier.get("x-request").unwrap().to_str().unwrap(), "abc");
    assert_eq!(carrier.len(), 1);
}

#[test]
fn set_replaces_the_value_under_a_key() {
    let mut carrier = MetadataMap::new();
    propagation::set(&mut carrier, "k", String::from("one"));
    propagation::set(&mut carrier, "k", String::from("two"));
    assert_eq!(carrier.get("k").unwrap().to_str().unwrap(), "two");
    assert_eq!(carrier.len(), 1);
}

#[test]
fn set_drops_a_key_that_is_no_metadata_key() {
    let mut carrier = MetadataMap::new();
    propagation::set(&mut carrier, "bad key", String::from("v"));
    propagation::set(&mut carrier, "", String::from("v"));
    propagation::set(&mut carrier, "payload-bin", String::from("v"));
    assert!(carrier.is_empty());
}

#[test]
fn set_drops_a_value_that_does_not_encode() {
    let mut carrier = MetadataMap::new();
    propagation::set(&mut carrier, "k", String::from("line\nbreak"));
    propagation::set(&mut carrier, "k", String::from("del\u{7f}"));
    assert!(carrier.is_empty());
    propagation::set(&mut carrier, "k", String::from("tab\tfine"));
    assert_eq!(carrier.get("k").unwrap().to_str().unwrap(), "tab\tfine");
}

#[test]
fn set_keeps_a_value_that_is_not_visible_out_of_the_text() {
    let mut carrier = MetadataMap::new();
    propagation::set(&mut carrier, "traceparent", String::from("00-4bf92f3577b34da6a3ce929d0e0e4736-00f067aa0ba902b7-01"));
    propagation::set(&mut carrier, "traceparent", String::from("caf\u{e9}"));
    assert_eq!(carrier.len(), 1);
    assert!(carrier.get("traceparent").unwrap().to_str().is_err());
    assert_eq!(extract(&carrier), TraceContext::empty());
}

#[test]
fn set_takes_thousands_of_entries() {
    let mut carrier = MetadataMap::new();
    for i in 0..6000 {
        propagation::set(&mut carrier, &format!("k{}", i), String::from("v"));
    }
    assert_eq!(carrier.len(), 6000);
    inject(&sample_context(), &mut carrier);
    assert_eq!(extract(&carrier).trace_id, sample_context().trace_id);
    assert_eq!(carrier.len(), 6002);
}

#[test]
fn set_drops_what_the_carrier_refuses() {
    let mut carrier = MetadataMap::new();
    for i in 0..30000 {
        propagation::set(&mut carrier, &format!("k{}", i), String::from("v"));
    }
    let held = carrier.len();
    assert!(held >= 4096);
    assert!(held < 30000);
    propagation::set(&mut carrier, "one-more", String::from("v"));
    assert_eq!(carrier.len(), held);
    assert_eq!(propagation::get(&carrier, "one-more"), None);
    assert_eq!(propagation::get(&carrier, "k0"), Some(String::from("v")));
    inject(&sample_context(), &mut carrier);
    assert_eq!(carrier.len(), held);
    assert_eq!(extract(&carrier), TraceContext::empty());
}

#[test]
fn get_hands_out_what_set_wrote() {
    let mut carrier = MetadataMap::new();
    propagation::set(&mut carrier, "traceparent", String::from("some text"));
    assert_eq!(propagation::get(&carrier, "traceparent"), Some(String::from("some text")));
    assert_eq!(propagation::get(&carrier, "tracestate"), None);
    assert_eq!(carrier.len(), 1);
}

#[test]
fn get_looks_under_the_key_in_lower_case() {
    let mut carrier = MetadataMap::new();
    propagation::set(&mut carrier, "X-Request", String::from("abc"));
    assert_eq!(propagation::get(&carrier, "x-request"), Some(String::from("abc")));
    assert_eq!(propagation::get(&carrier, "X-REQUEST"), Some(String::from("abc")));
}

#[test]
fn get_finds_nothing_for_a_key_that_is_no_header_name() {
    let mut carrier = MetadataMap::new();
    propagation::set(&mut carrier, "k", String::from("v"));
    assert_eq!(propagation::get(&carrier, ""), None);
    assert_eq!(propagation::get(&carrier, "bad key"), None);
    assert_eq!(propagation::get(&carrier, "k\u{e9}"), None);
    assert_eq!(propagation::get(&carrier, "payload-bin"), None);
    assert_eq!(propagation::get(&carrier, &"k".repeat(70000)), None);
}

#[test]
fn get_hands_out_no_value_that_is_not_visible() {
    let mut carrier = MetadataMap::new();
    propagation::set(&mut carrier, "k", String::from("caf\u{e9}"));
    assert_eq!(carrier.len(), 1);
    assert_eq!(propagation::get(&carrier, "k"), None);
}

fn is_name_char(c: char) -> bool {
    c.is_ascii_alphanumeric() || "!#$%&'*+-.^_`|~".contains(c)
}

#[test]
fn set_takes_a_key_of_header_name_characters_only() {
    for code in 0u32..300 {
        let c = char::from_u32(code).unwrap();
        for key in [format!("{}", c), format!("a{}b", c), format!("{}{}", "a".repeat(70), c)] {
            let mut carrier = MetadataMap::new();
            propagation::set(&mut carrier, &key, String::from("v"));
            if is_name_char(c) {
                assert_eq!(carrier.len(), 1, "{:?}", key);
                let name = key.to_ascii_lowercase();
                assert_eq!(carrier.keys().count(), 1);
                assert!(carrier.contains_key(name.as_str()), "{:?}", key);
                assert_eq!(propagation::get(&carrier, &key), Some(String::from("v")), "{:?}", key);
                assert_eq!(propagation::get(&carrier, &name), Some(String::from("v")), "{:?}", key);
            } else {
                assert!(carrier.is_empty(), "{:?}", key);
                assert_eq!(propagation::get(&carrier, &key), None, "{:?}", key);
            }
        }
    }
}

#[test]
fn set_takes_a_key_of_up_to_65535_characters() {
    let mut carrier = MetadataMap::new();
    propagation::set(&mut carrier, &"a".repeat(65535), String::from("v"));
    assert_eq!(propagation::get(&carrier, &"A".repeat(65535)), Some(String::from("v")));
    propagation::set(&mut carrier, &"b".repeat(65536), String::from("v"));
    assert_eq!(carrier.len(), 1);
    propagation::set(&mut carrier, &"c".repeat(64), String::from("v"));
    propagation::set(&mut carrier, &"d".repeat(65), String::from("v"));
    assert_eq!(carrier.len(), 3);
}

#[test]
fn set_drops_a_key_that_ends_in_bin_in_lower_case() {
    let mut carrier = MetadataMap::new();
    propagation::set(&mut carrier, "payload-BIN", String::from("v"));
    propagation::set(&mut carrier, "-bin", String::from("v"));
    assert!(carrier.is_empty());
    propagation::set(&mut carrier, "bin", String::from("v"));
    propagation::set(&mut carrier, "payload-bin-", String::from("v"));
    assert_eq!(carrier.len(), 2);
}

#[test]
fn get_goes_by_the_key_as_it_is_written_where_it_ends_in_bin() {
    let mut carrier = MetadataMap::new();
    carrier.insert_bin("x-bin", tonic::metadata::BinaryMetadataValue::from_bytes(b"hello"));
    assert_eq!(propagation::get(&carrier, "x-bin"), None);
    assert_eq!(propagation::get(&carrier, "x-BIN"), Some(String::from("aGVsbG8")));
    propagation::set(&mut carrier, "x-BIN", String::from("v"));
    assert_eq!(propagation::get(&carrier, "x-BIN"), Some(String::from("aGVsbG8")));
    assert_eq!(carrier.len(), 1);
}

#[test]
fn set_puts_one_value_in_place_of_many() {
    let mut carrier = MetadataMap::new();
    carrier.append("k", "one".parse().unwrap());
    carrier.append("k", "two".parse().unwrap());
    carrier.append("other", "three".parse().unwrap());
    assert_eq!(carrier.len(), 3);
    propagation::set(&mut carrier, "k", String::from("four"));
    assert_eq!(carrier.len(), 2);
    assert_eq!(propagation::get(&carrier, "k"), Some(String::from("four")));
    assert_eq!(propagation::get(&carrier, "other"), Some(String::from("three")));
}

#[test]
fn get_hands_out_the_first_of_many_values() {
    let mut carrier = MetadataMap::new();
    carrier.append("k", "one".parse().unwrap());
    carrier.append("k", "two".parse().unwrap());
    assert_eq!(propagation::get(&carrier, "k"), Some(String::from("one")));
}
