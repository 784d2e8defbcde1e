use match_events::decimal::{decimal_string, parse_u16};
use match_events::service::{clients_report, consumer_name, listen_port, DEFAULT_PORT};
use match_events::subscriber::{Subscriber, SubscriberError};

#[test]
fn decimal_writes_numbers() {
    assert_eq!(decimal_string(0), "0");
    assert_eq!(decimal_string(7), "7");
    assert_eq!(decimal_string(10), "10");
    assert_eq!(decimal_string(1234), "1234");
    assert_eq!(decimal_string(usize::MAX), usize::MAX.to_string());
}

#[test]
fn parse_reads_ports() {
    assert_eq!(parse_u16("3000"), Some(3000));
    assert_eq!(parse_u16("0"), Some(0));
    assert_eq!(parse_u16("+42"), Some(42));
    assert_eq!(parse_u16("00012"), Some(12));
    assert_eq!(parse_u16("65535"), Some(65535));
}

#[test]
fn parse_refuses_what_str_parse_refuses() {
    for s in ["", "+", "-1", "65536", "99999999999", "12a", " 12", "12 ", "++1", "\u{663}"] {
        assert_eq!(parse_u16(s), None, "{:?}", s);
        assert!(s.parse::<u16>().is_err(), "{:?}", s);
    }
}

#[test]
fn parse_agrees_with_str_parse() {
    for s in ["1", "+0", "080", "65534", "65535", "65536", "+65535", "x", "1_000"] {
        assert_eq!(parse_u16(s), s.parse::<u16>().ok(), "{:?}", s);
    }
}

#[test]
fn parse_reads_back_the_decimal_writing() {
    for n in [0u16, 1, 9, 10, 99, 100, 3000, 65535] {
        assert_eq!(parse_u16(&decimal_string(n as usize)), Some(n));
    }
}

#[test]
fn port_defaults_when_unset() {
    assert_eq!(listen_port(None), Some(DEFAULT_PORT));
    assert_eq!(DEFAULT_PORT, 3000);
}

#[test]
fn port_from_setting() {
    assert_eq!(listen_port(Some("8080")), Some(8080));
    assert_eq!(listen_port(Some("eighty")), None);
    assert_eq!(listen_port(Some("")), None);
}

#[test]
fn report_only_with_clients() {
    assert_eq!(clients_report(0, 12), None);
    assert_eq!(clients_report(1, 0), Some(String::from("Total number of messages 0")));
    assert_eq!(clients_report(3, 1234), Some(String::from("Total number of messages 1234")));
}

#[test]
fn consumer_is_named_after_its_queue() {
    assert_eq!(consumer_name("queue"), "queue-consumer");
    assert_eq!(consumer_name(""), "-consumer");
}

#[test]
fn subscriber_on_a_redis_url() {
    let s = Subscriber::new("redis://127.0.0.1:6679", vec!["events"]).unwrap();
    assert_eq!(s.channels(), &vec!["events"]);
}

#[test]
fn subscriber_refuses_a_non_redis_url() {
    assert_eq!(
        Subscriber::new("not a url", vec!["events"]).err(),
        Some(SubscriberError::InvalidUrl)
    );
    assert_eq!(
        Subscriber::new("http://127.0.0.1:6679", vec!["events"]).err(),
        Some(SubscriberError::InvalidUrl)
    );
}
