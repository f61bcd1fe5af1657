use rioting::text::append_decimal;
use rioting::webrtc::new_rtc;

#[test]
fn decimal_notation() {
    for (n, s) in [(0u16, "0"), (7, "7"), (10, "10"), (554, "554"), (2020, "2020"), (65535, "65535")] {
        let mut out = String::from("port ");
        append_decimal(&mut out, n);
        assert_eq!(out, format!("port {s}"));
    }
}

#[test]
fn decimal_reads_back() {
    for n in [0u16, 1, 9, 10, 99, 100, 101, 8000, 65534, 65535] {
        let mut out = String::new();
        append_decimal(&mut out, n);
        assert_eq!(out.parse::<u16>().unwrap(), n);
        assert!(out == "0" || !out.starts_with('0'));
    }
}

#[test]
fn rtc_can_be_made() {
    let _rtc = new_rtc();
}
