use iron_test::addr::{Ip, SockAddr};
use iron_test::method::Method;
use iron_test::request;
use iron_test::MockStream;

#[test]
fn test_request() {
    let stream = MockStream::new("Hello Google!".as_bytes());
    let url = url::Url::parse("http://localhost:3000").unwrap();
    let mut req = request::new(Method::Get, url, stream);
    assert_eq!(req.method, Method::Get);
    assert_eq!(format!("{}", req.url), "http://localhost:3000/");

    let body_buf = req.body.read_to_end();
    assert_eq!(&*body_buf, b"Hello Google!");
}

#[test]
fn round_trip_drains_exactly_the_input() {
    let input: Vec<u8> = vec![0u8, 1, 2, 253, 254, 255];
    let mut s = MockStream::new(&input);
    assert_eq!(s.read_to_end(), input);
    // A drained stream reads as empty from then on.
    assert_eq!(s.read_to_end(), Vec::<u8>::new());
}

#[test]
fn round_trip_empty_input() {
    let mut s = MockStream::new(b"");
    assert_eq!(s.read_to_end(), Vec::<u8>::new());
}

#[test]
fn round_trip_in_chunks() {
    let mut s = MockStream::new(b"abcdefg");
    let mut drained: Vec<u8> = Vec::new();
    loop {
        let mut buf = vec![0u8; 3];
        let n = s.read(&mut buf);
        if n == 0 {
            break;
        }
        drained.extend_from_slice(&buf[..n]);
    }
    assert_eq!(drained, b"abcdefg".to_vec());
}

#[test]
fn read_reports_count_and_keeps_tail_of_buffer() {
    let mut s = MockStream::new(b"xy");
    let mut buf = vec![7u8; 4];
    let n = s.read(&mut buf);
    assert_eq!(n, 2);
    assert_eq!(buf, vec![b'x', b'y', 7u8, 7u8]);
    assert_eq!(s.read(&mut buf), 0);
}

#[test]
fn write_reports_full_length_and_leaves_reads_unaffected() {
    let mut s = MockStream::new(b"keep");
    assert_eq!(s.write(b"discarded bytes"), 15);
    assert_eq!(s.write(b""), 0);
    s.flush();
    assert_eq!(s.read_to_end(), b"keep".to_vec());
}

#[test]
fn clone_restarts_from_the_beginning() {
    let mut s = MockStream::new(b"abcdef");
    let mut buf = vec![0u8; 3];
    assert_eq!(s.read(&mut buf), 3);
    let mut fresh = s.clone();
    // The clone starts over; the original goes on from its cursor.
    assert_eq!(fresh.read_to_end(), b"abcdef".to_vec());
    assert_eq!(s.read_to_end(), b"def".to_vec());
}

#[test]
fn peer_address_is_stable() {
    let s = MockStream::new(b"data");
    let expected = SockAddr { ip: Ip::V6(0, 0, 0, 0, 0, 0, 0, 1), port: 2468 };
    assert_eq!(s.peer_addr(), expected);
    assert_eq!(s.peer_addr(), expected);
    assert_eq!(s.clone().peer_addr(), expected);
}

#[test]
fn header_defaults_are_populated() {
    let stream = MockStream::new(b"");
    let url = url::Url::parse("http://localhost:3000/a/b?c=d").unwrap();
    let req = request::new(Method::Post, url, stream);
    assert_eq!(req.headers.get("Host").unwrap().as_str(), "127.0.0.1:3000");
    assert_eq!(req.headers.get("User-Agent").unwrap().as_str(), "iron-test");
    // Header lookup ignores ASCII case.
    assert_eq!(req.headers.get("hOsT").unwrap().as_str(), "127.0.0.1:3000");
    assert_eq!(req.headers.get("user-agent").unwrap().as_str(), "iron-test");
    assert_eq!(req.headers.get("Accept"), None);
}

#[test]
fn request_addresses_are_the_fixed_loopback() {
    let stream = MockStream::new(b"");
    let url = url::Url::parse("http://localhost:3000").unwrap();
    let req = request::new(Method::Get, url, stream);
    let expected = SockAddr { ip: Ip::V4(127, 0, 0, 1), port: 3000 };
    assert_eq!(req.local_addr, expected);
    assert_eq!(req.remote_addr, expected);
}

#[test]
fn body_of_exhausted_stream_is_empty() {
    let mut stream = MockStream::new(b"already read");
    let _ = stream.read_to_end();
    let url = url::Url::parse("http://localhost:3000").unwrap();
    let mut req = request::new(Method::Get, url, stream);
    assert_eq!(req.body.read_to_end(), Vec::<u8>::new());
}

#[test]
fn body_starts_at_the_stream_cursor() {
    let mut stream = MockStream::new(b"skip|rest");
    let mut buf = vec![0u8; 5];
    assert_eq!(stream.read(&mut buf), 5);
    let url = url::Url::parse("http://localhost:3000").unwrap();
    let mut req = request::new(Method::Get, url, stream);
    assert_eq!(req.body.read_to_end(), b"rest".to_vec());
}

#[test]
fn setting_a_header_replaces_case_insensitively() {
    let stream = MockStream::new(b"");
    let url = url::Url::parse("http://localhost:3000").unwrap();
    let mut req = request::new(Method::Get, url, stream);
    req.headers.set("hOST", String::from("example.net"));
    assert_eq!(req.headers.get("Host").unwrap().as_str(), "example.net");
    req.headers.set("Accept", String::from("text/html"));
    assert_eq!(req.headers.get("accept").unwrap().as_str(), "text/html");
}

#[test]
fn method_names_render_as_on_the_wire() {
    assert_eq!(Method::Get.name(), "GET");
    assert_eq!(Method::Patch.name(), "PATCH");
    assert_eq!(Method::Extension(String::from("FROBNICATE")).name(), "FROBNICATE");
}
