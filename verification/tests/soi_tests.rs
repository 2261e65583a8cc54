use soi::cli::{parse_command_line, CliAction};
use soi::client::{after_failed_connect, detect_soi_instance, upload_file_name, DetectError, Reconnect, RETRY_COUNT};
use soi::codec::{decode_packet, encode_packet};
use soi::config::{config_file_path, first_line};
use soi::packet::{classify, same_text, Command, Object, Packet};
use soi::server::{build, on_read, plan_request, writes_file, ServerAction, StreamStep, READ_BUFFER_LEN};
use soi::utils::{fallback_endpoint, next_bind, socket_addr_for, AddressError, BindStep, Endpoint, LocalIp, SERVER_PORT};

fn args(words: &[&str]) -> Vec<String> {
    words.iter().map(|w| w.to_string()).collect()
}

fn le(n: u64) -> Vec<u8> {
    n.to_le_bytes().to_vec()
}

#[test]
fn encode_writes_length_prefixed_fields() {
    let p = Packet::upload("a.txt".to_string(), vec![7, 8, 9], false);
    let bytes = encode_packet(&p);
    let mut expected = Vec::new();
    expected.extend(le(6));
    expected.extend(b"upload");
    expected.extend(le(5));
    expected.extend(b"a.txt");
    expected.extend(le(3));
    expected.extend([7u8, 8, 9]);
    expected.extend(le(3));
    assert_eq!(bytes, expected);
    assert_eq!(bytes.len(), 8 + 6 + 8 + 5 + 8 + 3 + 8);
}

#[test]
fn encode_utf8_text_by_bytes() {
    let p = Packet::download("é".to_string());
    let bytes = encode_packet(&p);
    assert_eq!(&bytes[8 + 8..8 + 8 + 8], &le(2)[..]);
    assert_eq!(&bytes[24..26], "é".as_bytes());
}

#[test]
fn decode_gives_back_the_encoded_packet() {
    let p = Packet::upload("notes.md".to_string(), b"hello".to_vec(), true);
    let mut buf = encode_packet(&p);
    buf.resize(READ_BUFFER_LEN, 0);
    let q = decode_packet(&buf).expect("decodes");
    assert_eq!(q.command, "upload--force");
    assert_eq!(q.filename, "notes.md");
    assert_eq!(q.data, b"hello".to_vec());
    assert_eq!(q.size, 5);
}

#[test]
fn decode_rejects_short_or_broken_input() {
    assert!(decode_packet(&[]).is_none());
    let p = Packet::upload("x".to_string(), vec![1, 2, 3, 4], false);
    let bytes = encode_packet(&p);
    assert!(decode_packet(&bytes[..bytes.len() - 1]).is_none());
    let mut bad = bytes.clone();
    bad[8] = 0xff;
    assert!(decode_packet(&bad).is_none());
    let mut huge = vec![0u8; 64];
    huge[..8].copy_from_slice(&le(u64::MAX));
    assert!(decode_packet(&huge).is_none());
    assert!(decode_packet(&[0u8; READ_BUFFER_LEN]).is_some());
}

#[test]
fn command_words_are_classified() {
    assert!(matches!(classify("upload"), Command::Upload));
    assert!(matches!(classify("upload--force"), Command::UploadForce));
    assert!(matches!(classify("download"), Command::Download));
    assert!(matches!(classify("Upload"), Command::Unknown));
    assert!(matches!(classify(""), Command::Unknown));
    assert!(same_text("abc", "abc"));
    assert!(!same_text("abc", "abd"));
}

#[test]
fn requests_are_planned_by_command() {
    let p = Packet::upload("f.bin".to_string(), vec![1], true);
    match plan_request("/srv/", p) {
        ServerAction::Overwrite { path, data } => {
            assert_eq!(path, "/srv/f.bin");
            assert_eq!(data, vec![1]);
        }
        _ => panic!("expected an overwrite"),
    }
    let p = Packet::upload("f.bin".to_string(), vec![2], false);
    assert!(matches!(plan_request("/srv/", p), ServerAction::StoreIfAbsent { ref path, .. } if path == "/srv/f.bin"));
    let p = Packet::download("f.bin".to_string());
    assert!(matches!(plan_request("store", p), ServerAction::Send { ref path } if path == "storef.bin"));
    let p = Packet { command: "delete".to_string(), filename: "f".to_string(), data: vec![], size: 0 };
    assert!(matches!(plan_request("/srv/", p), ServerAction::Unknown { ref command } if command == "delete"));
}

#[test]
fn only_forced_uploads_replace_files() {
    let over = ServerAction::Overwrite { path: "p".to_string(), data: vec![] };
    let keep = ServerAction::StoreIfAbsent { path: "p".to_string(), data: vec![] };
    let send = ServerAction::Send { path: "p".to_string() };
    assert!(writes_file(&over, true));
    assert!(writes_file(&over, false));
    assert!(!writes_file(&keep, true));
    assert!(writes_file(&keep, false));
    assert!(!writes_file(&send, false));
}

#[test]
fn reads_drive_the_connection() {
    let buf = [0u8; READ_BUFFER_LEN];
    assert!(matches!(on_read("/s/", None, &buf), StreamStep::Stop));
    assert!(matches!(on_read("/s/", Some(0), &buf), StreamStep::Stop));
    let junk = [0xffu8; READ_BUFFER_LEN];
    assert!(matches!(on_read("/s/", Some(12), &junk), StreamStep::Reject));
    let mut buf = encode_packet(&Packet::upload("a".to_string(), vec![5, 6], false));
    buf.resize(READ_BUFFER_LEN, 0);
    match on_read("/s/", Some(40), &buf) {
        StreamStep::Handle { filename, size, action } => {
            assert_eq!(filename, "a");
            assert_eq!(size, 2);
            assert!(matches!(action, ServerAction::StoreIfAbsent { ref path, ref data } if path == "/s/a" && data == &vec![5, 6]));
        }
        _ => panic!("expected a request"),
    }
}

#[test]
fn upload_names_are_last_components() {
    assert_eq!(upload_file_name("dir/sub/file.txt").as_deref(), Some("file.txt"));
    assert_eq!(upload_file_name("file.txt").as_deref(), Some("file.txt"));
    assert_eq!(upload_file_name("/usr/bin/").as_deref(), Some("bin"));
    assert_eq!(upload_file_name("/"), None);
    assert_eq!(upload_file_name("a/.."), None);
    assert_eq!(upload_file_name("/tmp/x/a.txt").as_deref(), Some("a.txt"));
    assert_eq!(upload_file_name("foo.txt/.//").as_deref(), Some("foo.txt"));
    assert_eq!(upload_file_name("./a").as_deref(), Some("a"));
    assert_eq!(upload_file_name("a/../b").as_deref(), Some("b"));
    assert_eq!(upload_file_name("a//b").as_deref(), Some("b"));
    assert_eq!(upload_file_name("."), None);
    assert_eq!(upload_file_name(""), None);
    assert_eq!(upload_file_name("//"), None);
    assert_eq!(upload_file_name("..."), Some("...".to_string()));
}

#[test]
fn packets_carry_their_sizes() {
    let p = Packet::upload("n".to_string(), vec![0; 10], false);
    assert_eq!(p.command, "upload");
    assert_eq!(p.size, 10);
    let d = Packet::download("some/file".to_string());
    assert_eq!(d.command, "download");
    assert_eq!(d.filename, "some/file");
    assert_eq!(d.data, vec![0, 1]);
    assert_eq!(d.size, 0);
    let o = Object { filename: "n".to_string(), data: vec![1], size: 1 };
    assert_eq!(o.size, o.data.len());
}

#[test]
fn reconnects_stop_after_the_retry_count() {
    let mut attempts = 0u8;
    let mut retries = 0;
    loop {
        match after_failed_connect(attempts) {
            Reconnect::GiveUp => break,
            Reconnect::Retry { delay_secs, attempts: next } => {
                assert_eq!(delay_secs, 3);
                assert_eq!(next, attempts + 1);
                attempts = next;
                retries += 1;
            }
        }
    }
    assert_eq!(retries, RETRY_COUNT as u32);
    assert!(matches!(after_failed_connect(200), Reconnect::GiveUp));
}

#[test]
fn detection_is_not_available() {
    assert!(matches!(detect_soi_instance(), Err(DetectError::NotImplemented)));
}

#[test]
fn config_paths_follow_the_system() {
    assert_eq!(config_file_path("linux", "ann").as_deref(), Some("/home/ann/.config/soiconfig"));
    assert_eq!(config_file_path("macos", "bo").as_deref(), Some("/Users/bo/.config/soiconfig"));
    assert_eq!(config_file_path("windows", "bo"), None);
}

#[test]
fn first_line_of_configuration() {
    assert_eq!(first_line(b""), None);
    assert_eq!(first_line(b"/data/"), Some(b"/data/".to_vec()));
    assert_eq!(first_line(b"/data/\nmore"), Some(b"/data/".to_vec()));
    assert_eq!(first_line(b"/data/\r\nmore"), Some(b"/data/".to_vec()));
    assert_eq!(first_line(b"/data/\r"), Some(b"/data/\r".to_vec()));
    assert_eq!(first_line(b"\nabc"), Some(Vec::new()));
    assert_eq!(first_line(b"\r\n"), Some(Vec::new()));
}

#[test]
fn listen_address_needs_ipv4() {
    let e = socket_addr_for(LocalIp::V4([192, 168, 1, 20])).ok().expect("ipv4");
    assert_eq!(e.octets, [192, 168, 1, 20]);
    assert_eq!(e.port, SERVER_PORT);
    assert_eq!(SERVER_PORT, 8080);
    assert!(matches!(socket_addr_for(LocalIp::V6([0, 0, 0, 0, 0, 0, 0, 1])), Err(AddressError::NotAvailable)));
    let f = fallback_endpoint();
    assert_eq!(f.octets, [127, 0, 0, 1]);
    assert_eq!(f.port, 0);
}

#[test]
fn command_line_is_read() {
    assert!(matches!(parse_command_line(&args(&[]), "linux"), CliAction::MissingCommand));
    assert!(matches!(parse_command_line(&args(&["launch"]), "windows"), CliAction::Launch));
    match parse_command_line(&args(&["upload", "h:1", "f.txt"]), "linux") {
        CliAction::Upload { host, filepath, force } => {
            assert_eq!(host, "h:1");
            assert_eq!(filepath, "f.txt");
            assert!(!force);
        }
        _ => panic!("expected an upload"),
    }
    assert!(matches!(parse_command_line(&args(&["upload", "h", "f", "force"]), "macos"), CliAction::Upload { force: true, .. }));
    assert!(matches!(parse_command_line(&args(&["upload", "h", "f", "later"]), "linux"), CliAction::Unsupported));
    assert!(matches!(parse_command_line(&args(&["upload", "h", "f"]), "windows"), CliAction::Unsupported));
    assert!(matches!(parse_command_line(&args(&["download", "h", "f"]), "linux"), CliAction::Download { .. }));
    assert!(matches!(parse_command_line(&args(&["download", "h", "f"]), "freebsd"), CliAction::Unsupported));
    assert!(matches!(parse_command_line(&args(&["storage", "set", "/x"]), "linux"), CliAction::SetStorage { ref path } if path == "/x"));
    assert!(matches!(parse_command_line(&args(&["storage", "get"]), "linux"), CliAction::InvalidStorageCommand { ref word } if word == "get"));
    assert!(matches!(parse_command_line(&args(&["storage"]), "linux"), CliAction::InvalidStorageCommand { ref word } if word.is_empty()));
    assert!(matches!(parse_command_line(&args(&["fly"]), "linux"), CliAction::InvalidCommand { ref word } if word == "fly"));
}

#[test]
fn server_builds() {
    assert!(build().is_ok());
}

#[test]
fn decoded_buffer_starts_with_reencoding() {
    let mut buf = Vec::new();
    buf.extend(le(8));
    buf.extend(b"download");
    buf.extend(le(3));
    buf.extend(b"a/b");
    buf.extend(le(2));
    buf.extend([0u8, 1]);
    buf.extend(le(0));
    buf.extend([9u8; 20]);
    let p = decode_packet(&buf).expect("decodes");
    let again = encode_packet(&p);
    assert_eq!(&buf[..again.len()], &again[..]);
    assert_eq!(again.len(), buf.len() - 20);
}

#[test]
fn listener_tries_own_address_then_loopback() {
    let own = Endpoint { octets: [10, 0, 0, 7], port: 8080 };
    match next_bind(&own, 0) {
        BindStep::Bind(e) => {
            assert_eq!(e.octets, [10, 0, 0, 7]);
            assert_eq!(e.port, 8080);
        }
        BindStep::GiveUp => panic!("expected a bind"),
    }
    match next_bind(&own, 1) {
        BindStep::Bind(e) => {
            assert_eq!(e.octets, [127, 0, 0, 1]);
            assert_eq!(e.port, 0);
        }
        BindStep::GiveUp => panic!("expected a bind"),
    }
    assert!(matches!(next_bind(&own, 2), BindStep::GiveUp));
    assert!(matches!(next_bind(&own, 255), BindStep::GiveUp));
}
