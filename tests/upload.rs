use file_uploader::client::{
    content_type, file_url, plan_upload, resolve_urls, upload_url, ClientError, LocalFile,
    Progress,
};
use file_uploader::ingest::{check_request, Ingest, RequestHead, ServerConfig, MAX_BODY};
use file_uploader::log::{log_line, log_line_now, statement};
use file_uploader::naming::{join_path, name_for, stored_name, stored_path, ID_LEN};
use file_uploader::record::{create_record, record_for, record_now, Record, Records};
use file_uploader::rejection::{translate, Failure};
use file_uploader::timestamp::CalendarTime;
use file_uploader::wire::{join_paths, split_words};
use std::collections::HashSet;

fn day() -> CalendarTime {
    CalendarTime { year: 2024, month: 3, day: 7, hour: 9, minute: 5, second: 2 }
}

fn config(secret: &str) -> ServerConfig {
    ServerConfig {
        secret: Some(secret.to_string()),
        storage_root: Some("/srv/files".to_string()),
        max_body: MAX_BODY,
    }
}

fn id_part(path: &str) -> String {
    let name = path.rsplit('/').next().unwrap();
    name.split('.').next().unwrap().to_string()
}

#[test]
fn bucket_is_zero_padded() {
    assert_eq!(day().bucket(), "2024/03/07");
    let early = CalendarTime { year: 987, month: 12, day: 31, hour: 0, minute: 0, second: 0 };
    assert_eq!(early.bucket(), "0987/12/31");
}

#[test]
fn stamp_is_month_day_year() {
    assert_eq!(day().stamp(), "03/07/2024 09:05:02");
}

#[test]
fn stored_name_keeps_extension() {
    assert_eq!(stored_name("abc", "notes.txt"), "abc.txt");
    assert_eq!(stored_name("abc", "archive.tar.gz"), "abc.gz");
    assert_eq!(stored_name("abc", "b"), "abc");
    assert_eq!(stored_name("abc", ".hidden"), "abc");
    assert_eq!(stored_name("abc", "dot."), "abc");
}

#[test]
fn stored_path_uses_placeholder_name() {
    assert_eq!(stored_path("2024/03/07", "xyz", Some("a.bin")), "2024/03/07/xyz.bin");
    assert_eq!(stored_path("2024/03/07", "xyz", None), "2024/03/07/xyz.txt");
}

#[test]
fn name_for_has_bucket_identifier_and_extension() {
    let p = name_for(Some("notes.txt"), &day());
    assert!(p.starts_with("2024/03/07/"));
    assert!(p.ends_with(".txt"));
    let id = id_part(&p);
    assert_eq!(id.len(), ID_LEN);
    assert!(id.chars().all(|c| c.is_ascii_alphanumeric() || c == '_' || c == '-'));
    let q = name_for(Some("b"), &day());
    assert!(!q["2024/03/07/".len()..].contains('.'));
}

#[test]
fn identifiers_do_not_collide() {
    let mut seen = HashSet::new();
    for _ in 0..20000 {
        let p = name_for(Some("x.bin"), &day());
        assert!(seen.insert(id_part(&p)));
    }
}

#[test]
fn join_path_follows_path_rules() {
    assert_eq!(join_path("http://host", "files"), "http://host/files");
    assert_eq!(join_path("http://host/", "files"), "http://host/files");
    assert_eq!(join_path("", "files"), "files");
    assert_eq!(join_path("base", "/abs"), "/abs");
}

#[test]
fn missing_header_is_bad_request() {
    let head = RequestHead { access_key: None, body_len: 10 };
    let f = check_request(&head, &config("s3")).unwrap_err();
    assert!(matches!(f, Failure::MissingHeader));
    let r = translate(&f);
    assert_eq!(r.status, 400);
    assert_eq!(r.message, "BAD_REQUEST");
}

#[test]
fn wrong_key_is_unauthorized() {
    let head = RequestHead { access_key: Some("nope".to_string()), body_len: 10 };
    let f = check_request(&head, &config("s3")).unwrap_err();
    let r = translate(&f);
    assert_eq!(r.status, 401);
    assert_eq!(r.message, "Unauthorized");
    assert!(r.warning.is_none());
}

#[test]
fn oversized_body_is_bad_request() {
    let head = RequestHead { access_key: Some("s3".to_string()), body_len: MAX_BODY + 1 };
    let f = check_request(&head, &config("s3")).unwrap_err();
    assert!(matches!(f, Failure::PayloadTooLarge));
    assert_eq!(translate(&f).status, 400);
    let ok = RequestHead { access_key: Some("s3".to_string()), body_len: MAX_BODY };
    assert!(check_request(&ok, &config("s3")).is_ok());
}

#[test]
fn unset_secret_is_system_error() {
    let head = RequestHead { access_key: Some("s3".to_string()), body_len: 1 };
    let cfg = ServerConfig { secret: None, storage_root: None, max_body: MAX_BODY };
    let f = check_request(&head, &cfg).unwrap_err();
    let r = translate(&f);
    assert_eq!(r.status, 500);
    assert_eq!(r.message, "SYS_ERROR");
    assert_eq!(r.warning.as_deref(), Some("ACCESS_KEY undefined"));
    assert!(Ingest::start(&cfg).is_err());
}

#[test]
fn every_failure_has_one_reply() {
    let cases = vec![
        (Failure::NotFound, 404, "NOT_FOUND"),
        (Failure::MissingHeader, 400, "BAD_REQUEST"),
        (Failure::PayloadTooLarge, 400, "BAD_REQUEST"),
        (Failure::Unauthorized, 401, "Unauthorized"),
        (Failure::MethodNotAllowed, 405, "Invalid Request Method"),
        (Failure::System("disk".to_string()), 500, "SYS_ERROR"),
        (Failure::Other, 500, "INTERNAL_SERVER_ERROR"),
    ];
    for (f, status, msg) in cases {
        let r = translate(&f);
        assert_eq!(r.status, status);
        assert_eq!(r.message, msg);
    }
}

#[test]
fn ingest_places_under_root_and_bucket() {
    let ing = Ingest::start(&config("s3")).unwrap();
    let p = ing.place_with("2024/03/07", "abc", Some("notes.txt"));
    assert_eq!(p.relative, "2024/03/07/abc.txt");
    assert_eq!(p.bucket_dir, "/srv/files/2024/03/07");
    assert_eq!(p.target, "/srv/files/2024/03/07/abc.txt");
    let q = ing.place(Some("a.bin"), &day());
    assert!(q.relative.starts_with("2024/03/07/") && q.relative.ends_with(".bin"));
}

#[test]
fn ingest_body_keeps_arrival_order() {
    let mut ing = Ingest::start(&config("s3")).unwrap();
    assert_eq!(ing.body(), "");
    ing.stored("2024/03/07/one.bin".to_string());
    ing.stored("2024/03/07/two".to_string());
    assert_eq!(ing.body(), "2024/03/07/one.bin 2024/03/07/two");
    assert_eq!(ing.summary(), "Uploaded 2 file[s]");
}

#[test]
fn split_reverses_join() {
    let paths = vec!["a/b.txt".to_string(), "c/d".to_string(), "e".to_string()];
    assert_eq!(split_words(&join_paths(&paths)), paths);
    assert_eq!(split_words("  x\ty \n"), vec!["x".to_string(), "y".to_string()]);
    assert!(split_words("").is_empty());
}

#[test]
fn plan_rejects_missing_file_first() {
    let files = vec![
        LocalFile { exists: true, name: Some("a.bin".to_string()), len: 3 },
        LocalFile { exists: false, name: Some("gone.txt".to_string()), len: 0 },
        LocalFile { exists: true, name: None, len: 0 },
    ];
    assert!(matches!(plan_upload(&files), Err(ClientError::MissingFile)));
    let named = vec![LocalFile { exists: true, name: None, len: 1 }];
    assert!(matches!(plan_upload(&named), Err(ClientError::InvalidFileName)));
}

#[test]
fn plan_describes_each_file() {
    let files = vec![
        LocalFile { exists: true, name: Some("notes.txt".to_string()), len: 10 },
        LocalFile { exists: true, name: Some("b".to_string()), len: 4 },
    ];
    let parts = plan_upload(&files).unwrap();
    assert_eq!(parts.len(), 2);
    assert_eq!(parts[0].file_name, "notes.txt");
    assert_eq!(parts[0].length, 10);
    assert_eq!(parts[0].content_type, "text/plain");
    assert_eq!(parts[1].content_type, "text/plain");
    assert_eq!(content_type("pic.png"), "image/png");
}

#[test]
fn progress_stops_at_total() {
    let mut p = Progress::new(10);
    assert!(!p.advance(4));
    assert_eq!(p.sent, 4);
    assert!(p.advance(9));
    assert_eq!(p.sent, 10);
    let mut z = Progress::new(5);
    assert!(z.advance(u64::MAX));
    assert_eq!(z.sent, 5);
}

#[test]
fn single_text_file_resolves_to_one_url() {
    let base = "http://host:8080";
    assert_eq!(upload_url(base), "http://host:8080/upload");
    let rel = name_for(Some("notes.txt"), &day());
    let urls = resolve_urls(base, true, &rel, 1).unwrap();
    assert_eq!(urls, vec![format!("{}/files/{}", base, rel)]);
    let mut store = Records::new();
    create_record(&mut store, record_for(&day(), "notes.txt", &urls[0]));
    assert_eq!(store.records.len(), 1);
    assert_eq!(store.records[0].original_file_name, "notes.txt");
    assert_eq!(store.records[0].url_location, urls[0]);
    assert_eq!(store.records[0].time, "03/07/2024 09:05:02");
}

#[test]
fn two_files_keep_their_order() {
    let base = "http://host";
    let mut ing = Ingest::start(&config("s3")).unwrap();
    let a = ing.place(Some("a.bin"), &day());
    let b = ing.place(Some("b"), &day());
    ing.stored(a.relative.clone());
    ing.stored(b.relative.clone());
    let body = ing.body();
    let parts: Vec<&str> = body.split(' ').collect();
    assert_eq!(parts.len(), 2);
    assert!(parts[0].ends_with(".bin"));
    assert!(!parts[1]["2024/03/07/".len()..].contains('.'));
    let urls = resolve_urls(base, true, &body, 2).unwrap();
    assert_eq!(urls[0], file_url(base, &a.relative));
    assert_eq!(urls[1], file_url(base, &b.relative));
}

#[test]
fn reply_errors_are_told_apart() {
    match resolve_urls("http://h", false, "Unauthorized", 1) {
        Err(ClientError::UploadFailed(m)) => assert_eq!(m, "Unauthorized"),
        _ => panic!("expected an upload failure"),
    }
    match resolve_urls("http://h", true, "a b", 1) {
        Err(ClientError::ProtocolMismatch { expected, received }) => {
            assert_eq!((expected, received), (1, 2))
        }
        _ => panic!("expected a mismatch"),
    }
}

#[test]
fn records_come_back_in_append_order() {
    let mut store = Records::new();
    for i in 0..5 {
        let r = Record {
            time: format!("t{}", i),
            original_file_name: format!("f{}", i),
            url_location: format!("u{}", i),
        };
        create_record(&mut store, r);
    }
    assert_eq!(store.records.len(), 5);
    for (i, r) in store.records.iter().enumerate() {
        assert_eq!(r.time, format!("t{}", i));
        assert_eq!(r.original_file_name, format!("f{}", i));
        assert_eq!(r.url_location, format!("u{}", i));
    }
}

#[test]
fn log_line_has_stamp_level_and_message() {
    assert_eq!(statement("warn", "disk full"), "[WARN] | disk full");
    assert_eq!(log_line(&day(), "info", "Uploaded 1 file[s]"), "03/07/2024 09:05:02 [INFO] | Uploaded 1 file[s]\n");
}

#[test]
fn years_outside_four_digits_carry_a_sign() {
    let bc = CalendarTime { year: -44, month: 3, day: 15, hour: 0, minute: 0, second: 0 };
    assert_eq!(bc.bucket(), "-44/03/15");
    let far = CalendarTime { year: 12345, month: 1, day: 2, hour: 0, minute: 0, second: 0 };
    assert_eq!(far.bucket(), "+12345/01/02");
    let zero = CalendarTime { year: 0, month: 1, day: 1, hour: 23, minute: 59, second: 59 };
    assert_eq!(zero.stamp(), "01/01/0000 23:59:59");
}

#[test]
fn clock_stamps_have_the_expected_shape() {
    let line = log_line_now("info", "hello");
    assert!(line.ends_with(" [INFO] | hello\n"));
    assert_eq!(line.len(), "MM/DD/YYYY HH:MM:SS".len() + " [INFO] | hello\n".len());
    let r = record_now("notes.txt", "http://h/files/x");
    assert_eq!(r.time.len(), "MM/DD/YYYY HH:MM:SS".len());
    assert_eq!(&r.time[2..3], "/");
    assert_eq!(r.original_file_name, "notes.txt");
    assert_eq!(r.url_location, "http://h/files/x");
}
