use rbit::api::{
    add_request, added_line, check_add, check_login, dry_run_lines, intent_for_input, list_request,
    login_request, plan_add, upload_file_name, verbose_lines, AddPlan, ClientError, Method, RequestBody,
    RequestIntent,
};
use rbit::format::{bytes_human, percent};
use rbit::listing::{display_row, display_rows, keeps, progress_text, render_listing, Progress, TorrentRecord};
use rbit::settings::{normalize_host, resolve, resolve_save_path, CliOverrides, FileConfig, ServerSection, Settings};
use rbit::text::{decimal_text, prefix_text, truncate};

fn s(v: &str) -> String {
    v.to_string()
}

fn no_cli() -> CliOverrides {
    CliOverrides { host: None, username: None, password: None, dry_run: false, verbose: false }
}

fn settings(host: &str, user: Option<&str>, pass: Option<&str>, dry_run: bool) -> Settings {
    Settings {
        host: s(host),
        username: user.map(s),
        password: pass.map(s),
        default_save_path: None,
        verbose: false,
        dry_run,
    }
}

fn record(name: &str, hash: &str, progress: Option<Progress>, dl: Option<u64>, up: Option<u64>) -> TorrentRecord {
    TorrentRecord { name: s(name), hash: s(hash), state: s("downloading"), progress, download_rate: dl, upload_rate: up }
}

#[test]
fn rate_formatting_examples() {
    assert_eq!(bytes_human(0), "0 B/s");
    assert_eq!(bytes_human(2048), "2.00 KB/s");
    assert_eq!(bytes_human(1_073_741_824), "1.00 GB/s");
}

#[test]
fn rate_formatting_units_and_rounding() {
    assert_eq!(bytes_human(1023), "1023 B/s");
    assert_eq!(bytes_human(1024), "1.00 KB/s");
    assert_eq!(bytes_human(1536), "1.50 KB/s");
    assert_eq!(bytes_human(1152), "1.12 KB/s");
    assert_eq!(bytes_human(1_048_575), "1024.00 KB/s");
    assert_eq!(bytes_human(1_048_576), "1.00 MB/s");
    assert_eq!(bytes_human(5 * 1_048_576 + 524_288), "5.50 MB/s");
    assert_eq!(bytes_human(u64::MAX), "17179869184.00 GB/s");
}

#[test]
fn decimal_rendering() {
    assert_eq!(decimal_text(0), "0");
    assert_eq!(decimal_text(9), "9");
    assert_eq!(decimal_text(10), "10");
    assert_eq!(decimal_text(18_446_744_073_709_551_615), "18446744073709551615");
}

#[test]
fn name_truncation() {
    let forty = "a".repeat(40);
    let forty_one = "b".repeat(41);
    assert_eq!(truncate(&forty, 40), forty);
    assert_eq!(truncate(&forty_one, 40), format!("{}...", "b".repeat(40)));
    assert_eq!(truncate("", 40), "");
}

#[test]
fn truncation_counts_characters() {
    let name = "é".repeat(41);
    assert_eq!(truncate(&name, 40), format!("{}...", "é".repeat(40)));
}

#[test]
fn short_id_prefix() {
    assert_eq!(prefix_text("0123456789abcdef0123456789abcdef01234567", 8), "01234567");
    assert_eq!(prefix_text("abc", 8), "abc");
}

#[test]
fn progress_cells() {
    assert_eq!(percent(505), "50.5%");
    assert_eq!(percent(1000), "100.0%");
    assert_eq!(percent(0), "0.0%");
    assert_eq!(progress_text(&None), "-");
    assert_eq!(progress_text(&Some(Progress { permille: 7, complete: false })), "0.7%");
}

#[test]
fn host_normalization() {
    assert_eq!(normalize_host("http://x:8080/"), "http://x:8080");
    assert_eq!(normalize_host("http://x:8080///"), "http://x:8080");
    assert_eq!(normalize_host("http://x:8080"), "http://x:8080");
    let once = normalize_host("http://x:8080//");
    assert_eq!(normalize_host(&once), once);
    assert_eq!(normalize_host("///"), "");
}

#[test]
fn missing_config_uses_default_host() {
    let r = resolve(&no_cli(), &FileConfig::empty());
    assert_eq!(r.host, "http://127.0.0.1:8080");
    assert_eq!(r.username, None);
    assert_eq!(r.password, None);
    assert_eq!(r.default_save_path, None);
}

#[test]
fn command_line_overrides_file() {
    let file = FileConfig {
        default_save_path: Some(s("/data")),
        qbittorrent: Some(ServerSection { host: s("http://file:1/"), username: Some(s("fu")), password: Some(s("fp")) }),
    };
    let cli = CliOverrides { host: Some(s("http://cli:2//")), username: Some(s("cu")), password: None, dry_run: true, verbose: true };
    let r = resolve(&cli, &file);
    assert_eq!(r.host, "http://cli:2");
    assert_eq!(r.username, Some(s("cu")));
    assert_eq!(r.password, Some(s("fp")));
    assert_eq!(r.default_save_path, Some(s("/data")));
    assert!(r.dry_run);
    assert!(r.verbose);
}

#[test]
fn file_overrides_defaults() {
    let file = FileConfig {
        default_save_path: None,
        qbittorrent: Some(ServerSection { host: s("http://file:1/"), username: None, password: None }),
    };
    let r = resolve(&no_cli(), &file);
    assert_eq!(r.host, "http://file:1");
    assert_eq!(r.username, None);
}

#[test]
fn save_path_precedence() {
    let mut st = settings("h", None, None, false);
    assert_eq!(resolve_save_path(Some(s("/dest")), &st, s("/cwd")), "/dest");
    assert_eq!(resolve_save_path(None, &st, s("/cwd")), "/cwd");
    st.default_save_path = Some(s("/cfg"));
    assert_eq!(resolve_save_path(None, &st, s("/cwd")), "/cfg");
    assert_eq!(resolve_save_path(Some(s("/dest")), &st, s("/cwd")), "/dest");
}

#[test]
fn no_login_without_both_credentials() {
    assert!(login_request(&settings("http://h", None, None, false)).is_none());
    assert!(login_request(&settings("http://h", Some("u"), None, false)).is_none());
    assert!(login_request(&settings("http://h", None, Some("p"), false)).is_none());
}

#[test]
fn login_request_with_credentials() {
    let q = login_request(&settings("http://h", Some("u"), Some("p"), false)).unwrap();
    assert_eq!(q.method, Method::Post);
    assert_eq!(q.url, "http://h/api/v2/auth/login");
    match q.body {
        RequestBody::Form(f) => assert_eq!(f, vec![(s("username"), s("u")), (s("password"), s("p"))]),
        _ => panic!("login must send a form"),
    }
}

#[test]
fn login_body_check() {
    assert!(check_login(s("Ok.")).is_ok());
    match check_login(s("Fails.")) {
        Err(ClientError::Auth { body }) => assert_eq!(body, "Fails."),
        other => panic!("unexpected {:?}", other),
    }
    assert!(check_login(s("Ok")).is_err());
}

#[test]
fn add_status_check() {
    assert!(check_add(200, s("Ok.")).is_ok());
    assert!(check_add(299, s("")).is_ok());
    match check_add(415, s("bad torrent")) {
        Err(ClientError::Rejected { status, body }) => {
            assert_eq!(status, 415);
            assert_eq!(body, "bad torrent");
        }
        other => panic!("unexpected {:?}", other),
    }
    assert!(check_add(300, s("")).is_err());
    assert!(check_add(199, s("")).is_err());
}

#[test]
fn input_kind_selection() {
    assert!(matches!(intent_for_input(s("magnet:?xt=urn:btih:ABC"), s("/d")), RequestIntent::AddMagnet { .. }));
    assert!(matches!(intent_for_input(s("file.torrent"), s("/d")), RequestIntent::AddFile { .. }));
    assert!(matches!(intent_for_input(s("magnet"), s("/d")), RequestIntent::AddFile { .. }));
}

#[test]
fn upload_names() {
    assert_eq!(upload_file_name("/tmp/a.torrent"), "a.torrent");
    assert_eq!(upload_file_name("b.torrent"), "b.torrent");
    assert_eq!(upload_file_name("/"), "upload.torrent");
    assert_eq!(upload_file_name(".."), "upload.torrent");
}

#[test]
fn magnet_add_request() {
    let intent = RequestIntent::AddMagnet { uri: s("magnet:?xt=urn:btih:ABC"), save_path: s("/d") };
    let q = add_request(&intent, "http://h");
    assert_eq!(q.url, "http://h/api/v2/torrents/add");
    assert_eq!(q.method, Method::Post);
    match q.body {
        RequestBody::Form(f) => assert_eq!(f, vec![(s("urls"), s("magnet:?xt=urn:btih:ABC")), (s("savepath"), s("/d"))]),
        _ => panic!("magnet add must send a form"),
    }
}

#[test]
fn file_add_request() {
    let intent = RequestIntent::AddFile { path: s("/tmp/x.torrent"), save_path: s("/d") };
    let q = add_request(&intent, "http://h");
    assert_eq!(q.url, "http://h/api/v2/torrents/add");
    match q.body {
        RequestBody::Multipart { file_field, file_path, file_name, text } => {
            assert_eq!(file_field, "torrents");
            assert_eq!(file_path, "/tmp/x.torrent");
            assert_eq!(file_name, "x.torrent");
            assert_eq!(text, vec![(s("savepath"), s("/d"))]);
        }
        _ => panic!("file add must send a multipart form"),
    }
}

#[test]
fn dry_run_magnet_scenario() {
    let st = resolve(&CliOverrides { dry_run: true, ..no_cli() }, &FileConfig::empty());
    let save = resolve_save_path(None, &st, s("/work/dir"));
    assert_eq!(save, "/work/dir");
    let intent = intent_for_input(s("magnet:?xt=urn:btih:ABC"), save);
    match plan_add(&intent, &st) {
        AddPlan::DryRun(lines) => {
            assert_eq!(lines[0], "[dry-run] POST http://127.0.0.1:8080/api/v2/torrents/add");
            assert_eq!(lines[1], "[dry-run] form params: urls=magnet:?xt=urn:btih:ABC, savepath=/work/dir");
            assert!(lines.iter().any(|l| l.contains("magnet:?xt=urn:btih:ABC") && l.contains("/work/dir")));
        }
        AddPlan::Send(_) => panic!("dry run must send nothing"),
    }
}

#[test]
fn dry_run_file_lines() {
    let intent = RequestIntent::AddFile { path: s("a.torrent"), save_path: s("/d") };
    let lines = dry_run_lines(&intent, "http://h");
    assert_eq!(lines, vec![s("[dry-run] POST http://h/api/v2/torrents/add"), s("[dry-run] file: a.torrent"), s("[dry-run] savepath: /d")]);
}

#[test]
fn real_add_plans_a_request() {
    let intent = RequestIntent::AddMagnet { uri: s("magnet:?x"), save_path: s("/d") };
    assert!(matches!(plan_add(&intent, &settings("http://h", None, None, false)), AddPlan::Send(_)));
}

#[test]
fn list_request_url() {
    let q = list_request(&settings("http://h", None, None, false));
    assert_eq!(q.method, Method::Get);
    assert_eq!(q.url, "http://h/api/v2/torrents/info?filter=all");
    assert!(matches!(q.body, RequestBody::Empty));
}

#[test]
fn active_filter() {
    let done = record("done", "aaaaaaaaaa", Some(Progress { permille: 1000, complete: true }), Some(0), Some(0));
    let half = record("half", "bbbbbbbbbb", Some(Progress { permille: 500, complete: false }), Some(0), Some(0));
    let seeding = record("seed", "cccccccccc", Some(Progress { permille: 1000, complete: true }), Some(0), Some(10));
    let unknown = record("unk", "dddddddddd", None, None, None);
    assert!(!keeps(&done, false));
    assert!(keeps(&done, true));
    assert!(keeps(&half, false));
    assert!(keeps(&half, true));
    assert!(keeps(&seeding, false));
    assert!(keeps(&unknown, false));
    let records = vec![done, half, seeding, unknown];
    let rows = display_rows(&records, false);
    let names: Vec<&str> = rows.iter().map(|r| r.name.as_str()).collect();
    assert_eq!(names, vec!["half", "seed", "unk"]);
    assert_eq!(display_rows(&records, true).len(), 4);
}

#[test]
fn row_cells() {
    let r = record(&"n".repeat(41), "0123456789abcdef", Some(Progress { permille: 505, complete: false }), Some(2048), None);
    let d = display_row(&r);
    assert_eq!(d.short_id, "01234567");
    assert_eq!(d.name, format!("{}...", "n".repeat(40)));
    assert_eq!(d.status, "downloading");
    assert_eq!(d.progress, "50.5%");
    assert_eq!(d.download, "2.00 KB/s");
    assert_eq!(d.upload, "0 B/s");
}

#[test]
fn listing_table() {
    let records = vec![
        record("alpha", "0123456789", Some(Progress { permille: 500, complete: false }), Some(0), Some(0)),
        record("beta", "fedcba9876", Some(Progress { permille: 1000, complete: true }), Some(0), Some(0)),
    ];
    let text = render_listing(&records, false);
    let lines: Vec<&str> = text.lines().collect();
    assert_eq!(lines.len(), 3);
    assert!(lines[0].contains("id") && lines[0].contains("progress") && lines[0].contains("dl"));
    assert!(lines[1].starts_with('-'));
    assert!(lines[2].contains("01234567") && lines[2].contains("alpha") && lines[2].contains("50.0%"));
    assert!(!text.contains("beta"));
    assert_eq!(render_listing(&records, true).lines().count(), 4);
}

#[test]
fn verbose_and_result_lines() {
    let v = verbose_lines("http://h/api/v2/auth/login", "200 OK", "Ok.");
    assert_eq!(v, vec![s("[verbose] POST http://h/api/v2/auth/login -> 200 OK"), s("[verbose] response: Ok.")]);
    assert_eq!(added_line("/d"), "Added to qBittorrent (destination: /d)");
}
