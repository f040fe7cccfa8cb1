use dumahhfiles::config::{Config, ConfigSource};
use dumahhfiles::error::{DumAhhError, ReplyStatus};
use dumahhfiles::request::{
    content_disposition, next_step, start_download, Action, DownloadForm, Event, Phase,
};

fn config(password: Option<&str>) -> Config {
    Config::from_source(ConfigSource {
        root_dir: None,
        internal_host: None,
        internal_port: None,
        external_protocol: None,
        external_host: None,
        max_filename_length: None,
        max_on_disk_storage: Some("1000".to_string()),
        max_file_size: Some("300".to_string()),
        concurrent_downloads: None,
        requests_per_minute: None,
        password: password.map(|p| p.to_string()),
        yt_dlp_path: None,
        cookies_file: None,
        version: "v".to_string(),
    })
}

fn form(password: Option<&str>) -> DownloadForm {
    DownloadForm { url: "https://v.example/x".to_string(), password: password.map(|p| p.to_string()) }
}

fn run(c: &Config, f: &DownloadForm, events: Vec<Event<String>>) -> Vec<Action<String>> {
    let (mut phase, first) = start_download(c, f, Ok(()));
    let mut actions = vec![first];
    for e in events {
        let (p, a) = next_step(c, phase, e);
        phase = p;
        actions.push(a);
    }
    actions
}

fn refuse(status: ReplyStatus, error: DumAhhError) -> Action<String> {
    Action::Refuse { status, error }
}

#[test]
fn wrong_or_missing_password_is_refused() {
    let c = config(Some("secret"));
    let unauthorized = refuse(ReplyStatus::Unauthorized, DumAhhError::WrongPassword);
    assert_eq!(start_download(&c, &form(Some("guess")), Ok(())), (Phase::Done, unauthorized.clone()));
    assert_eq!(start_download(&c, &form(None), Ok(())), (Phase::Done, unauthorized.clone()));
    assert_eq!(start_download(&c, &form(Some("secret")), Ok(())), (Phase::CheckingStorage, Action::ReadUsage));
    assert_eq!(ReplyStatus::Unauthorized.code(), 401);
}

#[test]
fn without_password_every_request_passes() {
    let c = config(None);
    assert_eq!(start_download(&c, &form(None), Ok(())), (Phase::CheckingStorage, Action::ReadUsage));
    assert_eq!(start_download(&c, &form(Some("x")), Ok(())), (Phase::CheckingStorage, Action::ReadUsage));
}

#[test]
fn refused_password_does_no_outside_work() {
    let c = config(Some("secret"));
    let acts = run(&c, &form(Some("no")), vec![Event::Usage { used: 0 }, Event::Reserved]);
    for a in acts {
        assert!(matches!(a, Action::Refuse { .. }));
    }
}

#[test]
fn known_size_flow_reserves_then_releases_the_same() {
    let c = config(None);
    let acts = run(
        &c,
        &form(None),
        vec![
            Event::Usage { used: 0 },
            Event::SizeProbed { size: Some(100) },
            Event::Usage { used: 10 },
            Event::Reserved,
            Event::Named { name: Ok("clip".to_string()) },
            Event::Downloaded { outcome: Ok(()) },
            Event::Located { outcome: Ok(()) },
            Event::Served { ok: true },
        ],
    );
    assert_eq!(
        acts,
        vec![
            Action::ReadUsage,
            Action::ProbeSize,
            Action::ReadUsage,
            Action::Reserve { size: 100 },
            Action::FetchName,
            Action::Download { prefix: "clip".to_string() },
            Action::Locate { prefix: "clip".to_string() },
            Action::Serve,
            Action::Reply { header: "attachment; filename=\"clip\"".to_string(), add: 0, release: 100 },
        ]
    );
}

#[test]
fn unknown_size_flow_measures_the_file() {
    let c = config(None);
    let acts = run(
        &c,
        &form(None),
        vec![
            Event::Usage { used: 999 },
            Event::SizeProbed { size: None },
            Event::Named { name: Ok("a".to_string()) },
            Event::Downloaded { outcome: Ok(()) },
            Event::Located { outcome: Ok(()) },
            Event::Served { ok: true },
            Event::Measured { size: Some(5000) },
        ],
    );
    assert_eq!(
        acts.last().unwrap(),
        &Action::Reply { header: "attachment; filename=\"a\"".to_string(), add: 5000, release: 5000 }
    );
    assert_eq!(acts[5], Action::Serve);
    assert_eq!(acts[6], Action::Measure);
}

#[test]
fn full_storage_is_refused() {
    let c = config(None);
    let full = refuse(ReplyStatus::InsufficientStorage, DumAhhError::OutOfStorage);
    let acts = run(&c, &form(None), vec![Event::Usage { used: 1000 }]);
    assert_eq!(acts[1], full);
    let acts = run(&c, &form(None), vec![Event::Usage { used: 5000 }]);
    assert_eq!(acts[1], full);
    let acts = run(
        &c,
        &form(None),
        vec![Event::Usage { used: 0 }, Event::SizeProbed { size: Some(200) }, Event::Usage { used: 800 }],
    );
    assert_eq!(acts[3], full);
    let acts = run(
        &c,
        &form(None),
        vec![Event::Usage { used: 0 }, Event::SizeProbed { size: Some(200) }, Event::Usage { used: 799 }],
    );
    assert_eq!(acts[3], Action::Reserve { size: 200 });
    let acts = run(
        &c,
        &form(None),
        vec![Event::Usage { used: 0 }, Event::SizeProbed { size: Some(usize::MAX) }, Event::Usage { used: 1 }],
    );
    assert_eq!(acts[3], full);
}

#[test]
fn too_big_file_is_refused() {
    let c = config(None);
    let acts = run(
        &c,
        &form(None),
        vec![Event::Usage { used: 0 }, Event::SizeProbed { size: Some(301) }, Event::Usage { used: 0 }],
    );
    assert_eq!(acts[3], refuse(ReplyStatus::InsufficientStorage, DumAhhError::FileTooBig));
    let acts = run(
        &c,
        &form(None),
        vec![Event::Usage { used: 0 }, Event::SizeProbed { size: Some(300) }, Event::Usage { used: 0 }],
    );
    assert_eq!(acts[3], Action::Reserve { size: 300 });
}

fn opening() -> Vec<Event<String>> {
    vec![Event::Usage { used: 0 }, Event::SizeProbed { size: None }]
}

#[test]
fn failures_after_naming_are_reported() {
    let c = config(None);
    let mut evs = opening();
    evs.push(Event::Named { name: Err(DumAhhError::DownloadFailed) });
    assert_eq!(
        run(&c, &form(None), evs).last().unwrap(),
        &refuse(ReplyStatus::InternalServerError, DumAhhError::DownloadFailed)
    );
    let mut evs = opening();
    evs.push(Event::Named { name: Ok("p".to_string()) });
    evs.push(Event::Downloaded { outcome: Err(DumAhhError::DownloadFailed) });
    assert_eq!(
        run(&c, &form(None), evs).last().unwrap(),
        &refuse(ReplyStatus::InternalServerError, DumAhhError::DownloadFailed)
    );
    let mut evs = opening();
    evs.push(Event::Named { name: Ok("p".to_string()) });
    evs.push(Event::Downloaded { outcome: Ok(()) });
    evs.push(Event::Located { outcome: Err(DumAhhError::Internal) });
    assert_eq!(
        run(&c, &form(None), evs).last().unwrap(),
        &refuse(ReplyStatus::InternalServerError, DumAhhError::Internal)
    );
    let mut evs = opening();
    evs.push(Event::Named { name: Ok("p".to_string()) });
    evs.push(Event::Downloaded { outcome: Ok(()) });
    evs.push(Event::Located { outcome: Ok(()) });
    evs.push(Event::Served { ok: false });
    assert_eq!(
        run(&c, &form(None), evs).last().unwrap(),
        &refuse(ReplyStatus::NotFound, DumAhhError::FileNotFound)
    );
    let mut evs = opening();
    evs.push(Event::Named { name: Ok("p".to_string()) });
    evs.push(Event::Downloaded { outcome: Ok(()) });
    evs.push(Event::Located { outcome: Ok(()) });
    evs.push(Event::Served { ok: true });
    evs.push(Event::Measured { size: None });
    assert_eq!(
        run(&c, &form(None), evs).last().unwrap(),
        &refuse(ReplyStatus::InternalServerError, DumAhhError::Internal)
    );
}

#[test]
fn name_that_cannot_be_a_header_is_an_internal_failure() {
    let c = config(None);
    let acts = run(
        &c,
        &form(None),
        vec![
            Event::Usage { used: 0 },
            Event::SizeProbed { size: None },
            Event::Named { name: Ok("bad\nname".to_string()) },
            Event::Downloaded { outcome: Ok(()) },
            Event::Located { outcome: Ok(()) },
            Event::Served { ok: true },
        ],
    );
    assert_eq!(acts.last().unwrap(), &refuse(ReplyStatus::InternalServerError, DumAhhError::Internal));
    let acts = run(
        &c,
        &form(None),
        vec![
            Event::Usage { used: 0 },
            Event::SizeProbed { size: Some(1) },
            Event::Usage { used: 0 },
            Event::Reserved,
            Event::Named { name: Ok("tab\there é".to_string()) },
            Event::Downloaded { outcome: Ok(()) },
            Event::Located { outcome: Ok(()) },
            Event::Served { ok: true },
        ],
    );
    assert!(matches!(acts.last().unwrap(), Action::Reply { .. }));
}

#[test]
fn reports_out_of_turn_end_the_request() {
    let c = config(None);
    let acts = run(&c, &form(None), vec![Event::Reserved, Event::Usage { used: 0 }]);
    assert_eq!(acts[1], refuse(ReplyStatus::InternalServerError, DumAhhError::Internal));
    assert_eq!(acts[2], refuse(ReplyStatus::InternalServerError, DumAhhError::Internal));
}

#[test]
fn content_disposition_text() {
    assert_eq!(content_disposition("my video"), "attachment; filename=\"my video\"");
    assert_eq!(content_disposition(""), "attachment; filename=\"\"");
}

#[test]
fn status_codes() {
    assert_eq!(ReplyStatus::Success.code(), 200);
    assert_eq!(ReplyStatus::NotFound.code(), 404);
    assert_eq!(ReplyStatus::InternalServerError.code(), 500);
    assert_eq!(ReplyStatus::InsufficientStorage.code(), 507);
}

#[test]
fn bad_address_is_refused_before_the_password() {
    let bad = refuse(ReplyStatus::BadRequest, DumAhhError::InvalidUrl);
    let c = config(Some("secret"));
    assert_eq!(start_download(&c, &form(Some("guess")), Err(DumAhhError::InvalidUrl)), (Phase::Done, bad.clone()));
    assert_eq!(start_download(&c, &form(Some("secret")), Err(DumAhhError::InvalidUrl)), (Phase::Done, bad.clone()));
    let c = config(None);
    let (phase, first) = start_download(&c, &form(None), Err(DumAhhError::InvalidUrl));
    assert_eq!(first, bad);
    let (_, next) = next_step(&c, phase, Event::Usage { used: 0 });
    assert!(matches!(next, Action::Refuse { .. }));
    assert_eq!(ReplyStatus::BadRequest.code(), 400);
}
