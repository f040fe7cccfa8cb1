use std::hash::{Hash, Hasher};
use dumahhfiles::config::{Config, ConfigSource};
use dumahhfiles::error::DumAhhError;
use dumahhfiles::hashing::hash_one;
use dumahhfiles::ytdlp::{
    choose_filesize, download_result, get_media_type, needs_approx_size, media_type_from, read_answer,
    read_metadata, size_from_answer, DownloadCommand, ProcessOutput,
};

fn config() -> Config {
    config_with_cookies(None)
}

fn config_with_cookies(cookies: Option<&str>) -> Config {
    Config::from_source(ConfigSource {
        root_dir: Some("/srv/dl".to_string()),
        internal_host: None,
        internal_port: None,
        external_protocol: None,
        external_host: None,
        max_filename_length: None,
        max_on_disk_storage: None,
        max_file_size: Some("5000".to_string()),
        concurrent_downloads: None,
        requests_per_minute: None,
        password: None,
        yt_dlp_path: Some("yt".to_string()),
        cookies_file: cookies.map(|c| c.to_string()),
        version: "v".to_string(),
    })
}

fn ran(out: &str) -> Option<ProcessOutput> {
    Some(ProcessOutput { success: true, stdout: out.as_bytes().to_vec() })
}

#[test]
fn from_url_builds_the_download_command() {
    let cmd = DownloadCommand::from_url(&config(), "https://v.example/x".to_string(), "clip".to_string());
    assert_eq!(cmd.prog, "yt");
    assert_eq!(
        cmd.args,
        vec![
            "--no-exec", "--abort-on-error", "-P", "/srv/dl", "--match-filters", "!is_live",
            "--no-playlist", "--max-filesize", "5000", "-o", "clip", "https://v.example/x",
        ]
    );
}

#[test]
fn new_command_has_no_arguments() {
    let cmd = DownloadCommand::new(&config());
    assert_eq!(cmd.prog, "yt");
    assert!(cmd.args.is_empty());
}

#[test]
fn query_commands() {
    let cmd = DownloadCommand::property_query(&config(), "u", "filesize");
    assert_eq!(
        cmd.args,
        vec!["--match-filters", "!is_live", "--no-playlist", "--max-filesize", "5000", "--print", "filesize", "u"]
    );
    let cmd = DownloadCommand::metadata_query(&config(), "u");
    assert_eq!(
        cmd.args,
        vec!["--dump-json", "--match-filters", "!is_live", "--no-playlist", "--max-filesize", "5000", "u"]
    );
}

#[test]
fn read_answer_trims_and_checks() {
    assert_eq!(read_answer(ran("  clip.mp4 \n")), Ok("clip.mp4".to_string()));
    assert_eq!(read_answer(ran("NA\n")), Err(DumAhhError::DownloadFailed));
    assert_eq!(read_answer(ran(" NA ")), Err(DumAhhError::DownloadFailed));
    assert_eq!(read_answer(ran("NAN")), Ok("NAN".to_string()));
    assert_eq!(read_answer(ran("")), Ok(String::new()));
    assert_eq!(read_answer(None), Err(DumAhhError::DownloadFailed));
    assert_eq!(
        read_answer(Some(ProcessOutput { success: false, stdout: b"123".to_vec() })),
        Err(DumAhhError::DownloadFailed)
    );
    assert_eq!(
        read_answer(Some(ProcessOutput { success: true, stdout: vec![0x31, 0xff] })),
        Err(DumAhhError::DownloadFailed)
    );
    assert_eq!(
        read_answer(Some(ProcessOutput { success: true, stdout: vec![0xed, 0xa0, 0x80] })),
        Err(DumAhhError::DownloadFailed)
    );
    assert_eq!(read_answer(ran("héllo wörld")), Ok("héllo wörld".to_string()));
}

#[test]
fn sizes_from_answers() {
    assert_eq!(size_from_answer(Ok("123".to_string())), Ok(123));
    assert_eq!(size_from_answer(Ok("12a".to_string())), Err(DumAhhError::DownloadFailed));
    assert_eq!(size_from_answer(Ok("-4".to_string())), Err(DumAhhError::DownloadFailed));
    assert_eq!(size_from_answer(Err(DumAhhError::Internal)), Err(DumAhhError::Internal));
    assert_eq!(size_from_answer(read_answer(ran("4096\n"))), Ok(4096));
}

#[test]
fn exact_size_is_preferred() {
    assert_eq!(choose_filesize(Ok(10), Some(Ok(20))), Ok(10));
    assert_eq!(choose_filesize(Ok(10), None), Ok(10));
    assert_eq!(choose_filesize(Err(DumAhhError::DownloadFailed), Some(Ok(20))), Ok(20));
    assert_eq!(
        choose_filesize(Err(DumAhhError::DownloadFailed), Some(Err(DumAhhError::Internal))),
        Err(DumAhhError::DownloadFailed)
    );
    assert_eq!(choose_filesize(Err(DumAhhError::DownloadFailed), None), Err(DumAhhError::DownloadFailed));
}

#[test]
fn download_results() {
    assert!(download_result(Some(true)).is_ok());
    assert_eq!(download_result(Some(false)).unwrap_err(), DumAhhError::DownloadFailed);
    assert_eq!(download_result(None).unwrap_err(), DumAhhError::DownloadFailed);
}

#[test]
fn metadata_and_media_type() {
    let v = read_metadata(ran(" {\"media_type\": \"video\", \"id\": 3}\n")).unwrap();
    assert_eq!(get_media_type(&v), Ok("video".to_string()));
    let v = read_metadata(ran("{\"media_type\": 5}")).unwrap();
    assert_eq!(get_media_type(&v), Err(DumAhhError::Internal));
    let v = read_metadata(ran("[1, 2]")).unwrap();
    assert_eq!(get_media_type(&v), Err(DumAhhError::Internal));
    assert_eq!(read_metadata(ran("not json")).unwrap_err(), DumAhhError::Internal);
    assert_eq!(read_metadata(ran("NA")).unwrap_err(), DumAhhError::DownloadFailed);
    assert_eq!(read_metadata(None).unwrap_err(), DumAhhError::DownloadFailed);
}

#[test]
fn media_type_from_member() {
    assert_eq!(media_type_from(Some("audio".to_string())), Ok("audio".to_string()));
    assert_eq!(media_type_from(None), Err(DumAhhError::Internal));
}

#[test]
fn hash_one_matches_a_fresh_default_hasher() {
    let mut s = std::collections::hash_map::DefaultHasher::new();
    "abc".hash(&mut s);
    assert_eq!(hash_one(&"abc"), s.finish());
    assert_eq!(hash_one(&42u32), hash_one(&42u32));
    assert_ne!(hash_one(&"abc"), hash_one(&"abd"));
}

#[test]
fn cookies_file_is_given_to_every_ytdlp_run() {
    let c = config_with_cookies(Some("/etc/yt-cookies.txt"));
    let cmd = DownloadCommand::from_url(&c, "https://v.example/x".to_string(), "clip".to_string());
    assert_eq!(
        cmd.args,
        vec![
            "--no-exec", "--abort-on-error", "-P", "/srv/dl", "--cookies", "/etc/yt-cookies.txt",
            "--match-filters", "!is_live", "--no-playlist", "--max-filesize", "5000", "-o", "clip",
            "https://v.example/x",
        ]
    );
    let cmd = DownloadCommand::property_query(&c, "u", "filename");
    assert_eq!(
        cmd.args,
        vec![
            "--cookies", "/etc/yt-cookies.txt", "--match-filters", "!is_live", "--no-playlist",
            "--max-filesize", "5000", "--print", "filename", "u",
        ]
    );
    let cmd = DownloadCommand::metadata_query(&c, "u");
    assert_eq!(
        cmd.args,
        vec![
            "--dump-json", "--cookies", "/etc/yt-cookies.txt", "--match-filters", "!is_live",
            "--no-playlist", "--max-filesize", "5000", "u",
        ]
    );
}

#[test]
fn approximate_size_is_asked_only_without_exact_size() {
    assert!(!needs_approx_size(&Ok(10)));
    assert!(needs_approx_size(&Err(DumAhhError::DownloadFailed)));
}

#[test]
fn media_type_comes_from_the_printed_json() {
    let v = read_metadata(ran("{\"id\": \"a\", \"media_type\": \"livestream\"}")).unwrap();
    assert_eq!(get_media_type(&v), Ok("livestream".to_string()));
    let v = read_metadata(ran("{\"media_type\": \"short\", \"media_type\": \"clip\"}")).unwrap();
    assert_eq!(get_media_type(&v), Ok("clip".to_string()));
    let v = read_metadata(ran("\"media_type\"")).unwrap();
    assert_eq!(get_media_type(&v), Err(DumAhhError::Internal));
}
