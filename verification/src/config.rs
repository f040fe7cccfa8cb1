use vstd::prelude::*;

use crate::text::{
    decimal_string, law_decimal_reads_back, parse_u16, parse_u64, parse_usize, spec_decimal,
    spec_parse_unsigned,
};

verus! {

/// What the environment gives for each setting of the service: the raw text of
/// each variable that is set, and the build's version text.
#[derive(Debug, Clone, PartialEq, Eq)]
pub struct ConfigSource {
    pub root_dir: Option<String>,
    pub internal_host: Option<String>,
    pub internal_port: Option<String>,
    pub external_protocol: Option<String>,
    pub external_host: Option<String>,
    pub max_filename_length: Option<String>,
    pub max_on_disk_storage: Option<String>,
    pub max_file_size: Option<String>,
    pub concurrent_downloads: Option<String>,
    pub requests_per_minute: Option<String>,
    pub password: Option<String>,
    pub yt_dlp_path: Option<String>,
    pub cookies_file: Option<String>,
    pub version: String,
}

/// The settings of the service.
#[derive(Debug, Clone, PartialEq, Eq)]
pub struct Config {
    pub root_dir: String,
    pub internal_host: String,
    pub internal_port: u16,
    pub external_protocol: String,
    pub external_host: String,
    pub max_filename_length: usize,
    pub max_on_disk_storage: usize,
    pub max_file_size: usize,
    pub concurrent_downlods: usize,
    pub version: String,
    pub requests_per_minute: u64,
    pub yt_dlp_path: String,
    pub password: Option<String>,
    pub cookies_file: Option<String>,
}

/// The text held by an optional string.
pub open spec fn opt_text(o: Option<String>) -> Option<Seq<char>> {
    match o {
        Some(v) => Some(v@),
        None => None,
    }
}

/// The text of a variable, or `default` where it is not set.
pub open spec fn text_or(raw: Option<String>, default: Seq<char>) -> Seq<char> {
    match raw {
        Some(v) => v@,
        None => default,
    }
}

/// Whether a variable is either unset or holds a number no larger than `max`.
pub open spec fn number_readable(raw: Option<String>, max: nat) -> bool {
    raw matches Some(v) ==> spec_parse_unsigned(v@, max) is Some
}

/// The number a variable holds, or `default` where it is not set.
pub open spec fn number_or(raw: Option<String>, max: nat, default: nat) -> nat {
    match raw {
        Some(v) => spec_parse_unsigned(v@, max)->0,
        None => default,
    }
}

/// The text of a variable where it is set and not empty.
pub open spec fn nonempty_text(raw: Option<String>) -> Option<Seq<char>> {
    match raw {
        Some(v) => if v@.len() > 0 { Some(v@) } else { None },
        None => None,
    }
}

/// `raw` as a text, or `default` where it is not set.
pub fn env_or_text(raw: Option<String>, default: &str) -> (r: String)
    ensures
        r@ == text_or(raw, default@),
{
    match raw {
        Some(v) => v,
        None => String::from_str(default),
    }
}

/// `raw` read as a `usize`, or `default` where it is not set.
pub fn env_or_usize(raw: Option<String>, default: usize) -> (r: usize)
    requires
        number_readable(raw, usize::MAX as nat),
    ensures
        r as nat == number_or(raw, usize::MAX as nat, default as nat),
{
    match raw {
        Some(v) => match parse_usize(v.as_str()) {
            Some(n) => n,
            None => default,
        },
        None => default,
    }
}

/// `raw` read as a `u16`, or `default` where it is not set.
pub fn env_or_u16(raw: Option<String>, default: u16) -> (r: u16)
    requires
        number_readable(raw, u16::MAX as nat),
    ensures
        r as nat == number_or(raw, u16::MAX as nat, default as nat),
{
    match raw {
        Some(v) => match parse_u16(v.as_str()) {
            Some(n) => n,
            None => default,
        },
        None => default,
    }
}

/// `raw` read as a `u64`, or `default` where it is not set.
pub fn env_or_u64(raw: Option<String>, default: u64) -> (r: u64)
    requires
        number_readable(raw, u64::MAX as nat),
    ensures
        r as nat == number_or(raw, u64::MAX as nat, default as nat),
{
    match raw {
        Some(v) => match parse_u64(v.as_str()) {
            Some(n) => n,
            None => default,
        },
        None => default,
    }
}

/// `raw` where it is set and not empty, otherwise nothing.
pub fn env_nonempty(raw: Option<String>) -> (r: Option<String>)
    ensures
        opt_text(r) == nonempty_text(raw),
{
    match raw {
        Some(v) => if v.as_str().is_empty() {
            None
        } else {
            Some(v)
        },
        None => None,
    }
}

impl ConfigSource {
    /// Whether every numeric variable that is set holds a number its setting can take.
    pub open spec fn spec_readable(&self) -> bool {
        &&& number_readable(self.internal_port, u16::MAX as nat)
        &&& number_readable(self.max_filename_length, usize::MAX as nat)
        &&& number_readable(self.max_on_disk_storage, usize::MAX as nat)
        &&& number_readable(self.max_file_size, usize::MAX as nat)
        &&& number_readable(self.concurrent_downloads, usize::MAX as nat)
        &&& number_readable(self.requests_per_minute, u64::MAX as nat)
    }

    /// Whether every numeric variable that is set holds a number its setting can take.
    pub fn readable(&self) -> (r: bool)
        ensures
            r == self.spec_readable(),
    {
        number_ok_u16(&self.internal_port) && number_ok_usize(&self.max_filename_length)
            && number_ok_usize(&self.max_on_disk_storage) && number_ok_usize(&self.max_file_size)
            && number_ok_usize(&self.concurrent_downloads) && number_ok_u64(
            &self.requests_per_minute,
        )
    }
}

fn number_ok_usize(raw: &Option<String>) -> (r: bool)
    ensures
        r == number_readable(*raw, usize::MAX as nat),
{
    match raw {
        Some(v) => parse_usize(v.as_str()).is_some(),
        None => true,
    }
}

fn number_ok_u16(raw: &Option<String>) -> (r: bool)
    ensures
        r == number_readable(*raw, u16::MAX as nat),
{
    match raw {
        Some(v) => parse_u16(v.as_str()).is_some(),
        None => true,
    }
}

fn number_ok_u64(raw: &Option<String>) -> (r: bool)
    ensures
        r == number_readable(*raw, u64::MAX as nat),
{
    match raw {
        Some(v) => parse_u64(v.as_str()).is_some(),
        None => true,
    }
}


/// The storage allowed on disk when no other amount is configured: 5 GiB.
pub const DEFAULT_MAX_ON_DISK_STORAGE: u64 = 5368709120u64;

impl Config {
    /// The settings that `src` gives, each setting that is not set taking its
    /// default: files under `./files`, listening on `0.0.0.0` port 3000, links
    /// formed as `http://0.0.0.0:3000`, names of at most 240 characters, 5 GiB of
    /// storage, files of at most 100 MiB, 3 downloads at a time, 30 requests a
    /// minute, the program `yt-dlp`, no password and no cookies file. An empty
    /// password or cookies file counts as none.
    pub fn from_source(src: ConfigSource) -> (r: Config)
        requires
            src.spec_readable(),
        ensures
            r.root_dir@ == text_or(src.root_dir, "./files"@),
            r.internal_host@ == text_or(src.internal_host, "0.0.0.0"@),
            r.internal_port as nat == number_or(src.internal_port, u16::MAX as nat, 3000),
            r.external_protocol@ == text_or(src.external_protocol, "http"@),
            r.external_host@ == text_or(src.external_host, "0.0.0.0:3000"@),
            r.max_filename_length as nat == number_or(
                src.max_filename_length,
                usize::MAX as nat,
                240,
            ),
            r.max_on_disk_storage as nat == number_or(
                src.max_on_disk_storage,
                usize::MAX as nat,
                (DEFAULT_MAX_ON_DISK_STORAGE as usize) as nat,
            ),
            r.max_file_size as nat == number_or(
                src.max_file_size,
                usize::MAX as nat,
                100 * 1024 * 1024,
            ),
            r.concurrent_downlods as nat == number_or(
                src.concurrent_downloads,
                usize::MAX as nat,
                3,
            ),
            r.requests_per_minute as nat == number_or(
                src.requests_per_minute,
                u64::MAX as nat,
                30,
            ),
            r.yt_dlp_path@ == text_or(src.yt_dlp_path, "yt-dlp"@),
            opt_text(r.password) == nonempty_text(src.password),
            opt_text(r.cookies_file) == nonempty_text(src.cookies_file),
            r.version@ == src.version@,
    {
        let password = env_nonempty(src.password);
        let cookies_file = env_nonempty(src.cookies_file);
        Config {
            root_dir: env_or_text(src.root_dir, "./files"),
            internal_host: env_or_text(src.internal_host, "0.0.0.0"),
            internal_port: env_or_u16(src.internal_port, 3000),
            external_protocol: env_or_text(src.external_protocol, "http"),
            external_host: env_or_text(src.external_host, "0.0.0.0:3000"),
            max_filename_length: env_or_usize(src.max_filename_length, 240),
            max_on_disk_storage: env_or_usize(
                src.max_on_disk_storage,
                DEFAULT_MAX_ON_DISK_STORAGE as usize,
            ),
            max_file_size: env_or_usize(src.max_file_size, 100 * 1024 * 1024),
            concurrent_downlods: env_or_usize(src.concurrent_downloads, 3),
            version: src.version,
            requests_per_minute: env_or_u64(src.requests_per_minute, 30),
            yt_dlp_path: env_or_text(src.yt_dlp_path, "yt-dlp"),
            password,
            cookies_file,
        }
    }
}


/// The texts of a list of strings.
pub open spec fn texts(v: Seq<String>) -> Seq<Seq<char>> {
    v.map_values(|s: String| s@)
}

/// The arguments that hand yt-dlp a cookies file, where one is configured.
pub open spec fn spec_cookie_args(cookies_file: Option<String>) -> Seq<Seq<char>> {
    match cookies_file {
        Some(f) => seq!["--cookies"@, f@],
        None => seq![],
    }
}

/// The arguments that keep yt-dlp to single, finished videos of at most
/// `max_file_size` bytes.
pub open spec fn spec_filter_args(max_file_size: usize) -> Seq<Seq<char>> {
    seq![
        "--match-filters"@,
        "!is_live"@,
        "--no-playlist"@,
        "--max-filesize"@,
        spec_decimal(max_file_size as nat),
    ]
}

/// The arguments that make yt-dlp stop at the first error, run no other
/// command, and store its files under `root_dir`.
pub open spec fn spec_base_args(root_dir: Seq<char>) -> Seq<Seq<char>> {
    seq!["--no-exec"@, "--abort-on-error"@, "-P"@, root_dir]
}

/// `protocol://host`: the address under which the service is reached.
pub open spec fn spec_domain(protocol: Seq<char>, host: Seq<char>) -> Seq<char> {
    protocol + "://"@ + host
}

impl Config {
    /// The arguments that hand yt-dlp the configured cookies file, if any.
    pub fn ytdlp_cookies(&self) -> (r: Vec<String>)
        ensures
            texts(r@) == spec_cookie_args(self.cookies_file),
    {
        let mut args: Vec<String> = Vec::new();
        match &self.cookies_file {
            Some(f) => {
                args.push(String::from_str("--cookies"));
                args.push(f.clone());
            },
            None => {},
        }
        assert(texts(args@) =~= spec_cookie_args(self.cookies_file));
        args
    }

    /// The arguments that filter what yt-dlp fetches, with the largest file size
    /// allowed.
    pub fn ytdlp_filter(&self) -> (r: Vec<String>)
        ensures
            texts(r@) == spec_filter_args(self.max_file_size),
    {
        let mut args: Vec<String> = Vec::new();
        args.push(String::from_str("--match-filters"));
        args.push(String::from_str("!is_live"));
        args.push(String::from_str("--no-playlist"));
        args.push(String::from_str("--max-filesize"));
        args.push(decimal_string(self.max_file_size as u64));
        assert(texts(args@) =~= spec_filter_args(self.max_file_size));
        args
    }

    /// The arguments that yt-dlp is always given, with the storage directory.
    pub fn ytdlp_args(&self) -> (r: Vec<String>)
        ensures
            texts(r@) == spec_base_args(self.root_dir@),
    {
        let mut args: Vec<String> = Vec::new();
        args.push(String::from_str("--no-exec"));
        args.push(String::from_str("--abort-on-error"));
        args.push(String::from_str("-P"));
        args.push(self.root_dir.clone());
        assert(texts(args@) =~= spec_base_args(self.root_dir@));
        args
    }

    /// The address under which the service is reached, as the index page shows it.
    pub fn external_domain(&self) -> (r: String)
        ensures
            r@ == spec_domain(self.external_protocol@, self.external_host@),
    {
        let mut d = self.external_protocol.clone();
        d.append("://");
        d.append(self.external_host.as_str());
        d
    }

    /// Whether requests must carry a password.
    pub fn password_enabled(&self) -> (r: bool)
        ensures
            r == self.password is Some,
    {
        self.password.is_some()
    }
}


/// The filter ends with `--max-filesize` and a number that `str::parse::<usize>`
/// reads back as exactly the largest file size allowed.
pub proof fn law_filter_gives_max_filesize(max_file_size: usize)
    ensures
        spec_filter_args(max_file_size).len() == 5,
        spec_filter_args(max_file_size)[3] == "--max-filesize"@,
        spec_parse_unsigned(spec_filter_args(max_file_size)[4], usize::MAX as nat) == Some(
            max_file_size as nat,
        ),
{
    law_decimal_reads_back(max_file_size as nat, usize::MAX as nat);
}

/// Where a cookies file is configured, its arguments are `--cookies` followed by
/// its path; where none is, there are none.
pub proof fn law_cookie_args(cookies_file: Option<String>)
    ensures
        cookies_file matches Some(f) ==> spec_cookie_args(cookies_file) == seq![
            "--cookies"@,
            f@,
        ],
        cookies_file is None ==> spec_cookie_args(cookies_file).len() == 0,
{
}

} // verus!
