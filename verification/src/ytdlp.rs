use vstd::prelude::*;
use vstd::utf8::{decode_utf8, valid_utf8};

use crate::config::{
    law_cookie_args, law_filter_gives_max_filesize, spec_base_args, spec_cookie_args,
    spec_filter_args, texts, Config,
};
use crate::error::DumAhhError;
use crate::text::{
    all_digits, chars_of, digits_value, law_decimal_reads_back, parse_usize, spec_decimal,
    spec_parse_unsigned, spec_trim, trim, utf8_text,
};

verus! {

broadcast use vstd::string::group_string_axioms;

/// A yt-dlp run: the program and its arguments.
#[derive(Debug, Clone, PartialEq, Eq)]
pub struct DownloadCommand {
    pub prog: String,
    pub args: Vec<String>,
}

/// What a finished download reports.
#[derive(Debug, Clone, PartialEq, Eq)]
pub struct DownloadOutput {}

/// What a finished yt-dlp process left: whether it exited with success, and
/// what it wrote to its standard output.
#[derive(Debug, Clone, PartialEq, Eq)]
pub struct ProcessOutput {
    pub success: bool,
    pub stdout: Vec<u8>,
}

/// The arguments of a download of `url` into a file named after `filename`,
/// with the configured cookies file, if any.
pub open spec fn spec_download_args(config: Config, url: Seq<char>, filename: Seq<char>) -> Seq<
    Seq<char>,
> {
    spec_base_args(config.root_dir@) + spec_cookie_args(config.cookies_file) + spec_filter_args(
        config.max_file_size,
    ) + seq![
        "-o"@,
        filename,
        url,
    ]
}

/// The arguments of a query that prints the property `property` of `url`, with
/// the configured cookies file, if any.
pub open spec fn spec_property_args(config: Config, url: Seq<char>, property: Seq<char>) -> Seq<
    Seq<char>,
> {
    spec_cookie_args(config.cookies_file) + spec_filter_args(config.max_file_size) + seq![
        "--print"@,
        property,
        url,
    ]
}

/// The arguments of a query that prints everything yt-dlp knows of `url`, as
/// JSON, with the configured cookies file, if any.
pub open spec fn spec_metadata_args(config: Config, url: Seq<char>) -> Seq<Seq<char>> {
    seq!["--dump-json"@] + spec_cookie_args(config.cookies_file) + spec_filter_args(
        config.max_file_size,
    ) + seq![url]
}

impl DownloadCommand {
    /// The configured yt-dlp program, with no arguments yet.
    pub fn new(config: &Config) -> (r: DownloadCommand)
        ensures
            r.prog@ == config.yt_dlp_path@,
            r.args@.len() == 0,
    {
        DownloadCommand { prog: config.yt_dlp_path.clone(), args: Vec::new() }
    }

    /// The command that downloads `url` into a file named after `filename`: the
    /// arguments yt-dlp is always given, then the cookies file where one is
    /// configured, then the filter, then `-o filename url`.
    pub fn from_url(config: &Config, url: String, filename: String) -> (r: DownloadCommand)
        ensures
            r.prog@ == config.yt_dlp_path@,
            texts(r.args@) == spec_download_args(*config, url@, filename@),
    {
        let mut s = DownloadCommand::new(config);
        s.args = config.ytdlp_args();
        let mut cookies = config.ytdlp_cookies();
        s.args.append(&mut cookies);
        let mut filter = config.ytdlp_filter();
        s.args.append(&mut filter);
        s.args.push(String::from_str("-o"));
        s.args.push(filename);
        s.args.push(url);
        assert(texts(s.args@) =~= spec_download_args(*config, url@, filename@));
        s
    }

    /// The command that prints the property `property` of `url`.
    pub fn property_query(config: &Config, url: &str, property: &str) -> (r: DownloadCommand)
        ensures
            r.prog@ == config.yt_dlp_path@,
            texts(r.args@) == spec_property_args(*config, url@, property@),
    {
        let mut cmd = DownloadCommand::new(config);
        cmd.args = config.ytdlp_cookies();
        let mut filter = config.ytdlp_filter();
        cmd.args.append(&mut filter);
        cmd.args.push(String::from_str("--print"));
        cmd.args.push(String::from_str(property));
        cmd.args.push(String::from_str(url));
        assert(texts(cmd.args@) =~= spec_property_args(*config, url@, property@));
        cmd
    }

    /// The command that prints, as JSON, everything yt-dlp knows of `url`.
    pub fn metadata_query(config: &Config, url: &str) -> (r: DownloadCommand)
        ensures
            r.prog@ == config.yt_dlp_path@,
            texts(r.args@) == spec_metadata_args(*config, url@),
    {
        let mut cmd = DownloadCommand::new(config);
        cmd.args.push(String::from_str("--dump-json"));
        let mut cookies = config.ytdlp_cookies();
        cmd.args.append(&mut cookies);
        let mut filter = config.ytdlp_filter();
        cmd.args.append(&mut filter);
        cmd.args.push(String::from_str(url));
        assert(texts(cmd.args@) =~= spec_metadata_args(*config, url@));
        cmd
    }
}


/// What yt-dlp's answer to a query says, where the process could be run
/// (`run` is `None` where it could not): the text it printed, without the white
/// space around it; a failure where the process failed, printed something that
/// is not UTF-8, or printed `NA` (no value).
pub open spec fn spec_read_answer(run: Option<ProcessOutput>) -> Result<Seq<char>, DumAhhError> {
    match run {
        None => Err(DumAhhError::DownloadFailed),
        Some(o) => if !o.success {
            Err(DumAhhError::DownloadFailed)
        } else if !valid_utf8(o.stdout@) {
            Err(DumAhhError::DownloadFailed)
        } else {
            let t = spec_trim(decode_utf8(o.stdout@));
            if t == "NA"@ {
                Err(DumAhhError::DownloadFailed)
            } else {
                Ok(t)
            }
        },
    }
}

/// An answer as an exec value matches its spec.
pub open spec fn answer_matches(r: Result<String, DumAhhError>, s: Result<Seq<char>, DumAhhError>) -> bool {
    match r {
        Ok(t) => s == Ok::<Seq<char>, DumAhhError>(t@),
        Err(e) => s == Err::<Seq<char>, DumAhhError>(e),
    }
}

fn is_no_value(t: &String) -> (r: bool)
    ensures
        r == (t@ == "NA"@),
{
    proof {
        reveal_strlit("NA");
    }
    let cs = chars_of(t.as_str());
    if cs.len() == 2 && cs[0] == 'N' && cs[1] == 'A' {
        assert(t@ =~= "NA"@);
        true
    } else {
        assert(t@.len() != 2 || t@[0] != 'N' || t@[1] != 'A');
        false
    }
}

/// Reads yt-dlp's answer to a query (see `spec_read_answer`).
pub fn read_answer(run: Option<ProcessOutput>) -> (r: Result<String, DumAhhError>)
    ensures
        answer_matches(r, spec_read_answer(run)),
{
    match run {
        None => Err(DumAhhError::DownloadFailed),
        Some(o) => {
            if !o.success {
                return Err(DumAhhError::DownloadFailed);
            }
            let ghost bytes = o.stdout@;
            match utf8_text(o.stdout) {
                None => Err(DumAhhError::DownloadFailed),
                Some(text) => {
                    let out = trim(text.as_str());
                    if is_no_value(&out) {
                        Err(DumAhhError::DownloadFailed)
                    } else {
                        Ok(out)
                    }
                },
            }
        },
    }
}

/// The size, in bytes, that a property answer gives: the answer read as a
/// `usize`; a failure where the answer failed or is not such a number.
pub open spec fn spec_size_answer(answer: Result<Seq<char>, DumAhhError>) -> Result<nat, DumAhhError> {
    match answer {
        Err(e) => Err(e),
        Ok(t) => match spec_parse_unsigned(t, usize::MAX as nat) {
            Some(n) => Ok(n),
            None => Err(DumAhhError::DownloadFailed),
        },
    }
}

/// Reads a file size from the answer to a size query.
pub fn size_from_answer(answer: Result<String, DumAhhError>) -> (r: Result<usize, DumAhhError>)
    ensures
        match r {
            Ok(n) => spec_size_answer(answer_view(answer)) == Ok::<nat, DumAhhError>(n as nat),
            Err(e) => spec_size_answer(answer_view(answer)) == Err::<nat, DumAhhError>(e),
        },
{
    match answer {
        Err(e) => Err(e),
        Ok(t) => match parse_usize(t.as_str()) {
            Some(n) => Ok(n),
            None => Err(DumAhhError::DownloadFailed),
        },
    }
}

/// The text an answer holds, as a spec value.
pub open spec fn answer_view(r: Result<String, DumAhhError>) -> Result<Seq<char>, DumAhhError> {
    match r {
        Ok(t) => Ok(t@),
        Err(e) => Err(e),
    }
}

/// Whether yt-dlp must be asked for the approximate size: only where it gave no
/// exact size.
pub fn needs_approx_size(exact: &Result<usize, DumAhhError>) -> (r: bool)
    ensures
        r == exact is Err,
{
    exact.is_err()
}

/// The file size to go by: the exact size where yt-dlp knows it, else the
/// approximate size where it knows that (`approx` is `None` where it was not
/// asked for), else a failure.
pub fn choose_filesize(
    exact: Result<usize, DumAhhError>,
    approx: Option<Result<usize, DumAhhError>>,
) -> (r: Result<usize, DumAhhError>)
    ensures
        exact matches Ok(n) ==> r == Ok::<usize, DumAhhError>(n),
        exact is Err ==> match approx {
            Some(Ok(n)) => r == Ok::<usize, DumAhhError>(n),
            _ => r == Err::<usize, DumAhhError>(DumAhhError::DownloadFailed),
        },
{
    match exact {
        Ok(n) => Ok(n),
        Err(_) => match approx {
            Some(Ok(n)) => Ok(n),
            _ => Err(DumAhhError::DownloadFailed),
        },
    }
}

/// The result of a download: done where yt-dlp ran (`ran` is `None` where no
/// slot could be taken or the process could not be run) and exited with
/// success, a failure otherwise.
pub fn download_result(ran: Option<bool>) -> (r: Result<DownloadOutput, DumAhhError>)
    ensures
        r is Ok <==> ran == Some(true),
        r is Err ==> r == Err::<DownloadOutput, DumAhhError>(DumAhhError::DownloadFailed),
{
    match ran {
        Some(true) => Ok(DownloadOutput {  }),
        _ => Err(DumAhhError::DownloadFailed),
    }
}


/// `serde_json::Value`, a JSON value, carried through opaque.
#[verifier::external_type_specification]
#[verifier::external_body]
pub struct ExJsonValue(serde_json::Value);

/// The members of a JSON value that are JSON strings, by name; none where the
/// value is not an object.
pub uninterp spec fn json_string_members(value: serde_json::Value) -> Map<Seq<char>, Seq<char>>;

/// What `serde_json` reads from `text` as one JSON value: nothing where the text
/// is not JSON; otherwise the members of the value that are JSON strings, by
/// name (none where the value is not an object).
pub uninterp spec fn json_text_members(text: Seq<char>) -> Option<Map<Seq<char>, Seq<char>>>;

/// `serde_json::from_str::<serde_json::Value>`: the JSON value that `text`
/// holds. The contract claims that the parse succeeds exactly where
/// `json_text_members` names a result, and that the string members of the value
/// are those it names; both depend on the text alone.
#[verifier::external_body]
fn parse_json(text: &str) -> (r: Option<serde_json::Value>)
    ensures
        r is Some <==> json_text_members(text@) is Some,
        r matches Some(v) ==> json_text_members(text@) == Some(json_string_members(v)),
{
    serde_json::from_str::<serde_json::Value>(text).ok()
}

/// Reads yt-dlp's JSON answer to a metadata query: fails as `read_answer` does,
/// and with an internal failure where the answer is not JSON; otherwise the
/// value read from the text yt-dlp printed, whose string members are those of
/// that text.
pub fn read_metadata(run: Option<ProcessOutput>) -> (r: Result<serde_json::Value, DumAhhError>)
    ensures
        match spec_read_answer(run) {
            Err(e) => r == Err::<serde_json::Value, DumAhhError>(e),
            Ok(t) => match json_text_members(t) {
                None => r == Err::<serde_json::Value, DumAhhError>(DumAhhError::Internal),
                Some(m) => r matches Ok(v) && json_string_members(v) == m,
            },
        },
{
    let text = read_answer(run);
    match text {
        Err(e) => Err(e),
        Ok(t) => match parse_json(t.as_str()) {
            Some(v) => Ok(v),
            None => Err(DumAhhError::Internal),
        },
    }
}

/// `value[key]` where it is a JSON string: the `Index<&str>` impl of
/// `serde_json::Value` (the member named `key` of an object, `Null` otherwise),
/// then a match on its `String` variant. The contract states this over
/// `json_string_members`, the name for what the value holds.
#[verifier::external_body]
fn string_member(value: &serde_json::Value, key: &str) -> (r: Option<String>)
    ensures
        match r {
            Some(m) => json_string_members(*value).contains_key(key@)
                && json_string_members(*value)[key@] == m@,
            None => !json_string_members(*value).contains_key(key@),
        },
{
    match &value[key] {
        serde_json::Value::String(m) => Some(m.clone()),
        _ => None,
    }
}

/// The media type a metadata record names: the string member found, or an
/// internal failure where there is none.
pub fn media_type_from(member: Option<String>) -> (r: Result<String, DumAhhError>)
    ensures
        match member {
            Some(m) => r == Ok::<String, DumAhhError>(m),
            None => r == Err::<String, DumAhhError>(DumAhhError::Internal),
        },
{
    match member {
        Some(m) => Ok(m),
        None => Err(DumAhhError::Internal),
    }
}

/// The media type that yt-dlp's metadata `metadata` names (its `media_type`
/// member, where that is a string); an internal failure otherwise.
pub fn get_media_type(metadata: &serde_json::Value) -> (r: Result<String, DumAhhError>)
    ensures
        match r {
            Ok(m) => json_string_members(*metadata).contains_key("media_type"@)
                && json_string_members(*metadata)["media_type"@] == m@,
            Err(e) => e == DumAhhError::Internal && !json_string_members(
                *metadata,
            ).contains_key("media_type"@),
        },
{
    media_type_from(string_member(metadata, "media_type"))
}


/// A size answer that is the decimal notation of a `usize` gives that number,
/// whatever its size.
pub proof fn law_size_answer_reads_number(n: usize)
    ensures
        spec_size_answer(Ok(spec_decimal(n as nat))) == Ok::<nat, DumAhhError>(n as nat),
{
    law_decimal_reads_back(n as nat, usize::MAX as nat);
}

/// A size answer made of ASCII digits gives the number they write, wherever
/// that fits in a `usize`, and fails where it does not.
pub proof fn law_size_answer_digits(t: Seq<char>)
    requires
        t.len() > 0,
        all_digits(t),
    ensures
        digits_value(t) <= usize::MAX ==> spec_size_answer(Ok(t)) == Ok::<nat, DumAhhError>(
            digits_value(t),
        ),
        digits_value(t) > usize::MAX ==> spec_size_answer(Ok(t)) == Err::<nat, DumAhhError>(
            DumAhhError::DownloadFailed,
        ),
{
    assert(t[0] != '+') by {
        assert(crate::text::is_ascii_digit(t[0]));
    }
}

/// yt-dlp's answer fails only where the process did not run, failed, printed
/// something that is not UTF-8, or printed `NA`; otherwise it is the printed
/// text without the white space around it, however long.
pub proof fn law_answer_is_printed_text(run: Option<ProcessOutput>)
    ensures
        (spec_read_answer(run) is Err) <==> (run is None || !run->0.success || !valid_utf8(
            run->0.stdout@,
        ) || spec_trim(decode_utf8(run->0.stdout@)) == "NA"@),
        spec_read_answer(run) is Err ==> spec_read_answer(run) == Err::<Seq<char>, DumAhhError>(
            DumAhhError::DownloadFailed,
        ),
        run is Some && run->0.success && valid_utf8(run->0.stdout@) && spec_trim(
            decode_utf8(run->0.stdout@),
        ) != "NA"@ ==> spec_read_answer(run) == Ok::<Seq<char>, DumAhhError>(
            spec_trim(decode_utf8(run->0.stdout@)),
        ),
{
}

/// The download command ends with `-o filename url`; right after the base
/// arguments it gives the cookies file, where one is configured, and the filter
/// after that tells yt-dlp the largest file size allowed.
pub proof fn law_download_args(config: Config, url: Seq<char>, filename: Seq<char>)
    ensures
        ({
            let a = spec_download_args(config, url, filename);
            let k: int = if config.cookies_file is Some { 6 } else { 4 };
            &&& a.len() == k + 8
            &&& a[a.len() - 1] == url
            &&& a[a.len() - 2] == filename
            &&& a[a.len() - 3] == "-o"@
            &&& a[3] == config.root_dir@
            &&& (config.cookies_file matches Some(f) ==> a[4] == "--cookies"@ && a[5] == f@)
            &&& a[k + 3] == "--max-filesize"@
            &&& spec_parse_unsigned(a[k + 4], usize::MAX as nat) == Some(
                config.max_file_size as nat,
            )
        }),
{
    law_cookie_args(config.cookies_file);
    law_filter_gives_max_filesize(config.max_file_size);
    let a = spec_download_args(config, url, filename);
    let k: int = if config.cookies_file is Some { 6 } else { 4 };
    let f = spec_filter_args(config.max_file_size);
    assert(a[k + 3] == f[3]);
    assert(a[k + 4] == f[4]);
}

} // verus!
