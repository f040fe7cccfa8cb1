use vstd::prelude::*;

use crate::config::{opt_text, Config};
use crate::error::{DumAhhError, ReplyStatus};

verus! {

broadcast use vstd::string::group_string_axioms;

/// What a download request carries: the address of the video and the password
/// given, if any.
#[derive(Debug, Clone, PartialEq, Eq)]
pub struct DownloadForm {
    pub url: String,
    pub password: Option<String>,
}

/// Where a download request stands, between two pieces of outside work.
/// `early` is the size added to the storage usage before the download, where
/// the size was known then.
#[derive(Debug, Clone, PartialEq, Eq)]
pub enum Phase<T> {
    /// Waiting for the storage usage.
    CheckingStorage,
    /// Waiting for yt-dlp's estimate of the file size.
    ProbingSize,
    /// Waiting for the storage usage, with the file size known.
    CheckingRoom { size: usize },
    /// Waiting for the file size to be added to the storage usage.
    Reserving { size: usize },
    /// Waiting for the file name prefix.
    Naming { early: Option<usize> },
    /// Waiting for the download.
    Downloading { early: Option<usize>, prefix: T },
    /// Waiting for the downloaded file to be found.
    Locating { early: Option<usize>, prefix: T },
    /// Waiting for the file to be made ready to send.
    Serving { early: Option<usize>, prefix: T },
    /// Waiting for the size of the stored file.
    Measuring { header: T },
    /// The request has been answered.
    Done,
}

/// What the outside world reports back.
#[derive(Debug, PartialEq, Eq)]
pub enum Event<T> {
    /// The storage usage, in bytes.
    Usage { used: usize },
    /// The file size yt-dlp gave, where it gave one.
    SizeProbed { size: Option<usize> },
    /// The file size was added to the storage usage.
    Reserved,
    /// The prefix of the file name, or why there is none.
    Named { name: Result<T, DumAhhError> },
    /// Whether yt-dlp downloaded the file.
    Downloaded { outcome: Result<(), DumAhhError> },
    /// Whether the downloaded file was found.
    Located { outcome: Result<(), DumAhhError> },
    /// Whether the file could be made ready to send.
    Served { ok: bool },
    /// The size of the stored file, where it could be read.
    Measured { size: Option<usize> },
}

/// The outside work to do next, or the answer to give.
#[derive(Debug, Clone, PartialEq, Eq)]
pub enum Action<T> {
    /// Read the storage usage.
    ReadUsage,
    /// Ask yt-dlp for the file size.
    ProbeSize,
    /// Add `size` to the storage usage.
    Reserve { size: usize },
    /// Ask yt-dlp for the file name and make the file name prefix of it.
    FetchName,
    /// Download the video into a file named after `prefix`.
    Download { prefix: T },
    /// Find the downloaded file whose name starts with `prefix`.
    Locate { prefix: T },
    /// Make the file ready to send.
    Serve,
    /// Read the size of the stored file.
    Measure,
    /// Answer with the file, with `header` as its Content-Disposition; add `add`
    /// to the storage usage now, and take `release` off it when the file is
    /// deleted.
    Reply { header: T, add: usize, release: usize },
    /// Refuse the request.
    Refuse { status: ReplyStatus, error: DumAhhError },
}

impl View for Phase<String> {
    type V = Phase<Seq<char>>;

    open spec fn view(&self) -> Phase<Seq<char>> {
        match self {
            Phase::CheckingStorage => Phase::CheckingStorage,
            Phase::ProbingSize => Phase::ProbingSize,
            Phase::CheckingRoom { size } => Phase::CheckingRoom { size: *size },
            Phase::Reserving { size } => Phase::Reserving { size: *size },
            Phase::Naming { early } => Phase::Naming { early: *early },
            Phase::Downloading { early, prefix } => Phase::Downloading { early: *early, prefix: prefix@ },
            Phase::Locating { early, prefix } => Phase::Locating { early: *early, prefix: prefix@ },
            Phase::Serving { early, prefix } => Phase::Serving { early: *early, prefix: prefix@ },
            Phase::Measuring { header } => Phase::Measuring { header: header@ },
            Phase::Done => Phase::Done,
        }
    }
}

impl View for Event<String> {
    type V = Event<Seq<char>>;

    open spec fn view(&self) -> Event<Seq<char>> {
        match self {
            Event::Usage { used } => Event::Usage { used: *used },
            Event::SizeProbed { size } => Event::SizeProbed { size: *size },
            Event::Reserved => Event::Reserved,
            Event::Named { name } => Event::Named {
                name: match name {
                    Ok(p) => Ok(p@),
                    Err(e) => Err(*e),
                },
            },
            Event::Downloaded { outcome } => Event::Downloaded { outcome: *outcome },
            Event::Located { outcome } => Event::Located { outcome: *outcome },
            Event::Served { ok } => Event::Served { ok: *ok },
            Event::Measured { size } => Event::Measured { size: *size },
        }
    }
}

impl View for Action<String> {
    type V = Action<Seq<char>>;

    open spec fn view(&self) -> Action<Seq<char>> {
        match self {
            Action::ReadUsage => Action::ReadUsage,
            Action::ProbeSize => Action::ProbeSize,
            Action::Reserve { size } => Action::Reserve { size: *size },
            Action::FetchName => Action::FetchName,
            Action::Download { prefix } => Action::Download { prefix: prefix@ },
            Action::Locate { prefix } => Action::Locate { prefix: prefix@ },
            Action::Serve => Action::Serve,
            Action::Measure => Action::Measure,
            Action::Reply { header, add, release } => Action::Reply {
                header: header@,
                add: *add,
                release: *release,
            },
            Action::Refuse { status, error } => Action::Refuse { status: *status, error: *error },
        }
    }
}


/// Whether a request that gives `given` may go on: where a password is
/// configured, it must be given exactly.
pub open spec fn password_accepted(configured: Option<Seq<char>>, given: Option<Seq<char>>) -> bool {
    configured is None || configured == given
}

/// The refusal `status`/`error`, after which the request is done.
pub open spec fn refusal(status: ReplyStatus, error: DumAhhError) -> (Phase<Seq<char>>, Action<Seq<char>>) {
    (Phase::Done, Action::Refuse { status, error })
}

/// The first decision on a request, given the outcome of the check of its
/// address: refused as a bad request where the address is not valid, then
/// refused for its password, or on to the storage check.
pub open spec fn spec_start(
    config: Config,
    address: Result<(), DumAhhError>,
    password: Option<Seq<char>>,
) -> (Phase<Seq<char>>, Action<Seq<char>>) {
    if let Err(e) = address {
        refusal(ReplyStatus::BadRequest, e)
    } else if password_accepted(opt_text(config.password), password) {
        (Phase::CheckingStorage, Action::ReadUsage)
    } else {
        refusal(ReplyStatus::Unauthorized, DumAhhError::WrongPassword)
    }
}

/// `attachment; filename="prefix"`: the Content-Disposition of the reply.
pub open spec fn spec_disposition(prefix: Seq<char>) -> Seq<char> {
    "attachment; filename=\""@ + prefix + "\""@
}

/// Whether `text` can stand as an HTTP header value: each character is a tab,
/// or neither an ASCII control character nor DEL.
pub open spec fn header_text_ok(text: Seq<char>) -> bool {
    forall|i: int|
        0 <= i < text.len() ==> (#[trigger] text[i] == '\t' || (text[i] as u32 >= 32 && text[i]
            as u32 != 127))
}

/// The decision taken when the outside world reports `event` to a request in
/// `phase`. A report that does not fit the phase ends the request with an
/// internal failure.
pub open spec fn spec_step(config: Config, phase: Phase<Seq<char>>, event: Event<Seq<char>>) -> (
    Phase<Seq<char>>,
    Action<Seq<char>>,
) {
    let internal = refusal(ReplyStatus::InternalServerError, DumAhhError::Internal);
    match phase {
        Phase::CheckingStorage => match event {
            Event::Usage { used } => if used >= config.max_on_disk_storage {
                refusal(ReplyStatus::InsufficientStorage, DumAhhError::OutOfStorage)
            } else {
                (Phase::ProbingSize, Action::ProbeSize)
            },
            _ => internal,
        },
        Phase::ProbingSize => match event {
            Event::SizeProbed { size } => match size {
                None => (Phase::Naming { early: None }, Action::FetchName),
                Some(n) => (Phase::CheckingRoom { size: n }, Action::ReadUsage),
            },
            _ => internal,
        },
        Phase::CheckingRoom { size } => match event {
            Event::Usage { used } => if used + size >= config.max_on_disk_storage {
                refusal(ReplyStatus::InsufficientStorage, DumAhhError::OutOfStorage)
            } else if size > config.max_file_size {
                refusal(ReplyStatus::InsufficientStorage, DumAhhError::FileTooBig)
            } else {
                (Phase::Reserving { size }, Action::Reserve { size })
            },
            _ => internal,
        },
        Phase::Reserving { size } => match event {
            Event::Reserved => (Phase::Naming { early: Some(size) }, Action::FetchName),
            _ => internal,
        },
        Phase::Naming { early } => match event {
            Event::Named { name } => match name {
                Err(e) => refusal(ReplyStatus::InternalServerError, e),
                Ok(prefix) => (Phase::Downloading { early, prefix }, Action::Download { prefix }),
            },
            _ => internal,
        },
        Phase::Downloading { early, prefix } => match event {
            Event::Downloaded { outcome } => match outcome {
                Err(e) => refusal(ReplyStatus::InternalServerError, e),
                Ok(_) => (Phase::Locating { early, prefix }, Action::Locate { prefix }),
            },
            _ => internal,
        },
        Phase::Locating { early, prefix } => match event {
            Event::Located { outcome } => match outcome {
                Err(e) => refusal(ReplyStatus::InternalServerError, e),
                Ok(_) => (Phase::Serving { early, prefix }, Action::Serve),
            },
            _ => internal,
        },
        Phase::Serving { early, prefix } => match event {
            Event::Served { ok } => if !ok {
                refusal(ReplyStatus::NotFound, DumAhhError::FileNotFound)
            } else if !header_text_ok(spec_disposition(prefix)) {
                internal
            } else {
                match early {
                    Some(n) => (
                        Phase::Done,
                        Action::Reply { header: spec_disposition(prefix), add: 0, release: n },
                    ),
                    None => (Phase::Measuring { header: spec_disposition(prefix) }, Action::Measure),
                }
            },
            _ => internal,
        },
        Phase::Measuring { header } => match event {
            Event::Measured { size } => match size {
                None => internal,
                Some(n) => (Phase::Done, Action::Reply { header, add: n, release: n }),
            },
            _ => internal,
        },
        Phase::Done => internal,
    }
}

/// `axum::http::HeaderValue::from_str(text).is_ok()`. The contract claims that
/// the http crate accepts a header value exactly when each of its bytes is a
/// tab or a byte that is at least 32 and not 127; as every byte of a non-ASCII
/// character in UTF-8 is at least 128, this is `header_text_ok` of its characters.
#[verifier::external_body]
fn header_value_accepts(text: &str) -> (r: bool)
    ensures
        r == header_text_ok(text@),
{
    axum::http::HeaderValue::from_str(text).is_ok()
}

/// `attachment; filename="prefix"`.
pub fn content_disposition(prefix: &str) -> (r: String)
    ensures
        r@ == spec_disposition(prefix@),
{
    let mut h = String::from_str("attachment; filename=\"");
    h.append(prefix);
    h.append("\"");
    h
}

/// Starts a download request, given the outcome `address` of the check of its
/// address: refused as a bad request, with the error of that check, where the
/// address is not valid; refused where a password is configured and the request
/// does not give it exactly; otherwise the storage usage is read next.
pub fn start_download(config: &Config, form: &DownloadForm, address: Result<(), DumAhhError>) -> (r: (
    Phase<String>,
    Action<String>,
))
    ensures
        (r.0@, r.1@) == spec_start(*config, address, opt_text(form.password)),
{
    if let Err(e) = address {
        return refuse(ReplyStatus::BadRequest, e);
    }
    let accepted = match &config.password {
        None => true,
        Some(p) => match &form.password {
            Some(q) => p.eq(q),
            None => false,
        },
    };
    assert(accepted == password_accepted(opt_text(config.password), opt_text(form.password)));
    if accepted {
        (Phase::CheckingStorage, Action::ReadUsage)
    } else {
        refuse(ReplyStatus::Unauthorized, DumAhhError::WrongPassword)
    }
}

fn refuse(status: ReplyStatus, error: DumAhhError) -> (r: (Phase<String>, Action<String>))
    ensures
        (r.0@, r.1@) == refusal(status, error),
{
    (Phase::Done, Action::Refuse { status, error })
}

fn internal_failure() -> (r: (Phase<String>, Action<String>))
    ensures
        (r.0@, r.1@) == refusal(ReplyStatus::InternalServerError, DumAhhError::Internal),
{
    refuse(ReplyStatus::InternalServerError, DumAhhError::Internal)
}

/// The next decision on a download request in `phase`, given what the outside
/// world reports (see `spec_step`).
pub fn next_step(config: &Config, phase: Phase<String>, event: Event<String>) -> (r: (
    Phase<String>,
    Action<String>,
))
    ensures
        (r.0@, r.1@) == spec_step(*config, phase@, event@),
{
    match phase {
        Phase::CheckingStorage => match event {
            Event::Usage { used } => if used >= config.max_on_disk_storage {
                refuse(ReplyStatus::InsufficientStorage, DumAhhError::OutOfStorage)
            } else {
                (Phase::ProbingSize, Action::ProbeSize)
            },
            _ => internal_failure(),
        },
        Phase::ProbingSize => match event {
            Event::SizeProbed { size } => match size {
                None => (Phase::Naming { early: None }, Action::FetchName),
                Some(n) => (Phase::CheckingRoom { size: n }, Action::ReadUsage),
            },
            _ => internal_failure(),
        },
        Phase::CheckingRoom { size } => match event {
            Event::Usage { used } => if used >= config.max_on_disk_storage || size
                >= config.max_on_disk_storage - used {
                refuse(ReplyStatus::InsufficientStorage, DumAhhError::OutOfStorage)
            } else if size > config.max_file_size {
                refuse(ReplyStatus::InsufficientStorage, DumAhhError::FileTooBig)
            } else {
                (Phase::Reserving { size }, Action::Reserve { size })
            },
            _ => internal_failure(),
        },
        Phase::Reserving { size } => match event {
            Event::Reserved => (Phase::Naming { early: Some(size) }, Action::FetchName),
            _ => internal_failure(),
        },
        Phase::Naming { early } => match event {
            Event::Named { name } => match name {
                Err(e) => refuse(ReplyStatus::InternalServerError, e),
                Ok(prefix) => {
                    let p = prefix.clone();
                    (Phase::Downloading { early, prefix }, Action::Download { prefix: p })
                },
            },
            _ => internal_failure(),
        },
        Phase::Downloading { early, prefix } => match event {
            Event::Downloaded { outcome } => match outcome {
                Err(e) => refuse(ReplyStatus::InternalServerError, e),
                Ok(_) => {
                    let p = prefix.clone();
                    (Phase::Locating { early, prefix }, Action::Locate { prefix: p })
                },
            },
            _ => internal_failure(),
        },
        Phase::Locating { early, prefix } => match event {
            Event::Located { outcome } => match outcome {
                Err(e) => refuse(ReplyStatus::InternalServerError, e),
                Ok(_) => (Phase::Serving { early, prefix }, Action::Serve),
            },
            _ => internal_failure(),
        },
        Phase::Serving { early, prefix } => match event {
            Event::Served { ok } => if !ok {
                refuse(ReplyStatus::NotFound, DumAhhError::FileNotFound)
            } else {
                let header = content_disposition(prefix.as_str());
                if !header_value_accepts(header.as_str()) {
                    internal_failure()
                } else {
                    match early {
                        Some(n) => (Phase::Done, Action::Reply { header, add: 0, release: n }),
                        None => (Phase::Measuring { header }, Action::Measure),
                    }
                }
            },
            _ => internal_failure(),
        },
        Phase::Measuring { header } => match event {
            Event::Measured { size } => match size {
                None => internal_failure(),
                Some(n) => (Phase::Done, Action::Reply { header, add: n, release: n }),
            },
            _ => internal_failure(),
        },
        Phase::Done => internal_failure(),
    }
}


/// The decisions taken on a request in `phase` as the reports `events` come in,
/// one per report.
pub open spec fn spec_run(config: Config, phase: Phase<Seq<char>>, events: Seq<Event<Seq<char>>>) -> Seq<Action<Seq<char>>>
    decreases events.len(),
{
    if events.len() == 0 {
        seq![]
    } else {
        let (next, a) = spec_step(config, phase, events[0]);
        seq![a] + spec_run(config, next, events.drop_first())
    }
}

/// Every decision taken on a request whose address check gave `address` and
/// that gives `password`: the first one, then
/// one per report in `events`.
pub open spec fn spec_actions(
    config: Config,
    address: Result<(), DumAhhError>,
    password: Option<Seq<char>>,
    events: Seq<Event<Seq<char>>>,
) -> Seq<Action<Seq<char>>> {
    let (first, a) = spec_start(config, address, password);
    seq![a] + spec_run(config, first, events)
}

/// What a decision adds to the storage usage at once.
pub open spec fn added_by(a: Action<Seq<char>>) -> nat {
    match a {
        Action::Reserve { size } => size as nat,
        Action::Reply { add, .. } => add as nat,
        _ => 0,
    }
}

/// What the decisions `acts` add to the storage usage, together.
pub open spec fn total_added(acts: Seq<Action<Seq<char>>>) -> nat
    decreases acts.len(),
{
    if acts.len() == 0 {
        0
    } else {
        added_by(acts[0]) + total_added(acts.drop_first())
    }
}

/// What a request in `phase` has added to the storage usage so far.
spec fn pending(phase: Phase<Seq<char>>) -> nat {
    match phase {
        Phase::Reserving { size } => size as nat,
        Phase::Naming { early } => match early {
            Some(n) => n as nat,
            None => 0,
        },
        Phase::Downloading { early, .. } => match early {
            Some(n) => n as nat,
            None => 0,
        },
        Phase::Locating { early, .. } => match early {
            Some(n) => n as nat,
            None => 0,
        },
        Phase::Serving { early, .. } => match early {
            Some(n) => n as nat,
            None => 0,
        },
        _ => 0,
    }
}

proof fn lemma_step_pending(config: Config, phase: Phase<Seq<char>>, event: Event<Seq<char>>)
    ensures
        ({
            let (next, a) = spec_step(config, phase, event);
            &&& a is Reply ==> phase !is Done && next is Done && a->release == pending(phase)
                + a->add
            &&& next !is Done ==> phase !is Done && a !is Reply && pending(next) == pending(phase)
                + added_by(a)
        }),
{
}

proof fn lemma_run_release(config: Config, phase: Phase<Seq<char>>, events: Seq<Event<Seq<char>>>, k: int)
    requires
        0 <= k < spec_run(config, phase, events).len(),
        spec_run(config, phase, events)[k] is Reply,
    ensures
        phase !is Done,
        spec_run(config, phase, events)[k]->release == pending(phase) + total_added(
            spec_run(config, phase, events).take(k + 1),
        ),
    decreases events.len(),
{
    let (next, a) = spec_step(config, phase, events[0]);
    let rest = spec_run(config, next, events.drop_first());
    let acts = spec_run(config, phase, events);
    assert(acts == seq![a] + rest);
    lemma_step_pending(config, phase, events[0]);
    assert(acts.take(k + 1).drop_first() =~= rest.take(k));
    if k == 0 {
        assert(rest.take(0) =~= Seq::<Action<Seq<char>>>::empty());
    } else {
        assert(acts[k] == rest[k - 1]);
        lemma_run_release(config, next, events.drop_first(), k - 1);
    }
}

/// Every successful reply to a download request takes off the storage usage,
/// when its file is deleted, exactly what that request added to the usage up to
/// and with the reply, whatever the reports it was given.
pub proof fn law_release_equals_added(
    config: Config,
    address: Result<(), DumAhhError>,
    password: Option<Seq<char>>,
    events: Seq<Event<Seq<char>>>,
    k: int,
)
    requires
        0 <= k < spec_actions(config, address, password, events).len(),
        spec_actions(config, address, password, events)[k] is Reply,
    ensures
        spec_actions(config, address, password, events)[k]->release == total_added(
            spec_actions(config, address, password, events).take(k + 1),
        ),
{
    let (first, a) = spec_start(config, address, password);
    let rest = spec_run(config, first, events);
    let acts = spec_actions(config, address, password, events);
    assert(acts == seq![a] + rest);
    assert(k > 0);
    assert(acts[k] == rest[k - 1]);
    lemma_run_release(config, first, events, k - 1);
    assert(acts.take(k + 1).drop_first() =~= rest.take(k));
}


proof fn lemma_done_only_refuses(config: Config, events: Seq<Event<Seq<char>>>)
    ensures
        forall|k: int|
            0 <= k < spec_run(config, Phase::Done, events).len() ==> is_refusal(
                #[trigger] spec_run(config, Phase::Done, events)[k],
            ),
    decreases events.len(),
{
    if events.len() > 0 {
        lemma_done_only_refuses(config, events.drop_first());
        let rest = spec_run(config, Phase::Done, events.drop_first());
        let acts = spec_run(config, Phase::Done, events);
        assert forall|k: int| 0 <= k < acts.len() implies is_refusal(#[trigger] acts[k]) by {
            if k > 0 {
                assert(acts[k] == rest[k - 1]);
            }
        }
    }
}

/// Whether a decision refuses the request.
pub open spec fn is_refusal(a: Action<Seq<char>>) -> bool {
    a is Refuse
}

/// A request with a valid address that is refused for its password leads to no
/// outside work at all: it is refused, and every later report only meets
/// another refusal.
pub proof fn law_wrong_password_does_no_work(
    config: Config,
    address: Result<(), DumAhhError>,
    password: Option<Seq<char>>,
    events: Seq<Event<Seq<char>>>,
)
    requires
        address is Ok,
        !password_accepted(opt_text(config.password), password),
    ensures
        forall|k: int|
            0 <= k < spec_actions(config, address, password, events).len() ==> is_refusal(
                #[trigger] spec_actions(config, address, password, events)[k],
            ),
        spec_actions(config, address, password, events)[0] == (Action::<Seq<char>>::Refuse {
            status: ReplyStatus::Unauthorized,
            error: DumAhhError::WrongPassword,
        }),
{
    lemma_done_only_refuses(config, events);
    let acts = spec_actions(config, address, password, events);
    let rest = spec_run(config, Phase::Done, events);
    assert(acts == seq![spec_start(config, address, password).1] + rest);
    assert forall|k: int| 0 <= k < acts.len() implies is_refusal(#[trigger] acts[k]) by {
        if k > 0 {
            assert(acts[k] == rest[k - 1]);
        }
    }
}

/// A request whose address is refused leads to no outside work at all: it is
/// refused as a bad request with the error of the address check, before its
/// password is looked at, and every later report only meets another refusal.
pub proof fn law_bad_address_does_no_work(
    config: Config,
    error: DumAhhError,
    password: Option<Seq<char>>,
    events: Seq<Event<Seq<char>>>,
)
    ensures
        forall|k: int|
            0 <= k < spec_actions(config, Err(error), password, events).len() ==> is_refusal(
                #[trigger] spec_actions(config, Err(error), password, events)[k],
            ),
        spec_actions(config, Err(error), password, events)[0] == (Action::<Seq<char>>::Refuse {
            status: ReplyStatus::BadRequest,
            error,
        }),
{
    lemma_done_only_refuses(config, events);
    let acts = spec_actions(config, Err(error), password, events);
    let rest = spec_run(config, Phase::Done, events);
    assert(acts == seq![spec_start(config, Err(error), password).1] + rest);
    assert forall|k: int| 0 <= k < acts.len() implies is_refusal(#[trigger] acts[k]) by {
        if k > 0 {
            assert(acts[k] == rest[k - 1]);
        }
    }
}

/// Where no password is configured, no request with a valid address is refused
/// for its password.
pub proof fn law_open_service_admits_everyone(config: Config, password: Option<Seq<char>>)
    requires
        config.password is None,
    ensures
        spec_start(config, Ok(()), password) == (Phase::<Seq<char>>::CheckingStorage, Action::<Seq<char>>::ReadUsage),
{
}


/// A request with a valid address is refused for its password exactly when a
/// password is configured and the request does not give that same text;
/// otherwise it goes on to the storage check.
pub proof fn law_password_check(config: Config, password: Option<Seq<char>>)
    ensures
        (spec_start(config, Ok(()), password).1 == (Action::<Seq<char>>::Refuse {
            status: ReplyStatus::Unauthorized,
            error: DumAhhError::WrongPassword,
        })) <==> (config.password matches Some(p) && password != Some(p@)),
        !(config.password matches Some(p) && password != Some(p@)) ==> spec_start(
            config,
            Ok(()),
            password,
        ) == (Phase::<Seq<char>>::CheckingStorage, Action::<Seq<char>>::ReadUsage),
{
}

/// A request that gives exactly the configured password is admitted, whatever
/// the password.
pub proof fn law_right_password_admitted(config: Config, p: String)
    requires
        config.password == Some(p),
    ensures
        spec_start(config, Ok(()), Some(p@)) == (Phase::<Seq<char>>::CheckingStorage, Action::<
            Seq<char>,
        >::ReadUsage),
{
}

/// The first storage check refuses a request as out of storage exactly when the
/// usage is at or above the storage allowed; otherwise the file size is asked for.
pub proof fn law_storage_full(config: Config, used: usize)
    ensures
        used >= config.max_on_disk_storage ==> spec_step(
            config,
            Phase::CheckingStorage,
            Event::Usage { used },
        ) == (Phase::<Seq<char>>::Done, Action::<Seq<char>>::Refuse {
            status: ReplyStatus::InsufficientStorage,
            error: DumAhhError::OutOfStorage,
        }),
        used < config.max_on_disk_storage ==> spec_step(
            config,
            Phase::CheckingStorage,
            Event::Usage { used },
        ) == (Phase::<Seq<char>>::ProbingSize, Action::<Seq<char>>::ProbeSize),
{
}

/// With the size of the file known: where the usage and the file together reach
/// the storage allowed, the request is refused as out of storage.
pub proof fn law_no_room(config: Config, size: usize, used: usize)
    requires
        used + size >= config.max_on_disk_storage,
    ensures
        spec_step(config, Phase::CheckingRoom { size }, Event::Usage { used }) == (
        Phase::<Seq<char>>::Done,
        Action::<Seq<char>>::Refuse {
            status: ReplyStatus::InsufficientStorage,
            error: DumAhhError::OutOfStorage,
        }),
{
}

/// With room on disk for the file, the request is refused as too big exactly
/// when the file is larger than the largest file allowed, whatever the usage;
/// a file within the limit is reserved at its own size.
pub proof fn law_file_size_limit(config: Config, size: usize, used: usize)
    requires
        used + size < config.max_on_disk_storage,
    ensures
        (spec_step(config, Phase::CheckingRoom { size }, Event::Usage { used }).1 == (Action::<
            Seq<char>,
        >::Refuse { status: ReplyStatus::InsufficientStorage, error: DumAhhError::FileTooBig }))
            <==> size > config.max_file_size,
        size > config.max_file_size ==> spec_step(
            config,
            Phase::CheckingRoom { size },
            Event::Usage { used },
        ).0 == Phase::<Seq<char>>::Done,
        size <= config.max_file_size ==> spec_step(
            config,
            Phase::CheckingRoom { size },
            Event::Usage { used },
        ) == (Phase::<Seq<char>>::Reserving { size }, Action::<Seq<char>>::Reserve { size }),
{
}

/// No decision ever reserves a file larger than the largest file allowed, nor
/// one for which the usage reported just before leaves no room, whatever the
/// phase and the report.
pub proof fn law_reservations_within_limits(
    config: Config,
    phase: Phase<Seq<char>>,
    event: Event<Seq<char>>,
)
    ensures
        spec_step(config, phase, event).1 matches Action::Reserve { size } ==> {
            &&& size <= config.max_file_size
            &&& phase == Phase::<Seq<char>>::CheckingRoom { size }
            &&& event matches Event::Usage { used } && used + size < config.max_on_disk_storage
        },
{
}


/// Once the file is ready to send, the request is answered with a header that
/// names the file by its prefix, `attachment; filename="prefix"`: at once, taking
/// off when the file is deleted the size reserved early, or after the stored
/// file is measured where no size was reserved; where that header is not a
/// valid header value, it ends in an internal failure.
pub proof fn law_reply_names_the_file(config: Config, early: Option<usize>, prefix: Seq<char>)
    ensures
        ({
            let header = "attachment; filename=\""@ + prefix + "\""@;
            let (next, a) = spec_step(
                config,
                Phase::Serving { early, prefix },
                Event::Served { ok: true },
            );
            &&& !header_text_ok(header) ==> a == (Action::<Seq<char>>::Refuse {
                status: ReplyStatus::InternalServerError,
                error: DumAhhError::Internal,
            })
            &&& header_text_ok(header) && early is Some ==> a == (Action::<Seq<char>>::Reply {
                header,
                add: 0,
                release: early->0,
            })
            &&& header_text_ok(header) && early is None ==> next == (Phase::<
                Seq<char>,
            >::Measuring { header }) && a == Action::<Seq<char>>::Measure
        }),
{
}

/// A file that cannot be made ready to send is answered with Not Found.
pub proof fn law_unserved_file_not_found(config: Config, early: Option<usize>, prefix: Seq<char>)
    ensures
        spec_step(config, Phase::Serving { early, prefix }, Event::Served { ok: false }).1 == (
        Action::<Seq<char>>::Refuse {
            status: ReplyStatus::NotFound,
            error: DumAhhError::FileNotFound,
        }),
{
}

/// The file is downloaded under exactly the prefix that was reported, and the
/// measured size of a file with no early reservation is both added and later
/// released.
pub proof fn law_prefix_and_measured_size(
    config: Config,
    early: Option<usize>,
    prefix: Seq<char>,
    header: Seq<char>,
    n: usize,
)
    ensures
        spec_step(config, Phase::Naming { early }, Event::Named { name: Ok(prefix) }).1 == (
        Action::<Seq<char>>::Download { prefix }),
        spec_step(config, Phase::Measuring { header }, Event::Measured { size: Some(n) }).1 == (
        Action::<Seq<char>>::Reply { header, add: n, release: n }),
{
}

} // verus!
