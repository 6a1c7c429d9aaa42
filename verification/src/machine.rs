//! The update orchestrator as an event-driven state machine. The driver
//! performs one action at a time (list a directory, query or stop a
//! process, fetch, download, write files, launch) and feeds the outcome
//! back as the next event; every decision between those actions is made
//! and verified here.
use vstd::prelude::*;
use vstd::string::StrSliceExecFns;
use crate::strutil::{contains_seq, lower_of, lowercase, str_contains, str_eq};
use crate::version::{Version, VersionV, valid_version, canonical, marker_version_spec, read_marker,
    parse_tag, parse_tag_spec};
use crate::release::{Asset, AssetV, Release, ReleaseV, check_spec, check_release, release_url,
    release_url_spec};
use crate::archive::{FileAction, FileActionV, actions_view, plan_spec, zip_decode, zip_entry_ok,
    extract_plan};
use crate::locate::{FsEntry, FsEntryV, ResolvedExe, ResolvedV, entries_view, subs_view,
    resolve_spec, resolve};
use crate::{Config, ConfigV};

verus! {

/// What the command line asked for: an optional installation-directory
/// override and the flag that skips the update check.
pub struct CliOptions {
    pub skip_update: bool,
    pub app_dir: Option<String>,
}

pub ghost struct CliOptionsV {
    pub skip_update: bool,
    pub app_dir: Option<Seq<char>>,
}

impl View for CliOptions {
    type V = CliOptionsV;

    open spec fn view(&self) -> CliOptionsV {
        CliOptionsV {
            skip_update: self.skip_update,
            app_dir: match self.app_dir {
                Option::None => Option::None,
                Option::Some(d) => Option::Some(d@),
            },
        }
    }
}

/// How the argument list reads, scanning from `i`: `--no-update` sets the
/// skip flag; the first argument not starting with `-` is the
/// installation directory; everything else is ignored.
pub open spec fn parse_args_from(args: Seq<Seq<char>>, i: int, acc: CliOptionsV) -> CliOptionsV
    decreases args.len() - i,
{
    if i < 0 || i >= args.len() {
        acc
    } else {
        let a = args[i];
        let acc2 = if a == "--no-update"@ {
            CliOptionsV { skip_update: true, app_dir: acc.app_dir }
        } else if !(a.len() > 0 && a[0] == '-') && acc.app_dir is None {
            CliOptionsV { skip_update: acc.skip_update, app_dir: Option::Some(a) }
        } else {
            acc
        };
        parse_args_from(args, i + 1, acc2)
    }
}

/// What a full argument list (program name first) means.
pub open spec fn parse_args_spec(args: Seq<Seq<char>>) -> CliOptionsV {
    parse_args_from(args, 1, CliOptionsV { skip_update: false, app_dir: Option::None })
}

pub open spec fn args_view(args: Vec<String>) -> Seq<Seq<char>> {
    args@.map_values(|a: String| a@)
}

/// Reads the command line: program name first, then the arguments.
pub fn parse_args(args: &Vec<String>) -> (r: CliOptions)
    ensures
        r@ == parse_args_spec(args_view(*args)),
{
    let n = args.len();
    let mut acc = CliOptions { skip_update: false, app_dir: None };
    let mut i: usize = 1;
    if n < 1 {
        proof {
            assert(parse_args_spec(args_view(*args)) == acc@);
        }
        return acc;
    }
    while i < n
        invariant
            1 <= i <= n,
            n == args@.len(),
            parse_args_spec(args_view(*args)) == parse_args_from(args_view(*args), i as int, acc@),
        decreases n - i,
    {
        let a = &args[i];
        proof {
            assert(args_view(*args)[i as int] == args@[i as int]@);
        }
        if str_eq(a.as_str(), "--no-update") {
            acc.skip_update = true;
        } else {
            let starts_dash = a.as_str().unicode_len() > 0 && a.as_str().get_char(0) == '-';
            if !starts_dash && acc.app_dir.is_none() {
                acc.app_dir = Some(a.clone());
            }
        }
        i += 1;
    }
    acc
}

/// Whether a process-table listing names the image: the lowercased output
/// contains the lowercased image name.
pub fn output_indicates_running(output: &str, process_name: &str) -> (r: bool)
    ensures
        r == contains_seq(lower_of(output@), lower_of(process_name@)),
{
    let lo = lowercase(output);
    let ln = lowercase(process_name);
    str_contains(lo.as_str(), ln.as_str())
}

/// Where the orchestrator stands, between one action and the next event.
pub enum State {
    /// Waiting for the installation-directory listing.
    Resolving { skip: bool },
    /// Skip flag set: waiting to hear whether the application runs.
    FastPath { app: ResolvedExe },
    /// Waiting for the version-marker content.
    ReadingMarker { app: ResolvedExe },
    /// Waiting for the latest release.
    Checking { app: ResolvedExe, current: Version },
    /// Waiting for the archive bytes.
    Downloading { app: ResolvedExe, latest: Version },
    /// Waiting for the application to be stopped.
    Stopping { app: ResolvedExe, latest: Version, bytes: Vec<u8> },
    /// Waiting for the deployment actions to be applied.
    Applying { app: ResolvedExe, latest: Version },
    /// Waiting for the new version marker to be persisted.
    Persisting { app: ResolvedExe, latest: Version },
    /// Waiting for the self-replacement helper to be scheduled.
    Scheduling { app: ResolvedExe },
    /// Waiting for the post-update listing, to resolve the executable
    /// anew.
    ReResolving { app: ResolvedExe },
    /// The run is over; `code` is the process exit status.
    Done { code: u8 },
}

pub ghost enum StateV {
    Resolving { skip: bool },
    FastPath { app: ResolvedV },
    ReadingMarker { app: ResolvedV },
    Checking { app: ResolvedV, current: VersionV },
    Downloading { app: ResolvedV, latest: VersionV },
    Stopping { app: ResolvedV, latest: VersionV, bytes: Seq<u8> },
    Applying { app: ResolvedV, latest: VersionV },
    Persisting { app: ResolvedV, latest: VersionV },
    Scheduling { app: ResolvedV },
    ReResolving { app: ResolvedV },
    Done { code: u8 },
}

impl View for State {
    type V = StateV;

    open spec fn view(&self) -> StateV {
        match self {
            State::Resolving { skip } => StateV::Resolving { skip: *skip },
            State::FastPath { app } => StateV::FastPath { app: app@ },
            State::ReadingMarker { app } => StateV::ReadingMarker { app: app@ },
            State::Checking { app, current } => StateV::Checking { app: app@, current: current@ },
            State::Downloading { app, latest } => StateV::Downloading {
                app: app@,
                latest: latest@,
            },
            State::Stopping { app, latest, bytes } => StateV::Stopping {
                app: app@,
                latest: latest@,
                bytes: bytes@,
            },
            State::Applying { app, latest } => StateV::Applying { app: app@, latest: latest@ },
            State::Persisting { app, latest } => StateV::Persisting { app: app@, latest: latest@ },
            State::Scheduling { app } => StateV::Scheduling { app: app@ },
            State::ReResolving { app } => StateV::ReResolving { app: app@ },
            State::Done { code } => StateV::Done { code: *code },
        }
    }
}

/// What the driver reports back after performing an action.
#[allow(inconsistent_fields)]
pub enum Event {
    /// The installation-directory listing: the root entries, and for each
    /// root entry the listing of it when it is a directory (else empty).
    Listing { root: Vec<FsEntry>, subs: Vec<Vec<FsEntry>> },
    /// Whether the application process is running.
    Running { running: bool },
    /// The content of the version marker, when it was readable.
    Marker { content: Option<String> },
    /// The latest release, when the request, status and body all came
    /// through; any failure collapses to nothing.
    Latest { release: Option<Release> },
    /// The downloaded archive bytes, or why the download failed.
    Downloaded { result: Result<Vec<u8>, String> },
    /// The stop request was issued and the grace period has passed.
    Stopped,
    /// Whether applying the deployment actions succeeded.
    Applied { result: Result<(), String> },
    /// Whether persisting the version marker succeeded.
    MarkerWritten { result: Result<(), String> },
    /// Whether the self-replacement helper could be spawned.
    Scheduled { ok: bool },
}

#[allow(inconsistent_fields)]
pub ghost enum EventV {
    Listing { root: Seq<FsEntryV>, subs: Seq<Seq<FsEntryV>> },
    Running { running: bool },
    Marker { content: Option<Seq<char>> },
    Latest { release: Option<ReleaseV> },
    Downloaded { result: Result<Seq<u8>, Seq<char>> },
    Stopped,
    Applied { result: Result<(), Seq<char>> },
    MarkerWritten { result: Result<(), Seq<char>> },
    Scheduled { ok: bool },
}

impl View for Event {
    type V = EventV;

    open spec fn view(&self) -> EventV {
        match self {
            Event::Listing { root, subs } => EventV::Listing {
                root: entries_view(*root),
                subs: subs_view(*subs),
            },
            Event::Running { running } => EventV::Running { running: *running },
            Event::Marker { content } => EventV::Marker {
                content: match content {
                    Option::None => Option::None,
                    Option::Some(s) => Option::Some(s@),
                },
            },
            Event::Latest { release } => EventV::Latest {
                release: match release {
                    Option::None => Option::None,
                    Option::Some(r) => Option::Some(r@),
                },
            },
            Event::Downloaded { result } => EventV::Downloaded {
                result: match result {
                    Result::Ok(b) => Result::Ok(b@),
                    Result::Err(e) => Result::Err(e@),
                },
            },
            Event::Stopped => EventV::Stopped,
            Event::Applied { result } => EventV::Applied {
                result: match result {
                    Result::Ok(_) => Result::Ok(()),
                    Result::Err(e) => Result::Err(e@),
                },
            },
            Event::MarkerWritten { result } => EventV::MarkerWritten {
                result: match result {
                    Result::Ok(_) => Result::Ok(()),
                    Result::Err(e) => Result::Err(e@),
                },
            },
            Event::Scheduled { ok } => EventV::Scheduled { ok: *ok },
        }
    }
}

/// What the driver must do next.
pub enum Action {
    /// List the installation directory (root entries and each
    /// subdirectory's entries), then report `Listing`.
    ReadListing,
    /// Ask the process table for this image name, then report `Running`.
    QueryRunning { process: String },
    /// Read the version marker, then report `Marker`.
    ReadMarker,
    /// Request this endpoint, then report `Latest`.
    FetchLatest { url: String },
    /// Download this asset, then report `Downloaded`.
    Download { asset: Asset },
    /// Forcefully stop this image and wait the grace period, then report
    /// `Stopped`.
    StopApp { process: String },
    /// Apply these deployment actions in order, then report `Applied`.
    Apply { actions: Vec<FileAction> },
    /// Overwrite the version marker with this text, then report
    /// `MarkerWritten`.
    WriteMarker { text: String },
    /// If a staged replacement exists, spawn the move helper; report
    /// `Scheduled` either way.
    ScheduleReplace,
    /// Launch this executable detached and exit 0; a missing file is a
    /// logged no-op.
    Launch { exe: ResolvedExe },
    /// Do nothing more and exit with this status.
    Exit { code: u8 },
}

pub ghost enum ActionV {
    ReadListing,
    QueryRunning { process: Seq<char> },
    ReadMarker,
    FetchLatest { url: Seq<char> },
    Download { asset: AssetV },
    StopApp { process: Seq<char> },
    Apply { actions: Seq<FileActionV> },
    WriteMarker { text: Seq<char> },
    ScheduleReplace,
    Launch { exe: ResolvedV },
    Exit { code: u8 },
}

impl View for Action {
    type V = ActionV;

    open spec fn view(&self) -> ActionV {
        match self {
            Action::ReadListing => ActionV::ReadListing,
            Action::QueryRunning { process } => ActionV::QueryRunning { process: process@ },
            Action::ReadMarker => ActionV::ReadMarker,
            Action::FetchLatest { url } => ActionV::FetchLatest { url: url@ },
            Action::Download { asset } => ActionV::Download { asset: asset@ },
            Action::StopApp { process } => ActionV::StopApp { process: process@ },
            Action::Apply { actions } => ActionV::Apply { actions: actions_view(*actions) },
            Action::WriteMarker { text } => ActionV::WriteMarker { text: text@ },
            Action::ScheduleReplace => ActionV::ScheduleReplace,
            Action::Launch { exe } => ActionV::Launch { exe: exe@ },
            Action::Exit { code } => ActionV::Exit { code: *code },
        }
    }
}

/// The resolved executable, falling back to the well-known root path when
/// discovery finds nothing.
pub open spec fn resolve_or_root(cfg: ConfigV, root: Seq<FsEntryV>, subs: Seq<Seq<FsEntryV>>) -> ResolvedV {
    match resolve_spec(cfg, root, subs) {
        Option::Some(r) => r,
        Option::None => ResolvedV { dir: Option::None, file: cfg.app_exe },
    }
}

/// Which event answers which state.
pub open spec fn expects(s: StateV, e: EventV) -> bool {
    match (s, e) {
        (StateV::Resolving { .. }, EventV::Listing { root, subs }) => root.len() == subs.len(),
        (StateV::FastPath { .. }, EventV::Running { .. }) => true,
        (StateV::ReadingMarker { .. }, EventV::Marker { .. }) => true,
        (StateV::Checking { .. }, EventV::Latest { .. }) => true,
        (StateV::Downloading { .. }, EventV::Downloaded { .. }) => true,
        (StateV::Stopping { .. }, EventV::Stopped) => true,
        (StateV::Applying { .. }, EventV::Applied { .. }) => true,
        (StateV::Persisting { .. }, EventV::MarkerWritten { .. }) => true,
        (StateV::Scheduling { .. }, EventV::Scheduled { .. }) => true,
        (StateV::ReResolving { .. }, EventV::Listing { root, subs }) => root.len() == subs.len(),
        _ => false,
    }
}

/// Versions carried in a state are well formed.
pub open spec fn state_wf(s: StateV) -> bool {
    match s {
        StateV::Checking { current, .. } => valid_version(current),
        StateV::Downloading { latest, .. } => valid_version(latest),
        StateV::Stopping { latest, .. } => valid_version(latest),
        StateV::Applying { latest, .. } => valid_version(latest),
        StateV::Persisting { latest, .. } => valid_version(latest),
        _ => true,
    }
}

/// The deployment step once the application is stopped: when the bytes
/// are a readable archive whose every entry decompresses, hand the
/// planned actions over; otherwise end the run with a failure.
pub open spec fn apply_transition(
    cfg: ConfigV,
    app: ResolvedV,
    latest: VersionV,
    bytes: Seq<u8>,
) -> (StateV, ActionV) {
    match zip_decode(bytes) {
        Option::None => (StateV::Done { code: 1 }, ActionV::Exit { code: 1 }),
        Option::Some(entries) => if forall|i: int|
            0 <= i < entries.len() ==> #[trigger] zip_entry_ok(bytes, i) {
            (StateV::Applying { app, latest }, ActionV::Apply { actions: plan_spec(cfg, entries) })
        } else {
            (StateV::Done { code: 1 }, ActionV::Exit { code: 1 })
        },
    }
}

/// The transition relation of the orchestrator: the whole update flow,
/// one event at a time.
pub open spec fn next_spec(cfg: ConfigV, s: StateV, e: EventV) -> (StateV, ActionV) {
    match (s, e) {
        (StateV::Resolving { skip }, EventV::Listing { root, subs }) => {
            let app = resolve_or_root(cfg, root, subs);
            if skip {
                (StateV::FastPath { app }, ActionV::QueryRunning { process: app.file })
            } else {
                (StateV::ReadingMarker { app }, ActionV::ReadMarker)
            }
        },
        (StateV::FastPath { app }, EventV::Running { running }) => {
            if running {
                (StateV::Done { code: 0 }, ActionV::Launch { exe: app })
            } else {
                (StateV::ReadingMarker { app }, ActionV::ReadMarker)
            }
        },
        (StateV::ReadingMarker { app }, EventV::Marker { content }) => (
            StateV::Checking { app, current: marker_version_spec(content) },
            ActionV::FetchLatest { url: release_url_spec(cfg.repo) },
        ),
        (StateV::Checking { app, current }, EventV::Latest { release }) => match release {
            Option::None => (StateV::Done { code: 0 }, ActionV::Launch { exe: app }),
            Option::Some(rel) => match check_spec(rel, current) {
                Option::None => (StateV::Done { code: 0 }, ActionV::Launch { exe: app }),
                Option::Some((tag, asset)) => (
                    StateV::Downloading { app, latest: parse_tag_spec(tag).unwrap() },
                    ActionV::Download { asset },
                ),
            },
        },
        (StateV::Downloading { app, latest }, EventV::Downloaded { result }) => match result {
            Result::Err(_) => (StateV::Done { code: 1 }, ActionV::Exit { code: 1 }),
            Result::Ok(bytes) => (
                StateV::Stopping { app, latest, bytes },
                ActionV::StopApp { process: app.file },
            ),
        },
        (StateV::Stopping { app, latest, bytes }, EventV::Stopped) => apply_transition(
            cfg,
            app,
            latest,
            bytes,
        ),
        (StateV::Applying { app, latest }, EventV::Applied { result }) => match result {
            Result::Err(_) => (StateV::Done { code: 1 }, ActionV::Exit { code: 1 }),
            Result::Ok(_) => (
                StateV::Persisting { app, latest },
                ActionV::WriteMarker { text: canonical(latest) },
            ),
        },
        (StateV::Persisting { app, latest }, EventV::MarkerWritten { result }) => match result {
            Result::Err(_) => (StateV::Done { code: 1 }, ActionV::Exit { code: 1 }),
            Result::Ok(_) => (StateV::Scheduling { app }, ActionV::ScheduleReplace),
        },
        (StateV::Scheduling { app }, EventV::Scheduled { .. }) => (
            StateV::ReResolving { app },
            ActionV::ReadListing,
        ),
        (StateV::ReResolving { app }, EventV::Listing { root, subs }) => {
            let exe = match resolve_spec(cfg, root, subs) {
                Option::Some(r) => r,
                Option::None => app,
            };
            (StateV::Done { code: 0 }, ActionV::Launch { exe })
        },
        _ => (StateV::Done { code: 1 }, ActionV::Exit { code: 1 }),
    }
}

/// The first state and action of a run.
pub fn start(opts: &CliOptions) -> (r: (State, Action))
    ensures
        r.0@ == (StateV::Resolving { skip: opts@.skip_update }),
        r.1@ == ActionV::ReadListing,
        state_wf(r.0@),
{
    (State::Resolving { skip: opts.skip_update }, Action::ReadListing)
}

/// One step of the orchestrator: from the current state and the event
/// that answers it, exactly the next state and the next action of
/// `next_spec`.
pub fn step(cfg: &Config, s: State, e: Event) -> (r: (State, Action))
    requires
        expects(s@, e@),
        state_wf(s@),
    ensures
        state_wf(r.0@),
        (r.0@, r.1@) == next_spec(cfg@, s@, e@),
{
    match (s, e) {
        (State::Resolving { skip }, Event::Listing { root, subs }) => {
            let app = match resolve(cfg, &root, &subs) {
                Some(r) => r,
                None => ResolvedExe { dir: None, file: cfg.app_exe.clone() },
            };
            if skip {
                let process = app.file.clone();
                (State::FastPath { app }, Action::QueryRunning { process })
            } else {
                (State::ReadingMarker { app }, Action::ReadMarker)
            }
        },
        (State::FastPath { app }, Event::Running { running }) => {
            if running {
                (State::Done { code: 0 }, Action::Launch { exe: app })
            } else {
                (State::ReadingMarker { app }, Action::ReadMarker)
            }
        },
        (State::ReadingMarker { app }, Event::Marker { content }) => {
            let current = read_marker(content.as_ref());
            (
                State::Checking { app, current },
                Action::FetchLatest { url: release_url(cfg.repo.as_str()) },
            )
        },
        (State::Checking { app, current }, Event::Latest { release }) => match release {
            None => (State::Done { code: 0 }, Action::Launch { exe: app }),
            Some(rel) => match check_release(&rel, &current) {
                None => (State::Done { code: 0 }, Action::Launch { exe: app }),
                Some((tag, asset)) => {
                    let latest = parse_tag(tag.as_str()).unwrap();
                    (State::Downloading { app, latest }, Action::Download { asset })
                },
            },
        },
        (State::Downloading { app, latest }, Event::Downloaded { result }) => match result {
            Err(_) => (State::Done { code: 1 }, Action::Exit { code: 1 }),
            Ok(bytes) => {
                let process = app.file.clone();
                (State::Stopping { app, latest, bytes }, Action::StopApp { process })
            },
        },
        (State::Stopping { app, latest, bytes }, Event::Stopped) => match extract_plan(cfg, bytes) {
            Err(_) => (State::Done { code: 1 }, Action::Exit { code: 1 }),
            Ok(actions) => (State::Applying { app, latest }, Action::Apply { actions }),
        },
        (State::Applying { app, latest }, Event::Applied { result }) => match result {
            Err(_) => (State::Done { code: 1 }, Action::Exit { code: 1 }),
            Ok(_) => {
                let text = crate::version::version_string(&latest);
                (State::Persisting { app, latest }, Action::WriteMarker { text })
            },
        },
        (State::Persisting { app, latest: _ }, Event::MarkerWritten { result }) => match result {
            Err(_) => (State::Done { code: 1 }, Action::Exit { code: 1 }),
            Ok(_) => (State::Scheduling { app }, Action::ScheduleReplace),
        },
        (State::Scheduling { app }, Event::Scheduled { ok: _ }) => (
            State::ReResolving { app },
            Action::ReadListing,
        ),
        (State::ReResolving { app }, Event::Listing { root, subs }) => {
            let exe = match resolve(cfg, &root, &subs) {
                Some(r) => r,
                None => app,
            };
            (State::Done { code: 0 }, Action::Launch { exe })
        },
        _ => (State::Done { code: 1 }, Action::Exit { code: 1 }),
    }
}

/// The application is stopped only on the heels of a successful
/// download; a failed download ends the run with the application left
/// untouched.
pub proof fn lemma_stop_only_after_download(cfg: ConfigV, s: StateV, e: EventV)
    ensures
        (next_spec(cfg, s, e).1 matches ActionV::StopApp { .. }) ==> (s matches
            StateV::Downloading { .. } && e matches EventV::Downloaded { result } && result is Ok),
{
}

/// The remote index is consulted only right after the installed version
/// was read; in particular the fast path never reaches the network.
pub proof fn lemma_fetch_only_after_marker(cfg: ConfigV, s: StateV, e: EventV)
    ensures
        (next_spec(cfg, s, e).1 matches ActionV::FetchLatest { .. }) ==> (s matches
            StateV::ReadingMarker { .. }),
{
}

/// Installation files are touched only while an update is in flight:
/// deployment happens only after the stop, and the marker is rewritten
/// only after a successful deployment.
pub proof fn lemma_writes_only_mid_update(cfg: ConfigV, s: StateV, e: EventV)
    ensures
        (next_spec(cfg, s, e).1 matches ActionV::Apply { .. }) ==> (s matches
            StateV::Stopping { .. }),
        (next_spec(cfg, s, e).1 matches ActionV::WriteMarker { .. }) ==> (s matches
            StateV::Applying { .. }),
{
}

} // verus!
