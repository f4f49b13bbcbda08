//! Fetching the newest image of one device without ever leaving a partial
//! file at its final path.
//!
//! A `Materializer` decides; its caller acts. The machine names the one thing
//! it is waiting for (a `Request`), the caller does it and reports what
//! happened (an `Event`), and the machine answers with the next request until
//! it holds an outcome. The final path is touched by one request only,
//! `Promote`, and that request is made only once the stream has drained.

use vstd::prelude::*;
use vstd::string::StringExecFns;
use crate::api_json_types::{
    is_safe_name, sanitize_name, sanitized, sanitized_keeps_safe_name, Firmware, FirmwareListing,
};
use crate::options::CliOpts;
use crate::outcome::{
    already_downloaded_reason, interrupted_message, no_firmware_reason, overflow_message,
    DownloadOutcome, ErrorKind, OutcomeView,
};

verus! {

/// What the machine is waiting for its caller to do.
#[derive(Clone, Copy, Debug, PartialEq, Eq, Structural)]
pub enum Request {
    /// Tell whether a file exists at the final path.
    ProbeTarget,
    /// Remove the other files of the device's directory, as far as they go.
    PurgeStale,
    /// Create the temporary stage, outside the destination tree.
    OpenStage,
    /// Ask the catalog service for the image's byte stream.
    OpenStream,
    /// Wait for the next chunk or for the interrupt, whichever comes first,
    /// and append a chunk to the stage.
    AwaitChunk,
    /// Create the device's directory and copy the stage to the final path.
    Promote,
    /// Nothing more: the outcome is there, and the stage can be dropped.
    Nothing,
}

/// What the caller reports back.
#[derive(Clone, Debug, PartialEq, Eq)]
pub enum Event {
    /// Answers `ProbeTarget`: whether the final path exists.
    TargetProbed(bool),
    /// Answers `PurgeStale`, however many removals failed.
    StalePurged,
    /// Answers `OpenStage`: the stage is ready.
    StageOpened,
    /// Answers `OpenStage`: the stage could not be created.
    StageFailed(String),
    /// Answers `OpenStream`: the stream is open and declares this length.
    StreamOpened(u64),
    /// Answers `OpenStream`: the service refused.
    StreamFailed(String),
    /// Answers `AwaitChunk`: a chunk of this many bytes is on the stage.
    ChunkStaged(u64),
    /// Answers `AwaitChunk`: a chunk could not be read or staged.
    ChunkFailed(String),
    /// Answers `AwaitChunk`: the stream has no more chunks.
    StreamEnded,
    /// Answers `AwaitChunk`: the interrupt came first.
    Cancelled,
    /// Answers `Promote`: the whole stage is at the final path.
    Promoted,
    /// Answers `Promote`: the directory or the copy failed.
    PromoteFailed(String),
}

/// An `Event` with its texts as sequences of characters.
pub enum EventView {
    TargetProbed(bool),
    StalePurged,
    StageOpened,
    StageFailed(Seq<char>),
    StreamOpened(u64),
    StreamFailed(Seq<char>),
    ChunkStaged(u64),
    ChunkFailed(Seq<char>),
    StreamEnded,
    Cancelled,
    Promoted,
    PromoteFailed(Seq<char>),
}

impl View for Event {
    type V = EventView;

    open spec fn view(&self) -> EventView {
        match self {
            Event::TargetProbed(exists) => EventView::TargetProbed(*exists),
            Event::StalePurged => EventView::StalePurged,
            Event::StageOpened => EventView::StageOpened,
            Event::StageFailed(m) => EventView::StageFailed(m@),
            Event::StreamOpened(n) => EventView::StreamOpened(*n),
            Event::StreamFailed(m) => EventView::StreamFailed(m@),
            Event::ChunkStaged(n) => EventView::ChunkStaged(*n),
            Event::ChunkFailed(m) => EventView::ChunkFailed(m@),
            Event::StreamEnded => EventView::StreamEnded,
            Event::Cancelled => EventView::Cancelled,
            Event::Promoted => EventView::Promoted,
            Event::PromoteFailed(m) => EventView::PromoteFailed(m@),
        }
    }
}

/// Where an image goes: `root/directory/file_name`.
#[derive(Clone, Debug, PartialEq, Eq)]
pub struct Target {
    /// The destination root of the run.
    pub root: String,
    /// The device's directory below the root: one component.
    pub directory: String,
    /// The image's file name in that directory.
    pub file_name: String,
}

/// The file name of an image of this version.
pub open spec fn image_file_name(version: Seq<char>) -> Seq<char> {
    version + ".ipsw"@
}

/// The path as text, its three parts joined by `/`.
pub open spec fn joined_path(root: Seq<char>, directory: Seq<char>, file_name: Seq<char>) -> Seq<
    char,
> {
    root + "/"@ + directory + "/"@ + file_name
}

impl Target {
    /// Tells whether a file of the device's directory is a stale one: any
    /// but the image itself.
    pub fn is_stale(&self, entry: &String) -> (stale: bool)
        ensures
            stale == (entry@ != self.file_name@),
    {
        !(*entry == self.file_name)
    }

    /// The path as text: root, directory and file name, joined by `/`.
    pub fn path_text(&self) -> (path: String)
        ensures
            path@ == joined_path(self.root@, self.directory@, self.file_name@),
    {
        let mut path = self.root.clone();
        path.append("/");
        path.append(self.directory.as_str());
        path.append("/");
        path.append(self.file_name.as_str());
        path
    }
}

/// The state of a `Materializer` as the transitions see it.
pub struct MachineState {
    /// What the caller is to do next.
    pub waiting: Request,
    /// Whether stale files are removed before the download.
    pub purge: bool,
    /// The length that the stream declared, 0 before it opened.
    pub declared: u64,
    /// The bytes staged so far.
    pub written: u64,
    /// The outcome, once there is one.
    pub outcome: Option<OutcomeView>,
}

/// The state in which a download ended with `outcome`.
pub open spec fn finished(s: MachineState, outcome: OutcomeView) -> MachineState {
    MachineState { waiting: Request::Nothing, outcome: Some(outcome), ..s }
}

/// The state in which the caller is asked for `request`.
pub open spec fn asking(s: MachineState, request: Request) -> MachineState {
    MachineState { waiting: request, ..s }
}

/// The state before anything was done for a listing.
pub open spec fn initial(has_firmware: bool, purge: bool) -> MachineState {
    if has_firmware {
        MachineState {
            waiting: Request::ProbeTarget,
            purge,
            declared: 0,
            written: 0,
            outcome: None,
        }
    } else {
        MachineState {
            waiting: Request::Nothing,
            purge,
            declared: 0,
            written: 0,
            outcome: Some(OutcomeView::Skipped(no_firmware_reason())),
        }
    }
}

/// The transition: the state that follows `s` when the caller reports `e`.
/// An event that does not answer the pending request changes nothing.
pub open spec fn after(s: MachineState, e: EventView) -> MachineState {
    match (s.waiting, e) {
        (Request::ProbeTarget, EventView::TargetProbed(exists)) => if exists {
            finished(s, OutcomeView::Skipped(already_downloaded_reason()))
        } else if s.purge {
            asking(s, Request::PurgeStale)
        } else {
            asking(s, Request::OpenStage)
        },
        (Request::PurgeStale, EventView::StalePurged) => asking(s, Request::OpenStage),
        (Request::OpenStage, EventView::StageOpened) => asking(s, Request::OpenStream),
        (Request::OpenStage, EventView::StageFailed(m)) => finished(
            s,
            OutcomeView::Failed(ErrorKind::IoError, m),
        ),
        (Request::OpenStream, EventView::StreamOpened(n)) => MachineState {
            waiting: Request::AwaitChunk,
            declared: n,
            ..s
        },
        (Request::OpenStream, EventView::StreamFailed(m)) => finished(
            s,
            OutcomeView::Failed(ErrorKind::RemoteUnavailable, m),
        ),
        (Request::AwaitChunk, EventView::ChunkStaged(n)) => if s.written + n <= u64::MAX {
            MachineState { written: (s.written + n) as u64, ..s }
        } else {
            finished(s, OutcomeView::Failed(ErrorKind::IoError, overflow_message()))
        },
        (Request::AwaitChunk, EventView::ChunkFailed(m)) => finished(
            s,
            OutcomeView::Failed(ErrorKind::IoError, m),
        ),
        (Request::AwaitChunk, EventView::StreamEnded) => asking(s, Request::Promote),
        (Request::AwaitChunk, EventView::Cancelled) => finished(
            s,
            OutcomeView::Failed(ErrorKind::Cancelled, interrupted_message()),
        ),
        (Request::Promote, EventView::Promoted) => finished(s, OutcomeView::Completed(s.written)),
        (Request::Promote, EventView::PromoteFailed(m)) => finished(
            s,
            OutcomeView::Failed(ErrorKind::IoError, m),
        ),
        _ => s,
    }
}

/// The state after a whole sequence of reports, first to last.
pub open spec fn after_all(s: MachineState, events: Seq<EventView>) -> MachineState
    decreases events.len(),
{
    if events.len() == 0 {
        s
    } else {
        after_all(after(s, events[0]), events.drop_first())
    }
}

/// A request other than `Nothing` is pending exactly while there is no
/// outcome.
pub open spec fn coherent(s: MachineState) -> bool {
    (s.waiting == Request::Nothing) <==> s.outcome.is_some()
}

/// The download of one device's newest image, as a machine that its caller
/// drives.
pub struct Materializer {
    waiting: Request,
    purge: bool,
    declared: u64,
    written: u64,
    outcome: Option<DownloadOutcome>,
    target: Option<Target>,
}

impl View for Materializer {
    type V = MachineState;

    closed spec fn view(&self) -> MachineState {
        MachineState {
            waiting: self.waiting,
            purge: self.purge,
            declared: self.declared,
            written: self.written,
            outcome: match self.outcome {
                Some(o) => Some(o@),
                None => None,
            },
        }
    }
}

impl Materializer {
    /// The final path of the image, if the listing had one.
    pub closed spec fn spec_target(&self) -> Option<Target> {
        self.target
    }

    /// Starts on a listing. Without images there is nothing to do and the
    /// outcome is there at once; otherwise the first request is to probe the
    /// final path, which is the root, the sanitized device name and the
    /// newest image's version with the extension `.ipsw`.
    pub fn new(listing: &FirmwareListing, opt: &CliOpts) -> (m: Materializer)
        ensures
            m@ == initial(listing.firmwares@.len() > 0, opt.delete_old_fw),
            coherent(m@),
            listing.firmwares@.len() == 0 ==> m.spec_target().is_none(),
            listing.firmwares@.len() > 0 ==> m.spec_target().is_some() && {
                let t = m.spec_target().unwrap();
                &&& t.root@ == opt.download_path@
                &&& t.directory@ == sanitized(listing.name@)
                &&& t.file_name@ == image_file_name(listing.firmwares@[0].version@)
                &&& is_safe_name(t.directory@)
                &&& listing.is_sanitized() ==> t.directory@ == listing.name@
            },
    {
        proof {
            if listing.is_sanitized() {
                sanitized_keeps_safe_name(listing.name@);
            }
        }
        if listing.firmwares.len() == 0 {
            Materializer {
                waiting: Request::Nothing,
                purge: opt.delete_old_fw,
                declared: 0,
                written: 0,
                outcome: Some(DownloadOutcome::no_firmware()),
                target: None,
            }
        } else {
            let newest: &Firmware = &listing.firmwares[0];
            let mut file_name = newest.version.clone();
            file_name.append(".ipsw");
            let target = Target {
                root: opt.download_path.clone(),
                directory: sanitize_name(listing.name.as_str()),
                file_name,
            };
            Materializer {
                waiting: Request::ProbeTarget,
                purge: opt.delete_old_fw,
                declared: 0,
                written: 0,
                outcome: None,
                target: Some(target),
            }
        }
    }

    /// What the caller is to do next.
    pub fn pending(&self) -> (request: Request)
        ensures
            request == self@.waiting,
    {
        self.waiting
    }

    /// The outcome, once the machine has one.
    pub fn outcome(&self) -> (outcome: Option<&DownloadOutcome>)
        ensures
            outcome.is_some() == self@.outcome.is_some(),
            outcome.is_some() ==> outcome.unwrap()@ == self@.outcome.unwrap(),
    {
        self.outcome.as_ref()
    }

    /// The final path of the image, if the listing had one.
    pub fn target(&self) -> (target: Option<&Target>)
        ensures
            target.is_some() == self.spec_target().is_some(),
            target.is_some() ==> *target.unwrap() == self.spec_target().unwrap(),
    {
        self.target.as_ref()
    }

    /// The bytes staged so far.
    pub fn written(&self) -> (bytes: u64)
        ensures
            bytes == self@.written,
    {
        self.written
    }

    /// The length that the stream declared when it opened, 0 before that.
    pub fn declared(&self) -> (bytes: u64)
        ensures
            bytes == self@.declared,
    {
        self.declared
    }

    fn finish(&mut self, outcome: DownloadOutcome)
        ensures
            final(self)@ == finished(old(self)@, outcome@),
            final(self).spec_target() == old(self).spec_target(),
    {
        self.waiting = Request::Nothing;
        self.outcome = Some(outcome);
    }

    /// Takes the caller's report and answers with the next request. The
    /// machine moves as `after` says; the final path stays what it was.
    pub fn step(&mut self, event: Event) -> (request: Request)
        ensures
            final(self)@ == after(old(self)@, event@),
            request == final(self)@.waiting,
            final(self).spec_target() == old(self).spec_target(),
            coherent(old(self)@) ==> coherent(final(self)@),
    {
        match self.waiting {
            Request::ProbeTarget => match event {
                Event::TargetProbed(exists) => {
                    if exists {
                        self.finish(DownloadOutcome::already_downloaded());
                    } else if self.purge {
                        self.waiting = Request::PurgeStale;
                    } else {
                        self.waiting = Request::OpenStage;
                    }
                },
                _ => {},
            },
            Request::PurgeStale => match event {
                Event::StalePurged => {
                    self.waiting = Request::OpenStage;
                },
                _ => {},
            },
            Request::OpenStage => match event {
                Event::StageOpened => {
                    self.waiting = Request::OpenStream;
                },
                Event::StageFailed(m) => {
                    self.finish(DownloadOutcome::Failed(ErrorKind::IoError, m));
                },
                _ => {},
            },
            Request::OpenStream => match event {
                Event::StreamOpened(n) => {
                    self.declared = n;
                    self.waiting = Request::AwaitChunk;
                },
                Event::StreamFailed(m) => {
                    self.finish(DownloadOutcome::Failed(ErrorKind::RemoteUnavailable, m));
                },
                _ => {},
            },
            Request::AwaitChunk => match event {
                Event::ChunkStaged(n) => {
                    if n <= u64::MAX - self.written {
                        self.written = self.written + n;
                    } else {
                        self.finish(
                            DownloadOutcome::Failed(
                                ErrorKind::IoError,
                                String::from_str("staged size out of range"),
                            ),
                        );
                    }
                },
                Event::ChunkFailed(m) => {
                    self.finish(DownloadOutcome::Failed(ErrorKind::IoError, m));
                },
                Event::StreamEnded => {
                    self.waiting = Request::Promote;
                },
                Event::Cancelled => {
                    self.finish(DownloadOutcome::interrupted());
                },
                _ => {},
            },
            Request::Promote => match event {
                Event::Promoted => {
                    let bytes: u64 = self.written;
                    self.finish(DownloadOutcome::Completed(bytes));
                },
                Event::PromoteFailed(m) => {
                    self.finish(DownloadOutcome::Failed(ErrorKind::IoError, m));
                },
                _ => {},
            },
            Request::Nothing => {},
        }
        self.waiting
    }
}

/// The bytes of a sequence of chunks, added up.
pub open spec fn total_len(chunks: Seq<u64>) -> nat
    decreases chunks.len(),
{
    if chunks.len() == 0 {
        0
    } else {
        chunks[0] as nat + total_len(chunks.drop_first())
    }
}

/// The reports of a stream that delivers these chunks, each staged.
pub open spec fn chunk_events(chunks: Seq<u64>) -> Seq<EventView> {
    Seq::new(chunks.len(), |i: int| EventView::ChunkStaged(chunks[i]))
}

/// One step keeps the outcome and the pending request in accord.
pub proof fn step_keeps_coherence(s: MachineState, e: EventView)
    requires
        coherent(s),
    ensures
        coherent(after(s, e)),
{
}

/// Reporting a sequence and then another is reporting the two in a row.
pub proof fn after_all_splits(s: MachineState, first: Seq<EventView>, second: Seq<EventView>)
    ensures
        after_all(s, first + second) == after_all(after_all(s, first), second),
    decreases first.len(),
{
    if first.len() == 0 {
        assert(first + second =~= second);
    } else {
        assert((first + second)[0] == first[0]);
        assert((first + second).drop_first() =~= first.drop_first() + second);
        after_all_splits(after(s, first[0]), first.drop_first(), second);
    }
}

/// A machine that waits for nothing never moves again, whatever is
/// reported to it: it makes no further request.
pub proof fn finished_machine_rests(s: MachineState, events: Seq<EventView>)
    requires
        s.waiting == Request::Nothing,
    ensures
        after_all(s, events) == s,
    decreases events.len(),
{
    if events.len() > 0 {
        finished_machine_rests(s, events.drop_first());
    }
}

/// For a listing without images the machine starts with the outcome
/// `Skipped` and asks for nothing, now or after any reports: no file is
/// probed, staged or written.
pub proof fn empty_listing_asks_nothing(purge: bool, events: Seq<EventView>)
    ensures
        initial(false, purge).waiting == Request::Nothing,
        after_all(initial(false, purge), events).waiting == Request::Nothing,
        after_all(initial(false, purge), events).outcome == Some(
            OutcomeView::Skipped(no_firmware_reason()),
        ),
{
    finished_machine_rests(initial(false, purge), events);
}

/// Where the final path exists already, the probe is the only request the
/// machine ever makes: the outcome is `Skipped`, and whatever is reported
/// afterwards no stream is opened.
pub proof fn stored_image_is_skipped(purge: bool, events: Seq<EventView>)
    ensures
        initial(true, purge).waiting == Request::ProbeTarget,
        after_all(
            after(initial(true, purge), EventView::TargetProbed(true)),
            events,
        ).waiting == Request::Nothing,
        after_all(
            after(initial(true, purge), EventView::TargetProbed(true)),
            events,
        ).outcome == Some(OutcomeView::Skipped(already_downloaded_reason())),
{
    finished_machine_rests(after(initial(true, purge), EventView::TargetProbed(true)), events);
}

/// Promotion is asked for by one transition only: the stream ending while
/// the machine waited for a chunk.
pub proof fn promotion_follows_drained_stream(s: MachineState, e: EventView)
    requires
        s.waiting != Request::Promote,
        after(s, e).waiting == Request::Promote,
    ensures
        s.waiting == Request::AwaitChunk,
        e == EventView::StreamEnded,
{
}

/// `Completed` comes from one transition only: the caller reporting the
/// promotion that the machine asked for. It counts the bytes staged.
pub proof fn completion_follows_promotion(s: MachineState, e: EventView, bytes: u64)
    requires
        s.outcome.is_none(),
        after(s, e).outcome == Some(OutcomeView::Completed(bytes)),
    ensures
        s.waiting == Request::Promote,
        e == EventView::Promoted,
        bytes == s.written,
{
}

/// An interrupt that wins the race for a chunk ends the download as
/// `Failed(Cancelled)`. Whatever is reported afterwards, the machine never
/// asks for promotion, so nothing is written at the final path.
pub proof fn interrupt_forbids_promotion(s: MachineState, events: Seq<EventView>)
    requires
        s.waiting == Request::AwaitChunk,
    ensures
        after(s, EventView::Cancelled).outcome == Some(
            OutcomeView::Failed(ErrorKind::Cancelled, interrupted_message()),
        ),
        after_all(after(s, EventView::Cancelled), events) == after(s, EventView::Cancelled),
        after_all(after(s, EventView::Cancelled), events).waiting == Request::Nothing,
{
    finished_machine_rests(after(s, EventView::Cancelled), events);
}

/// Staging chunks adds their lengths to the count and changes nothing else,
/// as long as the count stays within `u64`.
pub proof fn chunks_add_up(s: MachineState, chunks: Seq<u64>)
    requires
        s.waiting == Request::AwaitChunk,
        s.written + total_len(chunks) <= u64::MAX,
    ensures
        after_all(s, chunk_events(chunks)) == (MachineState {
            written: (s.written + total_len(chunks)) as u64,
            ..s
        }),
    decreases chunks.len(),
{
    if chunks.len() > 0 {
        let rest = chunks.drop_first();
        let next = after(s, chunk_events(chunks)[0]);
        assert(chunk_events(chunks).drop_first() =~= chunk_events(rest));
        chunks_add_up(next, rest);
    }
}

/// A stream that drains without an interrupt and is then promoted ends as
/// `Completed` with exactly the bytes of its chunks; where they add up to
/// the declared length, with exactly the declared length.
pub proof fn drained_stream_completes(s: MachineState, chunks: Seq<u64>)
    requires
        s.waiting == Request::AwaitChunk,
        s.written + total_len(chunks) <= u64::MAX,
    ensures
        after_all(
            s,
            chunk_events(chunks) + seq![EventView::StreamEnded, EventView::Promoted],
        ).outcome == Some(OutcomeView::Completed((s.written + total_len(chunks)) as u64)),
        s.written + total_len(chunks) == s.declared ==> after_all(
            s,
            chunk_events(chunks) + seq![EventView::StreamEnded, EventView::Promoted],
        ).outcome == Some(OutcomeView::Completed(s.declared)),
{
    let tail = seq![EventView::StreamEnded, EventView::Promoted];
    chunks_add_up(s, chunks);
    after_all_splits(s, chunk_events(chunks), tail);
    let staged = after_all(s, chunk_events(chunks));
    let ended = after(staged, tail[0]);
    assert(tail.drop_first() =~= seq![EventView::Promoted]);
    let last = tail.drop_first();
    assert(last.drop_first() =~= Seq::<EventView>::empty());
    assert(after_all(ended, last) == after_all(after(ended, last[0]), last.drop_first()));
    assert(after_all(staged, tail) == after_all(ended, tail.drop_first()));
}

/// The outcome says that the user interrupted the download.
pub open spec fn is_cancelled(outcome: Option<OutcomeView>) -> bool {
    outcome matches Some(OutcomeView::Failed(kind, _)) && kind == ErrorKind::Cancelled
}

/// The machine has asked for promotion, or has ended otherwise than by an
/// interrupt.
pub open spec fn past_interrupt(s: MachineState) -> bool {
    ||| s.waiting == Request::Promote && s.outcome.is_none()
    ||| s.waiting == Request::Nothing && !is_cancelled(s.outcome)
}

/// Reports keep the outcome and the pending request in accord.
pub proof fn reports_keep_coherence(s: MachineState, events: Seq<EventView>)
    requires
        coherent(s),
    ensures
        coherent(after_all(s, events)),
    decreases events.len(),
{
    if events.len() > 0 {
        reports_keep_coherence(after(s, events[0]), events.drop_first());
    }
}

/// Once promotion is asked for, no report makes the download end as
/// interrupted.
pub proof fn promotion_excludes_interrupt(s: MachineState, events: Seq<EventView>)
    requires
        past_interrupt(s),
    ensures
        past_interrupt(after_all(s, events)),
        !is_cancelled(after_all(s, events).outcome),
    decreases events.len(),
{
    if events.len() > 0 {
        promotion_excludes_interrupt(after(s, events[0]), events.drop_first());
    }
}

/// In a run of reports that ends as interrupted, the machine asked for
/// promotion at no point: after none of the first `i` reports, for any
/// `i`, is `Promote` pending. So the final path was never written.
pub proof fn interrupted_run_never_promotes(s: MachineState, events: Seq<EventView>, i: int)
    requires
        coherent(s),
        0 <= i <= events.len(),
        is_cancelled(after_all(s, events).outcome),
    ensures
        after_all(s, events.take(i)).waiting != Request::Promote,
{
    let reached = after_all(s, events.take(i));
    reports_keep_coherence(s, events.take(i));
    assert(events =~= events.take(i) + events.skip(i));
    after_all_splits(s, events.take(i), events.skip(i));
    if reached.waiting == Request::Promote {
        promotion_excludes_interrupt(reached, events.skip(i));
    }
}

/// The reports of a download in which nothing goes wrong: the final path
/// is free, stale files are purged if that was asked for, the stage and
/// the stream open, the chunks arrive, the stream ends and the stage is
/// promoted.
pub open spec fn smooth_run(purge: bool, declared: u64, chunks: Seq<u64>) -> Seq<EventView> {
    let opening = if purge {
        seq![
            EventView::TargetProbed(false),
            EventView::StalePurged,
            EventView::StageOpened,
            EventView::StreamOpened(declared),
        ]
    } else {
        seq![
            EventView::TargetProbed(false),
            EventView::StageOpened,
            EventView::StreamOpened(declared),
        ]
    };
    opening + (chunk_events(chunks) + seq![EventView::StreamEnded, EventView::Promoted])
}

/// A download in which nothing goes wrong, and whose chunks add up to the
/// declared length, ends as `Completed` with exactly the declared length.
pub proof fn smooth_run_completes(purge: bool, declared: u64, chunks: Seq<u64>)
    requires
        total_len(chunks) == declared,
    ensures
        after_all(initial(true, purge), smooth_run(purge, declared, chunks)).outcome == Some(
            OutcomeView::Completed(declared),
        ),
{
    let start = initial(true, purge);
    let streaming = MachineState { waiting: Request::AwaitChunk, declared, ..start };
    let rest = chunk_events(chunks) + seq![EventView::StreamEnded, EventView::Promoted];
    if purge {
        let opening = seq![
            EventView::TargetProbed(false),
            EventView::StalePurged,
            EventView::StageOpened,
            EventView::StreamOpened(declared),
        ];
        reveal_with_fuel(after_all, 5);
        assert(after_all(start, opening) == streaming);
        after_all_splits(start, opening, rest);
    } else {
        let opening = seq![
            EventView::TargetProbed(false),
            EventView::StageOpened,
            EventView::StreamOpened(declared),
        ];
        reveal_with_fuel(after_all, 4);
        assert(after_all(start, opening) == streaming);
        after_all_splits(start, opening, rest);
    }
    drained_stream_completes(streaming, chunks);
}

} // verus!
