//! The run over the devices: which device comes next, when the run stops,
//! and the count of what is done.
//!
//! A `Downloader` decides and its caller acts: the caller asks for the next
//! step, fetches and materializes the device it is given, and records the
//! outcome.

use vstd::prelude::*;
use crate::api_json_types::Device;
use crate::cancel::CancellationSignal;
use crate::options::CliOpts;
use crate::outcome::{DownloadOutcome, ErrorKind, OutcomeView};
use crate::report::{progress_line_text, RunReport};
use crate::text::{occurs_in, str_contains};

verus! {

/// The device is one that the run visits: every device without a filter,
/// else those whose name contains the term, case and all.
pub open spec fn wanted(device: Device, filter: Option<Seq<char>>) -> bool {
    match filter {
        None => true,
        Some(term) => occurs_in(term, device.name@),
    }
}

/// The devices that the run visits, in the order of the catalog.
pub open spec fn chosen(devices: Seq<Device>, filter: Option<Seq<char>>) -> Seq<Device> {
    devices.filter(|d: Device| wanted(d, filter))
}

/// The filter term of the options, as characters.
pub open spec fn filter_of(opt: CliOpts) -> Option<Seq<char>> {
    match opt.filter_term {
        Some(term) => Some(term@),
        None => None,
    }
}

/// Taking one more device of the catalog adds it to the chosen ones exactly
/// if it is wanted.
pub proof fn chosen_grows_by_one(devices: Seq<Device>, filter: Option<Seq<char>>, i: int)
    requires
        0 <= i < devices.len(),
    ensures
        chosen(devices.take(i + 1), filter) == if wanted(devices[i], filter) {
            chosen(devices.take(i), filter).push(devices[i])
        } else {
            chosen(devices.take(i), filter)
        },
{
    reveal(Seq::filter);
    assert(devices.take(i + 1).drop_last() =~= devices.take(i));
    assert(devices.take(i + 1).last() == devices[i]);
}

/// The chosen devices of a prefix of the catalog are a prefix of the chosen
/// devices.
pub proof fn chosen_of_prefix(devices: Seq<Device>, filter: Option<Seq<char>>, i: int)
    requires
        0 <= i <= devices.len(),
    ensures
        chosen(devices.take(i), filter).len() <= i,
        chosen(devices.take(i), filter).len() <= chosen(devices, filter).len(),
        forall|k: int|
            0 <= k < chosen(devices.take(i), filter).len() ==> chosen(devices, filter)[k]
                == #[trigger] chosen(devices.take(i), filter)[k],
{
    let pred = |d: Device| wanted(d, filter);
    assert(devices =~= devices.take(i) + devices.skip(i));
    Seq::filter_distributes_over_add(devices.take(i), devices.skip(i), pred);
    devices.take(i).lemma_filter_len(pred);
}

/// Without a filter every device is chosen.
pub proof fn chosen_without_filter(devices: Seq<Device>)
    ensures
        chosen(devices, None) == devices,
    decreases devices.len(),
{
    reveal(Seq::filter);
    if devices.len() > 0 {
        chosen_without_filter(devices.drop_last());
        assert(devices.drop_last().push(devices.last()) =~= devices);
    }
}

/// What the caller is to do next.
#[derive(Clone, Copy, Debug, PartialEq, Eq, Structural)]
pub enum Step {
    /// Fetch the listing of the device at this index of the catalog,
    /// materialize it and record the outcome.
    Fetch(usize),
    /// Every chosen device is done.
    Finish,
    /// The run was interrupted: touch no further device.
    Stop,
}

/// How far a run has come.
#[derive(Clone, Copy)]
struct Walk {
    report: RunReport,
    cursor: usize,
    busy: bool,
}

/// A run over the devices of the catalog.
pub struct Downloader {
    devices: Vec<Device>,
    opt: CliOpts,
    walk: Walk,
    kill_program: bool,
}

impl Downloader {
    /// The devices of the catalog, chosen or not.
    pub closed spec fn devices(&self) -> Seq<Device> {
        self.devices@
    }

    /// The options of the run.
    pub closed spec fn options(&self) -> CliOpts {
        self.opt
    }

    /// The counters of the run.
    pub closed spec fn spec_report(&self) -> RunReport {
        self.walk.report
    }

    /// How far into the catalog the run has come.
    pub closed spec fn position(&self) -> int {
        self.walk.cursor as int
    }

    /// The device at `position` was handed out and its outcome is awaited.
    pub closed spec fn in_progress(&self) -> bool {
        self.walk.busy
    }

    /// An outcome said that the user interrupted the run.
    pub closed spec fn interrupted(&self) -> bool {
        self.kill_program
    }

    /// The devices that this run visits.
    pub open spec fn queue(&self) -> Seq<Device> {
        chosen(self.devices(), filter_of(self.options()))
    }

    /// The count of done devices is the count of chosen devices before
    /// `position`, and a device in progress is a chosen one.
    #[verifier::type_invariant]
    spec fn consistent(&self) -> bool {
        &&& self.walk.cursor <= self.devices@.len()
        &&& self.walk.report.total_done == chosen(
            self.devices@.take(self.walk.cursor as int),
            filter_of(self.opt),
        ).len()
        &&& self.walk.busy ==> self.walk.cursor < self.devices@.len() && wanted(
            self.devices@[self.walk.cursor as int],
            filter_of(self.opt),
        )
    }

    /// A run that has not begun. Its total counts every device of the
    /// catalog; `begin` narrows it to the chosen ones. `start_time` is in
    /// milliseconds since the Unix epoch.
    pub fn new(devices: Vec<Device>, opt: CliOpts, start_time: i64) -> (run: Downloader)
        ensures
            run.devices() == devices@,
            run.options() == opt,
            run.spec_report() == (RunReport {
                start_time,
                total_done: 0,
                total_todo: devices@.len() as u64,
            }),
            run.position() == 0,
            !run.in_progress(),
            !run.interrupted(),
    {
        let total: u64 = devices.len() as u64;
        proof {
            assert(devices@.take(0) =~= Seq::<Device>::empty());
            chosen_of_prefix(devices@, filter_of(opt), 0);
        }
        Downloader {
            devices,
            opt,
            walk: Walk { report: RunReport::new(start_time, total), cursor: 0, busy: false },
            kill_program: false,
        }
    }

    fn wants(&self, i: usize) -> (yes: bool)
        requires
            i < self.devices().len(),
        ensures
            yes == wanted(self.devices()[i as int], filter_of(self.options())),
    {
        match &self.opt.filter_term {
            None => true,
            Some(term) => str_contains(self.devices[i].name.as_str(), term.as_str()),
        }
    }

    /// Sets the total to the number of chosen devices: with a filter term,
    /// those whose name contains it; without one, all of them.
    pub fn begin(&mut self)
        ensures
            final(self).spec_report() == (RunReport {
                total_todo: old(self).queue().len() as u64,
                ..old(self).spec_report()
            }),
            final(self).devices() == old(self).devices(),
            final(self).options() == old(self).options(),
            final(self).position() == old(self).position(),
            final(self).in_progress() == old(self).in_progress(),
            final(self).interrupted() == old(self).interrupted(),
    {
        proof {
            use_type_invariant(&*self);
        }
        let n: usize = self.devices.len();
        let mut count: u64 = 0;
        let mut i: usize = 0;
        proof {
            assert(self.devices().take(0) =~= Seq::<Device>::empty());
            chosen_of_prefix(self.devices(), filter_of(self.options()), 0);
        }
        while i < n
            invariant
                n == self.devices().len(),
                i <= n,
                count == chosen(self.devices().take(i as int), filter_of(self.options())).len(),
                count <= i,
            decreases n - i,
        {
            proof {
                chosen_grows_by_one(self.devices(), filter_of(self.options()), i as int);
            }
            if self.wants(i) {
                count = count + 1;
            }
            i += 1;
        }
        assert(self.devices().take(n as int) =~= self.devices());
        self.walk = Walk {
            report: RunReport { total_todo: count, ..self.walk.report },
            ..self.walk
        };
    }

    /// Says what to do next, and looks at the interrupt before anything
    /// else: once the latch is set, or an outcome said `Cancelled`, the
    /// answer is `Stop` and the run stays as it is. Otherwise it is the
    /// next chosen device in catalog order, or `Finish` when none is left.
    /// A device that was handed out and not yet recorded is handed out again.
    pub fn next_step(&mut self, cancel: &CancellationSignal) -> (step: Step)
        ensures
            final(self).devices() == old(self).devices(),
            final(self).options() == old(self).options(),
            final(self).spec_report() == old(self).spec_report(),
            final(self).interrupted() == old(self).interrupted(),
            (old(self).interrupted() || cancel.is_triggered()) ==> step == Step::Stop
                && *final(self) == *old(self),
            !(old(self).interrupted() || cancel.is_triggered()) ==> match step {
                Step::Fetch(i) => {
                    &&& final(self).in_progress()
                    &&& final(self).position() == i
                    &&& old(self).position() <= i < old(self).devices().len()
                    &&& old(self).in_progress() ==> i == old(self).position()
                    &&& forall|j: int|
                        old(self).position() <= j < i ==> !wanted(
                            #[trigger] old(self).devices()[j],
                            filter_of(old(self).options()),
                        )
                    &&& wanted(old(self).devices()[i as int], filter_of(old(self).options()))
                    &&& old(self).spec_report().total_done < old(self).queue().len()
                    &&& old(self).devices()[i as int] == old(self).queue()[old(
                        self,
                    ).spec_report().total_done as int]
                },
                Step::Finish => {
                    &&& !final(self).in_progress()
                    &&& final(self).position() == old(self).devices().len()
                    &&& old(self).spec_report().total_done == old(self).queue().len()
                },
                Step::Stop => false,
            },
    {
        proof {
            use_type_invariant(&*self);
        }
        if self.kill_program || cancel.observe() {
            return Step::Stop;
        }
        let n: usize = self.devices.len();
        let mut cursor: usize = self.walk.cursor;
        if !self.walk.busy {
            while cursor < n && !self.wants(cursor)
                invariant
                    n == self.devices().len(),
                    *self == *old(self),
                    old(self).position() <= cursor <= n,
                    self.spec_report().total_done == chosen(
                        self.devices().take(cursor as int),
                        filter_of(self.options()),
                    ).len(),
                    forall|j: int|
                        old(self).position() <= j < cursor ==> !wanted(
                            #[trigger] self.devices()[j],
                            filter_of(self.options()),
                        ),
                decreases n - cursor,
            {
                proof {
                    chosen_grows_by_one(self.devices(), filter_of(self.options()), cursor as int);
                }
                cursor = cursor + 1;
            }
        }
        if cursor < n {
            proof {
                let f = filter_of(self.options());
                chosen_grows_by_one(self.devices(), f, cursor as int);
                chosen_of_prefix(self.devices(), f, cursor + 1);
                assert(chosen(self.devices().take(cursor + 1), f)[self.spec_report().total_done as int]
                    == self.devices()[cursor as int]);
            }
            self.walk = Walk { cursor, busy: true, ..self.walk };
            Step::Fetch(cursor)
        } else {
            assert(self.devices().take(n as int) =~= self.devices());
            self.walk = Walk { cursor, ..self.walk };
            Step::Finish
        }
    }

    /// Records the outcome of the device in progress: one more device is
    /// done, the run moves past it, and an outcome `Failed(Cancelled)` stops
    /// the run. Gives the progress line of that device, `done/total` with
    /// the new count; with no device in progress, changes nothing and gives
    /// `None`.
    pub fn record(&mut self, outcome: &DownloadOutcome) -> (line: Option<String>)
        ensures
            final(self).devices() == old(self).devices(),
            final(self).options() == old(self).options(),
            !old(self).in_progress() ==> line.is_none() && *final(self) == *old(self),
            old(self).in_progress() ==> {
                &&& line.is_some()
                &&& final(self).spec_report() == (RunReport {
                    total_done: (old(self).spec_report().total_done + 1) as u64,
                    ..old(self).spec_report()
                })
                &&& old(self).spec_report().total_done < old(self).queue().len()
                &&& final(self).position() == old(self).position() + 1
                &&& !final(self).in_progress()
                &&& final(self).interrupted() == (old(self).interrupted()
                    || outcome.spec_is_cancelled())
                &&& line.unwrap()@ == progress_line_text(
                    old(self).devices()[old(self).position()].name@,
                    final(self).spec_report().total_done as nat,
                    final(self).spec_report().total_todo as nat,
                )
            },
    {
        proof {
            use_type_invariant(&*self);
        }
        if !self.walk.busy {
            return None;
        }
        proof {
            let f = filter_of(self.options());
            chosen_grows_by_one(self.devices(), f, self.position());
            chosen_of_prefix(self.devices(), f, self.position());
            chosen_of_prefix(self.devices(), f, self.position() + 1);
        }
        let cursor: usize = self.walk.cursor;
        assert(cursor < self.devices.len());
        let mut report = self.walk.report;
        report.count_device();
        let line = report.progress_line(self.devices[cursor].name.as_str());
        self.walk = Walk { report, cursor: cursor + 1, busy: false };
        if outcome.is_cancelled() {
            self.kill_program = true;
        }
        Some(line)
    }

    /// Records that the listing of the device in progress could not be
    /// fetched: its outcome is `Failed(RemoteUnavailable)` with the given
    /// description, it counts as done, and the run goes on with the next
    /// device. Gives the outcome and the progress line; with no device in
    /// progress, changes nothing and gives `None`.
    pub fn record_fetch_failure(&mut self, description: String) -> (recorded: Option<
        (DownloadOutcome, String),
    >)
        ensures
            final(self).devices() == old(self).devices(),
            final(self).options() == old(self).options(),
            !old(self).in_progress() ==> recorded.is_none() && *final(self) == *old(self),
            old(self).in_progress() ==> {
                &&& recorded.is_some()
                &&& recorded.unwrap().0@ == OutcomeView::Failed(
                    ErrorKind::RemoteUnavailable,
                    description@,
                )
                &&& final(self).spec_report() == (RunReport {
                    total_done: (old(self).spec_report().total_done + 1) as u64,
                    ..old(self).spec_report()
                })
                &&& final(self).position() == old(self).position() + 1
                &&& !final(self).in_progress()
                &&& final(self).interrupted() == old(self).interrupted()
                &&& recorded.unwrap().1@ == progress_line_text(
                    old(self).devices()[old(self).position()].name@,
                    final(self).spec_report().total_done as nat,
                    final(self).spec_report().total_todo as nat,
                )
            },
    {
        let outcome = DownloadOutcome::fetch_failed(description);
        match self.record(&outcome) {
            Some(line) => Some((outcome, line)),
            None => None,
        }
    }

    /// The device at an index of the catalog, if there is one.
    pub fn device(&self, i: usize) -> (device: Option<&Device>)
        ensures
            device.is_some() == (i < self.devices().len()),
            device.is_some() ==> *device.unwrap() == self.devices()[i as int],
    {
        if i < self.devices.len() {
            Some(&self.devices[i])
        } else {
            None
        }
    }

    /// The options of the run.
    pub fn opt(&self) -> (opt: &CliOpts)
        ensures
            *opt == self.options(),
    {
        &self.opt
    }

    /// The counters of the run.
    pub fn report(&self) -> (report: RunReport)
        ensures
            report == self.spec_report(),
    {
        self.walk.report
    }
}

} // verus!
