//! One hardware operation as explicit state.
//!
//! An [`OperationState`] belongs to one tab. It remembers what the user
//! selected, whether a worker is running for it, how far that worker has come
//! and what the front-end should say about it. The functions here decide; the
//! caller spawns the worker, hands over what the worker reports and calls
//! [`OperationState::drain`] on every tick.

use crate::channel::ProgressChannel;
use crate::model::{
    LaunchModel, LinkModel, NewsModel, OperationModel, StatusModel, complete_text, error_text,
    failure_text, kind_name, lemma_delivered, lemma_drained, sample_text,
};
use crate::progress::{Progress, Sample};
use crate::text::{bare_path, decimal, push_decimal};
use vstd::prelude::*;
use vstd::string::*;

verus! {

/// The two operations that the tool can run against a radio.
#[derive(Clone, Copy, Debug, PartialEq, Eq, Structural)]
pub enum OperationKind {
    Flash,
    Backup,
}

/// Why an operation was not started.
#[derive(Clone, Copy, Debug, PartialEq, Eq, Structural)]
pub enum PreconditionError {
    /// No device or port was selected.
    NoTargetSelected,
    /// No firmware image or destination was selected.
    NoPathSelected,
    /// A running operation already holds the selected device or port.
    ResourceBusy,
}

/// Where an operation stands.
#[derive(Debug, PartialEq, Eq)]
pub enum Status {
    Idle,
    Running,
    Complete,
    /// The worker reported an error; the detail is its message.
    Failed(String),
}

impl View for Status {
    type V = StatusModel;

    open spec fn view(&self) -> StatusModel {
        match self {
            Status::Idle => StatusModel::Idle,
            Status::Running => StatusModel::Running,
            Status::Complete => StatusModel::Complete,
            Status::Failed(detail) => StatusModel::Failed(detail@),
        }
    }
}

impl Clone for Status {
    fn clone(&self) -> (copy: Status)
        ensures
            copy == *self,
    {
        match self {
            Status::Idle => Status::Idle,
            Status::Running => Status::Running,
            Status::Complete => Status::Complete,
            Status::Failed(detail) => Status::Failed(detail.clone()),
        }
    }
}

/// A copy of an optional string.
pub fn clone_text(value: &Option<String>) -> (copy: Option<String>)
    ensures
        copy == *value,
{
    match value {
        Some(text) => Some(text.clone()),
        None => None,
    }
}

/// The view of an optional string.
pub open spec fn text_of(value: Option<String>) -> Option<Seq<char>> {
    match value {
        Some(s) => Some(s@),
        None => None,
    }
}

/// What the caller has to hand to the worker it spawns.
#[derive(Debug, PartialEq, Eq)]
pub struct LaunchOrder {
    pub kind: OperationKind,
    /// The device or port to open.
    pub target: String,
    /// The firmware image to flash, or the destination of the backup.
    pub path: String,
}

impl Clone for LaunchOrder {
    fn clone(&self) -> (copy: LaunchOrder)
        ensures
            copy == *self,
    {
        LaunchOrder { kind: self.kind, target: self.target.clone(), path: self.path.clone() }
    }
}

impl View for LaunchOrder {
    type V = LaunchModel;

    open spec fn view(&self) -> LaunchModel {
        LaunchModel { kind: self.kind, target: self.target@, path: self.path@ }
    }
}

/// The connection to a running worker.
#[derive(Debug)]
struct WorkerLink {
    channel: ProgressChannel,
    failure: Option<String>,
}

/// What the front-end collected from a worker between two ticks.
#[derive(Debug, PartialEq, Eq)]
pub struct WorkerNews {
    /// The samples that the worker sent, in the order in which it sent them.
    pub samples: Vec<Sample>,
    /// The detail of the device I/O error that the worker ended with, if it
    /// ended with one. It travels beside the progress channel.
    pub failure: Option<String>,
    /// Whether the worker dropped its end of the channel: it is through.
    pub gone: bool,
}

impl View for WorkerNews {
    type V = NewsModel;

    open spec fn view(&self) -> NewsModel {
        NewsModel { samples: self.samples@, failure: text_of(self.failure), gone: self.gone }
    }
}

impl Clone for WorkerNews {
    fn clone(&self) -> (copy: WorkerNews)
        ensures
            copy@ == self@,
    {
        let mut samples: Vec<Sample> = Vec::new();
        let mut i: usize = 0;
        while i < self.samples.len()
            invariant
                i <= self.samples@.len(),
                samples@ == self.samples@.take(i as int),
            decreases self.samples@.len() - i,
        {
            samples.push(self.samples[i]);
            assert(samples@ =~= self.samples@.take(i + 1));
            i = i + 1;
        }
        assert(samples@ =~= self.samples@);
        WorkerNews { samples, failure: clone_text(&self.failure), gone: self.gone }
    }
}

/// The state of one tab's operation.
#[derive(Debug)]
pub struct OperationState {
    kind: OperationKind,
    selected_target: Option<String>,
    selected_path: Option<String>,
    status: Status,
    progress: Progress,
    status_text: String,
    link: Option<WorkerLink>,
}

impl View for OperationState {
    type V = OperationModel;

    closed spec fn view(&self) -> OperationModel {
        OperationModel {
            kind: self.kind,
            target: text_of(self.selected_target),
            path: text_of(self.selected_path),
            status: self.status@,
            progress: self.progress@,
            text: self.status_text@,
            link: match self.link {
                Some(link) => Some(
                    LinkModel { channel: link.channel@, failure: text_of(link.failure) },
                ),
                None => None,
            },
        }
    }
}

impl PreconditionError {
    /// The text that the front-end shows for this error.
    pub fn message(&self) -> (text: String)
        ensures
            text@ == error_text(*self),
    {
        match self {
            PreconditionError::NoTargetSelected => String::from_str("No target selected!"),
            PreconditionError::NoPathSelected => String::from_str("No path selected!"),
            PreconditionError::ResourceBusy => String::from_str(
                "Device is busy with another operation!",
            ),
        }
    }
}

impl OperationKind {
    /// The name of the operation as the front-end shows it.
    pub fn name(&self) -> (text: String)
        ensures
            text@ == kind_name(*self),
    {
        match self {
            OperationKind::Flash => String::from_str("Flash"),
            OperationKind::Backup => String::from_str("Backup"),
        }
    }
}

impl OperationState {
    /// The invariant of the type. Every state that the library hands out
    /// has it and every function keeps it, so no function asks for it.
    pub open spec fn wf(&self) -> bool {
        self@.valid()
    }

    /// The state of a tab that has not been used yet.
    pub fn new(kind: OperationKind) -> (state: OperationState)
        ensures
            state.wf(),
            state@ == OperationModel::initial(kind),
    {
        OperationState {
            kind,
            selected_target: None,
            selected_path: None,
            status: Status::Idle,
            progress: Progress::zero(),
            status_text: String::from_str("Select an action"),
            link: None,
        }
    }

    /// Which operation this state belongs to.
    pub fn kind(&self) -> (kind: OperationKind)
        ensures
            kind == self@.kind,
    {
        self.kind
    }

    /// The device or port that the user selected.
    pub fn selected_target(&self) -> (target: Option<&String>)
        ensures
            target is Some <==> self@.target is Some,
            target matches Some(t) ==> self@.target == Some(t@),
    {
        self.selected_target.as_ref()
    }

    /// The path that the user selected.
    pub fn selected_path(&self) -> (path: Option<&String>)
        ensures
            path is Some <==> self@.path is Some,
            path matches Some(p) ==> self@.path == Some(p@),
    {
        self.selected_path.as_ref()
    }

    /// Where the operation stands.
    pub fn status(&self) -> (status: &Status)
        ensures
            status@ == self@.status,
    {
        &self.status
    }

    /// Whether a worker is running for this state.
    pub fn is_running(&self) -> (r: bool)
        ensures
            r == (self@.status is Running),
    {
        match &self.status {
            Status::Running => true,
            _ => false,
        }
    }

    /// How far the operation has come.
    pub fn progress(&self) -> (progress: Progress)
        ensures
            progress@ == self@.progress,
            self.wf() ==> progress.wf(),
    {
        self.progress
    }

    /// The last known message for the front-end.
    pub fn status_text(&self) -> (text: &String)
        ensures
            text@ == self@.text,
    {
        &self.status_text
    }

    /// Whether a worker of this operation holds the device or port `target`.
    pub fn holds(&self, target: &String) -> (r: bool)
        ensures
            r == self@.holds(target@),
    {
        if !self.is_running() {
            return false;
        }
        match &self.selected_target {
            Some(own) => *own == *target,
            None => false,
        }
    }

    /// Selects the device or port to operate on. While a worker runs the
    /// selection is ignored: nothing preempts a running operation.
    pub fn select_target(&mut self, target: String)
        ensures
            old(self).wf() ==> final(self).wf(),
            final(self)@ == old(self)@.with_target(target@),
    {
        if !self.is_running() {
            self.selected_target = Some(target);
        }
    }

    /// Selects the firmware image or the destination. While a worker runs
    /// the selection is ignored: nothing preempts a running operation.
    pub fn select_path(&mut self, path: String)
        ensures
            old(self).wf() ==> final(self).wf(),
            final(self)@ == old(self)@.with_path(path@),
    {
        if !self.is_running() {
            self.selected_path = Some(path);
        }
    }

    /// Replaces the status text. While a worker runs the text is its own and
    /// the call is ignored.
    pub fn announce(&mut self, text: String)
        ensures
            old(self).wf() ==> final(self).wf(),
            final(self)@ == old(self)@.with_text(text@),
    {
        if !self.is_running() {
            self.status_text = text;
        }
    }

    /// Why a start would be refused right now, or `None` where it would go
    /// ahead. `peer` is the other operation of the application.
    pub fn check_start(&self, peer: &OperationState) -> (refusal: Option<PreconditionError>)
        ensures
            refusal == self@.refusal(peer@),
    {
        match &self.selected_target {
            None => Some(PreconditionError::NoTargetSelected),
            Some(target) => {
                if self.is_running() || peer.holds(target) {
                    Some(PreconditionError::ResourceBusy)
                } else if self.selected_path.is_none() {
                    Some(PreconditionError::NoPathSelected)
                } else {
                    None
                }
            },
        }
    }

    /// Records a refused start: the status text names the error, status and
    /// progress stay. A running operation is left untouched.
    pub fn reject(&mut self, error: PreconditionError)
        ensures
            old(self).wf() ==> final(self).wf(),
            final(self)@ == old(self)@.rejected(error),
    {
        if !self.is_running() {
            self.status_text = error.message();
        }
    }

    /// Starts the operation if nothing stands against it.
    ///
    /// A start needs a target and a path, and the target must not be held by
    /// a running operation, be it this one or `peer`. Where it goes ahead the
    /// state turns to running with no progress and a fresh channel, and the
    /// order tells the caller which worker to spawn. Where it is refused no
    /// worker is to be spawned, and `peer` is never touched.
    pub fn start(&mut self, peer: &OperationState) -> (result: Result<
        LaunchOrder,
        PreconditionError,
    >)
        ensures
            old(self).wf() ==> final(self).wf(),
            final(self)@ == old(self)@.after_start(peer@),
            match result {
                Ok(order) => old(self)@.refusal(peer@) is None && order@ == old(self)@.launch(),
                Err(error) => old(self)@.refusal(peer@) == Some(error),
            },
    {
        match self.check_start(peer) {
            Some(error) => {
                self.reject(error);
                Err(error)
            },
            None => {
                let order = self.launch_order();
                self.status = Status::Running;
                self.progress = Progress::zero();
                self.status_text = String::from_str("Starting\u{2026}");
                self.link = Some(WorkerLink { channel: ProgressChannel::new(), failure: None });
                Ok(order)
            },
        }
    }

    /// The order for a worker on the current selection.
    fn launch_order(&self) -> (order: LaunchOrder)
        requires
            self@.target is Some,
            self@.path is Some,
        ensures
            order@ == self@.launch(),
    {
        let target = match &self.selected_target {
            Some(target) => target.clone(),
            None => String::new(),
        };
        let path = match &self.selected_path {
            Some(path) => match self.kind {
                OperationKind::Flash => bare_path(path.as_str()),
                OperationKind::Backup => path.clone(),
            },
            None => String::new(),
        };
        LaunchOrder { kind: self.kind, target, path }
    }

    /// Hands over a sample that the worker sent. Ignored unless a worker
    /// runs and its channel is open.
    pub fn push_sample(&mut self, sample: Sample)
        ensures
            old(self).wf() ==> final(self).wf(),
            final(self)@ == old(self)@.received(sample),
    {
        match &mut self.link {
            Some(link) => {
                link.channel.push(sample);
            },
            None => {},
        }
    }

    /// Records that the worker dropped its end of the channel. Ignored
    /// unless a worker runs.
    pub fn close_channel(&mut self)
        ensures
            old(self).wf() ==> final(self).wf(),
            final(self)@ == old(self)@.disconnected(),
    {
        match &mut self.link {
            Some(link) => {
                link.channel.close();
            },
            None => {},
        }
    }

    /// Records the error that the worker ended with. This is the signal
    /// beside the progress channel: it has to arrive before the tick that
    /// sees the channel closed. Ignored unless a worker runs.
    pub fn report_failure(&mut self, detail: String)
        ensures
            old(self).wf() ==> final(self).wf(),
            final(self)@ == old(self)@.failure_reported(detail@),
    {
        match &mut self.link {
            Some(link) => {
                link.failure = Some(detail);
            },
            None => {},
        }
    }

    /// Hands over what the front-end collected from the worker since the
    /// last tick. The samples are queued in the order in which the worker
    /// sent them, then its error is recorded, then the end of the channel.
    /// Ignored unless a worker runs.
    pub fn deliver(&mut self, news: WorkerNews)
        ensures
            old(self).wf() ==> final(self).wf(),
            final(self)@ == old(self)@.delivered(news@),
    {
        proof {
            if self.wf() {
                lemma_delivered(self@, news@);
            }
        }
        let WorkerNews { samples, failure, gone } = news;
        let mut i: usize = 0;
        while i < samples.len()
            invariant
                i <= samples@.len(),
                self@ == old(self)@.received_all(samples@.take(i as int)),
            decreases samples@.len() - i,
        {
            proof {
                assert(samples@.take(i + 1).drop_last() =~= samples@.take(i as int));
            }
            self.push_sample(samples[i]);
            i = i + 1;
        }
        proof {
            assert(samples@.take(i as int) =~= samples@);
        }
        match failure {
            Some(detail) => self.report_failure(detail),
            None => {},
        }
        if gone {
            self.close_channel();
        }
    }

    /// Brings the state up to date with the worker; called once per tick.
    ///
    /// Looks at the newest waiting sample only and never waits for one. The
    /// progress shown never moves backwards, whatever the worker sent.
    pub fn drain(&mut self)
        ensures
            old(self).wf() ==> final(self).wf(),
            final(self)@ == old(self)@.drained(),
            old(self).wf() ==> old(self)@.progress.le(final(self)@.progress),
    {
        proof {
            if self.wf() {
                lemma_drained(self@);
            }
        }
        match self.link.take() {
            None => {},
            Some(mut link) => {
                let latest = link.channel.take_latest();
                match latest {
                    Some(sample) => {
                        self.progress = self.progress.later(Progress::from_sample(sample));
                        match render_sample(self.kind, sample) {
                            Some(text) => {
                                self.status_text = text;
                            },
                            None => {},
                        }
                    },
                    None => {},
                }
                if link.channel.is_closed() {
                    match link.failure {
                        Some(detail) => {
                            self.status_text = render_failure(self.kind, &detail);
                            self.status = Status::Failed(detail);
                        },
                        None => {
                            if latest.is_none() {
                                self.progress = Progress::full();
                            }
                            self.status_text = render_complete(self.kind);
                            self.status = Status::Complete;
                        },
                    }
                } else {
                    self.link = Some(link);
                }
            },
        }
    }

}

/// The status text of an operation that is through.
fn render_complete(kind: OperationKind) -> (text: String)
    ensures
        text@ == complete_text(kind),
{
    match kind {
        OperationKind::Flash => String::from_str("Flash complete!"),
        OperationKind::Backup => String::from_str("Backup complete!"),
    }
}

/// The status text of an operation whose worker gave up.
fn render_failure(kind: OperationKind, detail: &String) -> (text: String)
    ensures
        text@ == failure_text(kind, detail@),
{
    match kind {
        OperationKind::Flash => String::from_str("Flash failed: ").concat(detail.as_str()),
        OperationKind::Backup => String::from_str("Backup failed: ").concat(detail.as_str()),
    }
}

/// The status text that a sample asks for, if it asks for one.
fn render_sample(kind: OperationKind, sample: Sample) -> (text: Option<String>)
    ensures
        text_of(text) == sample_text(kind, sample),
{
    match kind {
        OperationKind::Flash => {
            let mut text = String::from_str("Flashed chunk ");
            push_decimal(&mut text, sample.transferred);
            text.append("/");
            push_decimal(&mut text, sample.total);
            Some(text)
        },
        OperationKind::Backup => {
            if sample.transferred < sample.total {
                let mut text = String::new();
                push_decimal(&mut text, sample.transferred);
                text.append("/");
                push_decimal(&mut text, sample.total);
                assert(text@ =~= decimal(sample.transferred as nat) + "/"@ + decimal(
                    sample.total as nat,
                ));
                Some(text)
            } else {
                None
            }
        },
    }
}

} // verus!
