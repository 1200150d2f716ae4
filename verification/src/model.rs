//! The rules of an operation, stated over mathematical values.
//!
//! An operation is a small state machine. It is idle until it is started,
//! runs while its worker reports through the channel, and ends complete or
//! failed once the channel is closed. There is no way to cancel it: what was
//! started runs until its worker is through. This module says what every
//! event does to the state and proves what follows from that: the progress
//! shown never goes down, a refused start changes nothing that runs, and a
//! channel that closes without a sample means a hundred percent.

use crate::channel::ChannelModel;
use crate::operation::{OperationKind, PreconditionError};
use crate::progress::{Fraction, Sample};
use crate::text::{bare_path_of, decimal};
use vstd::prelude::*;

verus! {

/// The name of an operation as the front-end shows it.
pub open spec fn kind_name(kind: OperationKind) -> Seq<char> {
    match kind {
        OperationKind::Flash => "Flash"@,
        OperationKind::Backup => "Backup"@,
    }
}

/// What a tab says before anything happened.
pub open spec fn idle_text() -> Seq<char> {
    "Select an action"@
}

/// What a tab says between the start of a worker and its first sample.
pub open spec fn starting_text() -> Seq<char> {
    "Starting\u{2026}"@
}

/// What a tab says once the worker is through.
pub open spec fn complete_text(kind: OperationKind) -> Seq<char> {
    match kind {
        OperationKind::Flash => "Flash complete!"@,
        OperationKind::Backup => "Backup complete!"@,
    }
}

/// What a tab says once the worker gave up: the operation, then the detail
/// of the error.
pub open spec fn failure_text(kind: OperationKind, detail: Seq<char>) -> Seq<char> {
    match kind {
        OperationKind::Flash => "Flash failed: "@ + detail,
        OperationKind::Backup => "Backup failed: "@ + detail,
    }
}

/// What a tab says about a refused start.
pub open spec fn error_text(error: PreconditionError) -> Seq<char> {
    match error {
        PreconditionError::NoTargetSelected => "No target selected!"@,
        PreconditionError::NoPathSelected => "No path selected!"@,
        PreconditionError::ResourceBusy => "Device is busy with another operation!"@,
    }
}

/// What a sample changes the status text to, if anything. Flashing names
/// every chunk; a backup shows its counters until they meet.
pub open spec fn sample_text(kind: OperationKind, sample: Sample) -> Option<Seq<char>> {
    match kind {
        OperationKind::Flash => Some(
            "Flashed chunk "@ + decimal(sample.transferred as nat) + "/"@ + decimal(
                sample.total as nat,
            ),
        ),
        OperationKind::Backup => if sample.transferred < sample.total {
            Some(decimal(sample.transferred as nat) + "/"@ + decimal(sample.total as nat))
        } else {
            None
        },
    }
}

/// The path that a worker of the given kind is handed: flashing wants the
/// plain path of the image, a backup takes the destination as it was picked.
pub open spec fn worker_path(kind: OperationKind, path: Seq<char>) -> Seq<char> {
    match kind {
        OperationKind::Flash => bare_path_of(path),
        OperationKind::Backup => path,
    }
}

/// The mathematical value of a [`Status`].
pub enum StatusModel {
    Idle,
    Running,
    Complete,
    Failed(Seq<char>),
}

/// The mathematical value of the connection to a running worker.
pub struct LinkModel {
    /// The progress channel of the worker.
    pub channel: ChannelModel,
    /// The error that the worker reported beside the channel, if any.
    pub failure: Option<Seq<char>>,
}

/// The mathematical value of a [`LaunchOrder`].
pub struct LaunchModel {
    pub kind: OperationKind,
    pub target: Seq<char>,
    pub path: Seq<char>,
}

/// The mathematical value of a [`WorkerNews`]: what the front-end collected
/// from a worker between two ticks.
pub struct NewsModel {
    /// The samples that the worker sent, in the order in which it sent them.
    pub samples: Seq<Sample>,
    /// The error that the worker reported beside the channel, if any.
    pub failure: Option<Seq<char>>,
    /// Whether the worker dropped its end of the channel.
    pub gone: bool,
}

/// What reaches an operation between its start and its end: what the
/// worker does to the channel, and the ticks of the front-end.
pub enum WorkerEvent {
    /// The worker pushed a sample.
    Sample(Sample),
    /// The worker closed the channel.
    Closed,
    /// The worker reported an error beside the channel.
    Failure(Seq<char>),
    /// The front-end ticked.
    Tick,
}

/// The mathematical value of an [`OperationState`].
pub struct OperationModel {
    pub kind: OperationKind,
    pub target: Option<Seq<char>>,
    pub path: Option<Seq<char>>,
    pub status: StatusModel,
    pub progress: Fraction,
    pub text: Seq<char>,
    /// The connection to the worker; there is one exactly while running.
    pub link: Option<LinkModel>,
}

impl OperationModel {
    /// The invariant of an operation: its progress is a share of the whole,
    /// it is connected to a worker exactly while it runs, and what runs has
    /// a target and a path.
    pub open spec fn valid(self) -> bool {
        &&& self.progress.valid()
        &&& (self.status is Running <==> self.link is Some)
        &&& (self.status is Running ==> self.target is Some && self.path is Some)
    }

    /// A tab that has not been used yet.
    pub open spec fn initial(kind: OperationKind) -> OperationModel {
        OperationModel {
            kind,
            target: None,
            path: None,
            status: StatusModel::Idle,
            progress: Fraction::zero(),
            text: idle_text(),
            link: None,
        }
    }

    /// Whether a worker of this operation holds the device or port `target`.
    pub open spec fn holds(self, target: Seq<char>) -> bool {
        self.status is Running && self.target == Some(target)
    }

    /// The state after the user selected `target`. A running operation keeps
    /// the target it was started with.
    pub open spec fn with_target(self, target: Seq<char>) -> OperationModel {
        if self.status is Running {
            self
        } else {
            OperationModel { target: Some(target), ..self }
        }
    }

    /// The state after the user selected `path`. A running operation keeps
    /// the path it was started with.
    pub open spec fn with_path(self, path: Seq<char>) -> OperationModel {
        if self.status is Running {
            self
        } else {
            OperationModel { path: Some(path), ..self }
        }
    }

    /// The state after the front-end announced `text`. A running operation
    /// keeps the text of its worker.
    pub open spec fn with_text(self, text: Seq<char>) -> OperationModel {
        if self.status is Running {
            self
        } else {
            OperationModel { text, ..self }
        }
    }

    /// Why a start is refused, or `None` where it goes ahead. `peer` is the
    /// other operation of the application.
    ///
    /// A missing target is named first. A target that a running operation
    /// holds, be it this one or the peer, makes the start busy whatever else
    /// is selected. A missing path is named last.
    pub open spec fn refusal(self, peer: OperationModel) -> Option<PreconditionError> {
        if self.target is None {
            Some(PreconditionError::NoTargetSelected)
        } else if self.status is Running || peer.holds(self.target->0) {
            Some(PreconditionError::ResourceBusy)
        } else if self.path is None {
            Some(PreconditionError::NoPathSelected)
        } else {
            None
        }
    }

    /// The state after a start was refused with `error`: the text names the
    /// error, nothing else moves. An operation that runs is left alone
    /// altogether.
    pub open spec fn rejected(self, error: PreconditionError) -> OperationModel {
        if self.status is Running {
            self
        } else {
            OperationModel { text: error_text(error), ..self }
        }
    }

    /// The state right after a worker was started.
    pub open spec fn started(self) -> OperationModel {
        OperationModel {
            status: StatusModel::Running,
            progress: Fraction::zero(),
            text: starting_text(),
            link: Some(LinkModel { channel: ChannelModel::fresh(), failure: None }),
            ..self
        }
    }

    /// The state after an attempt to start.
    pub open spec fn after_start(self, peer: OperationModel) -> OperationModel {
        match self.refusal(peer) {
            Some(error) => self.rejected(error),
            None => self.started(),
        }
    }

    /// The state after the worker pushed `sample` into its channel.
    pub open spec fn received(self, sample: Sample) -> OperationModel {
        match self.link {
            Some(link) => OperationModel {
                link: Some(LinkModel { channel: link.channel.pushed(sample), ..link }),
                ..self
            },
            None => self,
        }
    }

    /// The state after the worker closed its channel.
    pub open spec fn disconnected(self) -> OperationModel {
        match self.link {
            Some(link) => OperationModel {
                link: Some(LinkModel { channel: link.channel.shut(), ..link }),
                ..self
            },
            None => self,
        }
    }

    /// The state after the worker reported an error beside the channel.
    pub open spec fn failure_reported(self, detail: Seq<char>) -> OperationModel {
        match self.link {
            Some(link) => OperationModel {
                link: Some(LinkModel { failure: Some(detail), ..link }),
                ..self
            },
            None => self,
        }
    }

    /// The progress after looking at the newest waiting sample: never behind
    /// what was shown before.
    pub open spec fn progress_after(self, latest: Option<Sample>) -> Fraction {
        match latest {
            Some(sample) => self.progress.later(Fraction::of_sample(sample)),
            None => self.progress,
        }
    }

    /// The status text after looking at the newest waiting sample.
    pub open spec fn text_after(self, latest: Option<Sample>) -> Seq<char> {
        match latest {
            Some(sample) => match sample_text(self.kind, sample) {
                Some(text) => text,
                None => self.text,
            },
            None => self.text,
        }
    }

    /// The state after one tick.
    ///
    /// Only the newest waiting sample counts; older ones are dropped unseen.
    /// While the channel is open the operation keeps running. Once it is
    /// closed the operation ends: as failed where the worker reported an
    /// error, as complete otherwise. A channel that closes with nothing
    /// waiting counts as a hundred out of a hundred.
    pub open spec fn drained(self) -> OperationModel {
        match self.link {
            None => self,
            Some(link) => {
                let latest = link.channel.latest();
                let progress = self.progress_after(latest);
                let text = self.text_after(latest);
                if !link.channel.disconnected {
                    OperationModel {
                        progress,
                        text,
                        link: Some(LinkModel { channel: link.channel.emptied(), ..link }),
                        ..self
                    }
                } else {
                    match link.failure {
                        Some(detail) => OperationModel {
                            status: StatusModel::Failed(detail),
                            progress,
                            text: failure_text(self.kind, detail),
                            link: None,
                            ..self
                        },
                        None => OperationModel {
                            status: StatusModel::Complete,
                            progress: if latest is None {
                                Fraction::full()
                            } else {
                                progress
                            },
                            text: complete_text(self.kind),
                            link: None,
                            ..self
                        },
                    }
                }
            },
        }
    }

    /// The order that a start of this operation hands out.
    pub open spec fn launch(self) -> LaunchModel {
        LaunchModel {
            kind: self.kind,
            target: self.target->0,
            path: worker_path(self.kind, self.path->0),
        }
    }

    /// The state after the worker pushed all of `samples`, in order.
    pub open spec fn received_all(self, samples: Seq<Sample>) -> OperationModel
        decreases samples.len(),
    {
        if samples.len() == 0 {
            self
        } else {
            self.received_all(samples.drop_last()).received(samples.last())
        }
    }

    /// The state after the front-end handed over what it collected from the
    /// worker since the last tick: the samples in the order in which they
    /// were sent, then the error if the worker reported one, then the end of
    /// the channel if the worker is gone. The error comes before the end of
    /// the channel, so that a failed run is never taken for a complete one.
    pub open spec fn delivered(self, news: NewsModel) -> OperationModel {
        let sampled = self.received_all(news.samples);
        let informed = match news.failure {
            Some(detail) => sampled.failure_reported(detail),
            None => sampled,
        };
        if news.gone {
            informed.disconnected()
        } else {
            informed
        }
    }

    /// The state after one event of the worker or the front-end.
    pub open spec fn after(self, event: WorkerEvent) -> OperationModel {
        match event {
            WorkerEvent::Sample(sample) => self.received(sample),
            WorkerEvent::Closed => self.disconnected(),
            WorkerEvent::Failure(detail) => self.failure_reported(detail),
            WorkerEvent::Tick => self.drained(),
        }
    }

    /// The state after all of `events`, in order.
    pub open spec fn after_all(self, events: Seq<WorkerEvent>) -> OperationModel
        decreases events.len(),
    {
        if events.len() == 0 {
            self
        } else {
            self.after_all(events.drop_last()).after(events.last())
        }
    }
}

/// A tick keeps the invariant of an operation and never lowers its progress,
/// neither as a fraction nor in whole percent.
pub proof fn lemma_drained(m: OperationModel)
    requires
        m.valid(),
    ensures
        m.drained().valid(),
        m.progress.le(m.drained().progress),
        m.progress.percent() <= m.drained().progress.percent(),
{
    let after = m.drained().progress;
    assert(m.progress.done * m.progress.total <= m.progress.done * m.progress.total);
    match m.link {
        None => {},
        Some(link) => {
            let latest = link.channel.latest();
            match latest {
                Some(sample) => {
                    crate::progress::lemma_later_bounds(m.progress, Fraction::of_sample(sample));
                },
                None => {
                    assert(m.progress.done * 100 <= 100 * m.progress.total) by (nonlinear_arith)
                        requires
                            m.progress.done <= m.progress.total,
                    ;
                },
            }
        },
    }
    crate::progress::lemma_percent_monotone(m.progress, after);
}

/// No event of the worker or the front-end breaks the invariant of an
/// operation or lowers its progress.
pub proof fn lemma_after(m: OperationModel, event: WorkerEvent)
    requires
        m.valid(),
    ensures
        m.after(event).valid(),
        m.progress.le(m.after(event).progress),
        m.progress.percent() <= m.after(event).progress.percent(),
{
    lemma_drained(m);
    assert(m.progress.done * m.progress.total <= m.progress.done * m.progress.total);
}

/// The invariant of an operation holds after any run of events.
pub proof fn lemma_after_all_valid(m: OperationModel, events: Seq<WorkerEvent>)
    requires
        m.valid(),
    ensures
        m.after_all(events).valid(),
    decreases events.len(),
{
    if events.len() > 0 {
        lemma_after_all_valid(m, events.drop_last());
        lemma_after(m.after_all(events.drop_last()), events.last());
    }
}

/// Whatever the worker sends and whenever the front-end ticks, the progress
/// that the front-end sees never goes down: of any two moments in the life
/// of an operation, the later one shows at least as much.
pub proof fn lemma_progress_never_decreases(
    m: OperationModel,
    events: Seq<WorkerEvent>,
    earlier: int,
    later: int,
)
    requires
        m.valid(),
        0 <= earlier <= later <= events.len(),
    ensures
        m.after_all(events.take(earlier)).valid(),
        m.after_all(events.take(later)).valid(),
        m.after_all(events.take(earlier)).progress.le(m.after_all(events.take(later)).progress),
        m.after_all(events.take(earlier)).progress.percent() <= m.after_all(
            events.take(later),
        ).progress.percent(),
    decreases later,
{
    let first = m.after_all(events.take(earlier));
    if earlier == later {
        lemma_after_all_valid(m, events.take(earlier));
        assert(first.progress.done * first.progress.total <= first.progress.done
            * first.progress.total);
    } else {
        lemma_progress_never_decreases(m, events, earlier, later - 1);
        let before = m.after_all(events.take(later - 1));
        let last = m.after_all(events.take(later));
        assert(events.take(later).drop_last() =~= events.take(later - 1));
        assert(last == before.after(events[later - 1]));
        lemma_after(before, events[later - 1]);
        crate::progress::lemma_le_transitive(first.progress, before.progress, last.progress);
        crate::progress::lemma_percent_monotone(first.progress, last.progress);
    }
}

/// A start without a target is refused for that reason whatever else holds:
/// no worker is connected, status and progress stay as they were, and the
/// status text names the missing target.
pub proof fn lemma_start_without_target(m: OperationModel, peer: OperationModel)
    requires
        m.valid(),
        m.target is None,
    ensures
        m.refusal(peer) == Some(PreconditionError::NoTargetSelected),
        m.after_start(peer).status == m.status,
        !(m.after_start(peer).status is Running),
        m.after_start(peer).link is None,
        m.after_start(peer).progress == m.progress,
        m.after_start(peer).text == error_text(PreconditionError::NoTargetSelected),
{
}

/// A start without a path is refused for that reason where a target is
/// selected that no running operation holds; status and progress stay as
/// they were.
pub proof fn lemma_start_without_path(m: OperationModel, peer: OperationModel)
    requires
        m.valid(),
        m.target is Some,
        m.path is None,
        !peer.holds(m.target->0),
    ensures
        m.refusal(peer) == Some(PreconditionError::NoPathSelected),
        m.after_start(peer).status == m.status,
        m.after_start(peer).link is None,
        m.after_start(peer).progress == m.progress,
        m.after_start(peer).text == error_text(PreconditionError::NoPathSelected),
{
}

/// A start on a port that a running operation holds is refused as busy,
/// whatever else is selected. If the holder is the operation itself,
/// nothing of it changes.
pub proof fn lemma_start_on_held_port(m: OperationModel, peer: OperationModel)
    requires
        m.valid(),
        m.target is Some,
        m.status is Running || peer.holds(m.target->0),
    ensures
        m.refusal(peer) == Some(PreconditionError::ResourceBusy),
        m.after_start(peer).status == m.status,
        m.after_start(peer).progress == m.progress,
        m.after_start(peer).link == m.link,
        m.status is Running ==> m.after_start(peer) == m,
{
}

/// A start goes ahead exactly where a target and a path are selected and no
/// running operation holds the target. The operation then runs from zero
/// on a fresh, open channel.
pub proof fn lemma_start_goes_ahead(m: OperationModel, peer: OperationModel)
    requires
        m.valid(),
    ensures
        m.refusal(peer) is None <==> (m.target is Some && m.path is Some && !(m.status is Running)
            && !peer.holds(m.target->0)),
        m.refusal(peer) is None ==> {
            &&& m.after_start(peer).status is Running
            &&& m.after_start(peer).progress == Fraction::zero()
            &&& m.after_start(peer).progress.percent() == 0
            &&& m.after_start(peer).text == starting_text()
            &&& m.after_start(peer).link == Some(
                LinkModel { channel: ChannelModel::fresh(), failure: None },
            )
            &&& m.after_start(peer).target == m.target
            &&& m.after_start(peer).path == m.path
        },
{
}

/// A worker that closes its channel without a single sample, and without
/// reporting an error, takes the operation from running straight to
/// complete at a hundred percent.
pub proof fn lemma_close_without_samples(m: OperationModel)
    requires
        m.valid(),
        m.status is Running,
        m.link->0.channel.pending.len() == 0,
        m.link->0.failure is None,
    ensures
        m.disconnected().drained().status is Complete,
        m.disconnected().drained().progress == Fraction::full(),
        m.disconnected().drained().progress.percent() == 100,
        m.disconnected().drained().text == complete_text(m.kind),
        m.disconnected().drained().link is None,
{
}

/// A worker that reports an error before it closes its channel ends the
/// operation as failed with that error, never as complete.
pub proof fn lemma_reported_failure_ends_failed(m: OperationModel, detail: Seq<char>)
    requires
        m.valid(),
        m.status is Running,
    ensures
        m.failure_reported(detail).disconnected().drained().status == StatusModel::Failed(detail),
        m.failure_reported(detail).disconnected().drained().text == failure_text(m.kind, detail),
        m.failure_reported(detail).disconnected().drained().link is None,
{
}

/// While the channel is open a tick keeps the operation running, and a tick
/// that finds nothing waiting changes nothing that shows.
pub proof fn lemma_tick_on_open_channel(m: OperationModel)
    requires
        m.valid(),
        m.status is Running,
        !m.link->0.channel.disconnected,
    ensures
        m.drained().status is Running,
        m.drained().link->0.channel == ChannelModel::fresh(),
        m.link->0.channel.pending.len() == 0 ==> m.drained().progress == m.progress
            && m.drained().text == m.text,
{
}

/// Nothing preempts a running operation: whatever the user selects, the
/// front-end announces or a second start asks for, the operation keeps its
/// kind, target, path, status, progress and channel. Only its worker and
/// the ticks move it, and they leave kind, target and path alone.
pub proof fn lemma_running_operation_is_not_preempted(
    m: OperationModel,
    peer: OperationModel,
    text: Seq<char>,
    error: PreconditionError,
    event: WorkerEvent,
)
    requires
        m.valid(),
        m.status is Running,
    ensures
        m.with_target(text) == m,
        m.with_path(text) == m,
        m.with_text(text) == m,
        m.rejected(error) == m,
        m.after_start(peer) == m,
        m.after(event).kind == m.kind,
        m.after(event).target == m.target,
        m.after(event).path == m.path,
{
}

/// However many samples queue up between two ticks, the tick looks at the
/// one that was pushed last and drops the others unseen: the state after
/// the tick is what it would be had the worker pushed that sample alone.
pub proof fn lemma_only_the_newest_sample_counts(m: OperationModel, samples: Seq<Sample>)
    requires
        m.valid(),
        m.status is Running,
        !m.link->0.channel.disconnected,
        samples.len() > 0,
    ensures
        m.received_all(samples).drained() == m.received(samples.last()).drained(),
        m.received_all(samples).drained().progress == m.progress.later(
            Fraction::of_sample(samples.last()),
        ),
{
    lemma_received_all(m, samples);
    crate::channel::lemma_latest_of_pushed_all(m.link->0.channel, samples);
}

/// Pushing samples touches nothing but the channel, which takes them all
/// in order while it is open.
pub proof fn lemma_received_all(m: OperationModel, samples: Seq<Sample>)
    requires
        m.link is Some,
    ensures
        m.received_all(samples) == (OperationModel {
            link: Some(
                LinkModel {
                    channel: m.link->0.channel.pushed_all(samples),
                    failure: m.link->0.failure,
                },
            ),
            ..m
        }),
    decreases samples.len(),
{
    if samples.len() > 0 {
        lemma_received_all(m, samples.drop_last());
    }
}

/// A closed channel is the end of the operation: the first tick after the
/// worker closed its channel leaves the operation complete or failed, with
/// no worker connected.
pub proof fn lemma_closed_channel_ends_the_operation(m: OperationModel)
    requires
        m.valid(),
        m.status is Running,
    ensures
        m.disconnected().drained().status is Complete || m.disconnected().drained().status
            is Failed,
        m.disconnected().drained().link is None,
        m.disconnected().drained().status is Failed <==> m.link->0.failure is Some,
{
}

/// An operation that does not run is at rest: neither a late report of a
/// worker nor a tick changes anything of it.
pub proof fn lemma_idle_operation_is_at_rest(m: OperationModel, event: WorkerEvent)
    requires
        m.valid(),
        !(m.status is Running),
    ensures
        m.after(event) == m,
{
}

/// What the front-end hands over between two ticks never breaks the
/// invariant of an operation and moves neither its status nor its progress:
/// only the tick that follows does.
pub proof fn lemma_delivered(m: OperationModel, news: NewsModel)
    requires
        m.valid(),
    ensures
        m.delivered(news).valid(),
        m.delivered(news).kind == m.kind,
        m.delivered(news).target == m.target,
        m.delivered(news).path == m.path,
        m.delivered(news).status == m.status,
        m.delivered(news).progress == m.progress,
        m.delivered(news).text == m.text,
        !(m.status is Running) ==> m.delivered(news) == m,
{
    lemma_received_all_keeps(m, news.samples);
}

/// Pushing samples keeps the invariant and touches nothing but the channel.
pub proof fn lemma_received_all_keeps(m: OperationModel, samples: Seq<Sample>)
    requires
        m.valid(),
    ensures
        m.received_all(samples).valid(),
        m.received_all(samples).kind == m.kind,
        m.received_all(samples).target == m.target,
        m.received_all(samples).path == m.path,
        m.received_all(samples).status == m.status,
        m.received_all(samples).progress == m.progress,
        m.received_all(samples).text == m.text,
        m.received_all(samples).link is Some <==> m.link is Some,
        m.link is None ==> m.received_all(samples) == m,
    decreases samples.len(),
{
    if samples.len() > 0 {
        lemma_received_all_keeps(m, samples.drop_last());
    }
}

/// A worker that fails and goes away within one tick is shown as failed by
/// that tick, with the detail of its error.
pub proof fn lemma_delivered_failure_ends_failed(
    m: OperationModel,
    samples: Seq<Sample>,
    detail: Seq<char>,
)
    requires
        m.valid(),
        m.status is Running,
    ensures
        m.delivered(
            NewsModel { samples, failure: Some(detail), gone: true },
        ).drained().status == StatusModel::Failed(detail),
        m.delivered(NewsModel { samples, failure: Some(detail), gone: true }).drained().text
            == failure_text(m.kind, detail),
{
    lemma_received_all(m, samples);
}

} // verus!
