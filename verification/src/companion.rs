//! The application as a whole: two tabs, the selector between them, and the
//! routing of events.
//!
//! The device behind a port is a single exclusive resource. The state kept
//! here guarantees that the two tabs never run workers on the same port at
//! the same time.

use crate::action::{Action, ActionModel, TabId};
use crate::backup::{BackupEvent, BackupMessage, BackupModel, BackupTab, SerialPort, ports_of};
use crate::flash::{
    DeviceInfo, FlashEvent, FlashMessage, FlashModel, FlashTab, Target, devices_of, targets_of,
};
use crate::model::NewsModel;
use crate::operation::{WorkerNews, clone_text, text_of};
use vstd::std_specs::convert::FromSpecImpl;
use vstd::prelude::*;
use vstd::string::*;

verus! {

/// The time between two ticks, in milliseconds. On every tick the caller
/// hands over what the workers sent and then delivers [`Message::Tick`].
pub const TICK_MILLIS: u64 = 500;

/// The glyphs of the icon font.
#[derive(Clone, Copy, Debug, PartialEq, Eq, Structural)]
pub enum Icon {
    User,
    Heart,
    Calc,
    CogAlt,
}

impl Icon {
    /// The code point of the glyph in the icon font.
    pub open spec fn glyph(self) -> char {
        match self {
            Icon::User => '\u{E800}',
            Icon::Heart => '\u{E801}',
            Icon::Calc => '\u{F1EC}',
            Icon::CogAlt => '\u{E802}',
        }
    }
}

impl From<Icon> for char {
    fn from(icon: Icon) -> (c: char) {
        match icon {
            Icon::User => '\u{E800}',
            Icon::Heart => '\u{E801}',
            Icon::Calc => '\u{F1EC}',
            Icon::CogAlt => '\u{E802}',
        }
    }
}

impl FromSpecImpl<Icon> for char {
    open spec fn obeys_from_spec() -> bool {
        true
    }

    open spec fn from_spec(icon: Icon) -> char {
        icon.glyph()
    }
}

/// The events of the application.
#[derive(Debug)]
pub enum Message {
    TabSelected(TabId),
    Flash(FlashMessage),
    Backup(BackupMessage),
    /// The answer of a file picker, for the tab that asked for it; `None`
    /// where the user cancelled.
    FilePath(TabId, Option<String>),
    /// The answer of the folder picker of the backup tab; `None` where the
    /// user cancelled.
    StartBackup(Option<String>),
    /// What the front-end collected from the worker of the given tab since
    /// the last tick. It is delivered before the tick.
    Worker(TabId, WorkerNews),
    Tick,
    /// The application finished loading; `true` where it succeeded.
    Loaded(bool),
    /// The icon font finished loading; `true` where it succeeded.
    FontLoaded(bool),
    TabClosed(TabId),
}

impl Clone for Message {
    fn clone(&self) -> (copy: Message)
        ensures
            copy@ == self@,
    {
        match self {
            Message::TabSelected(tab) => Message::TabSelected(*tab),
            Message::Flash(message) => Message::Flash(message.clone()),
            Message::Backup(message) => Message::Backup(message.clone()),
            Message::FilePath(tab, path) => Message::FilePath(*tab, clone_text(path)),
            Message::StartBackup(path) => Message::StartBackup(clone_text(path)),
            Message::Worker(tab, news) => Message::Worker(*tab, news.clone()),
            Message::Tick => Message::Tick,
            Message::Loaded(ok) => Message::Loaded(*ok),
            Message::FontLoaded(ok) => Message::FontLoaded(*ok),
            Message::TabClosed(tab) => Message::TabClosed(*tab),
        }
    }
}

/// The mathematical value of a [`Message`].
pub enum Event {
    TabSelected(TabId),
    Flash(FlashEvent),
    Backup(BackupEvent),
    FilePath(TabId, Option<Seq<char>>),
    StartBackup(Option<Seq<char>>),
    Worker(TabId, NewsModel),
    Tick,
    Loaded,
    FontLoaded,
    TabClosed(TabId),
}

impl View for Message {
    type V = Event;

    open spec fn view(&self) -> Event {
        match self {
            Message::TabSelected(tab) => Event::TabSelected(*tab),
            Message::Flash(message) => Event::Flash(message@),
            Message::Backup(message) => Event::Backup(message@),
            Message::FilePath(tab, path) => Event::FilePath(*tab, text_of(*path)),
            Message::StartBackup(path) => Event::StartBackup(text_of(*path)),
            Message::Worker(tab, news) => Event::Worker(*tab, news@),
            Message::Tick => Event::Tick,
            Message::Loaded(_) => Event::Loaded,
            Message::FontLoaded(_) => Event::FontLoaded,
            Message::TabClosed(tab) => Event::TabClosed(*tab),
        }
    }
}

/// The mathematical value of an [`OpenRTXCompanion`].
pub struct CompanionModel {
    pub active: TabId,
    pub flash: FlashModel,
    pub backup: BackupModel,
}

impl CompanionModel {
    /// No port is held by two workers: where both tabs run, they run on
    /// different ports.
    pub open spec fn exclusive(self) -> bool {
        !(self.flash.op.status is Running && self.backup.op.status is Running
            && self.flash.op.target == self.backup.op.target)
    }

    /// The invariant of the application.
    pub open spec fn valid(self) -> bool {
        &&& self.flash.valid()
        &&& self.backup.valid()
        &&& self.exclusive()
    }

    /// The application after the user switched to `tab`. Which tab shows
    /// has no bearing on what the tabs do.
    pub open spec fn with_active(self, tab: TabId) -> CompanionModel {
        CompanionModel { active: tab, ..self }
    }

    /// The application after an event of the flash tab.
    pub open spec fn flash_step(self, event: FlashEvent) -> (CompanionModel, ActionModel) {
        let (flash, action) = self.flash.step(event, self.backup.op);
        (CompanionModel { flash, ..self }, action)
    }

    /// The application after an event of the backup tab.
    pub open spec fn backup_step(self, event: BackupEvent) -> (CompanionModel, ActionModel) {
        let (backup, action) = self.backup.step(event, self.flash.op);
        (CompanionModel { backup, ..self }, action)
    }

    /// The application after an event, and what the event leaves to the
    /// caller.
    ///
    /// The answer of a file picker goes to the tab that asked, not to the
    /// one that happens to show. A tick reaches both tabs.
    pub open spec fn step(self, event: Event) -> (CompanionModel, ActionModel) {
        match event {
            Event::TabSelected(tab) => (self.with_active(tab), ActionModel::Nothing),
            Event::Flash(event) => self.flash_step(event),
            Event::Backup(event) => self.backup_step(event),
            Event::FilePath(TabId::Flash, path) => self.flash_step(FlashEvent::FilePath(path)),
            Event::FilePath(TabId::Backup, path) => self.backup_step(BackupEvent::FilePath(path)),
            Event::StartBackup(path) => self.backup_step(BackupEvent::StartBackup(path)),
            Event::Worker(TabId::Flash, news) => (
                CompanionModel { flash: self.flash.worker_step(news), ..self },
                ActionModel::Nothing,
            ),
            Event::Worker(TabId::Backup, news) => (
                CompanionModel { backup: self.backup.worker_step(news), ..self },
                ActionModel::Nothing,
            ),
            Event::Tick => (
                self.flash_step(FlashEvent::Tick).0.backup_step(BackupEvent::Tick).0,
                ActionModel::Nothing,
            ),
            Event::Loaded => (self, ActionModel::Nothing),
            Event::FontLoaded => (self, ActionModel::Nothing),
            Event::TabClosed(_) => (self, ActionModel::Nothing),
        }
    }
}

/// The application state.
#[derive(Debug)]
pub struct OpenRTXCompanion {
    active_tab: TabId,
    flash_tab: FlashTab,
    backup_tab: BackupTab,
}

impl View for OpenRTXCompanion {
    type V = CompanionModel;

    closed spec fn view(&self) -> CompanionModel {
        CompanionModel { active: self.active_tab, flash: self.flash_tab@, backup: self.backup_tab@ }
    }
}

impl OpenRTXCompanion {
    /// The invariant of the type. Every value that the library hands out
    /// has it and every function keeps it, so no function asks for it.
    pub open spec fn wf(&self) -> bool {
        self@.valid()
    }

    /// The application as it opens: on the flash tab, with nothing selected
    /// and nothing running.
    pub fn new(devices: Vec<DeviceInfo>, targets: Vec<Target>, ports: Vec<SerialPort>) -> (app:
        OpenRTXCompanion)
        ensures
            app.wf(),
            app@ == (CompanionModel {
                active: TabId::Flash,
                flash: FlashModel::initial(devices_of(devices@), targets_of(targets@)),
                backup: BackupModel::initial(ports_of(ports@)),
            }),
    {
        OpenRTXCompanion {
            active_tab: TabId::Flash,
            flash_tab: FlashTab::new(devices, targets),
            backup_tab: BackupTab::new(ports),
        }
    }

    /// The title of the window.
    pub fn title(&self) -> (text: String)
        ensures
            text@ == "OpenRTX Companion"@,
    {
        String::from_str("OpenRTX Companion")
    }

    /// The tab that shows.
    pub fn active_tab(&self) -> (tab: TabId)
        ensures
            tab == self@.active,
    {
        self.active_tab
    }

    /// The flash tab.
    pub fn flash_tab(&self) -> (tab: &FlashTab)
        ensures
            tab@ == self@.flash,
    {
        &self.flash_tab
    }

    /// The backup tab.
    pub fn backup_tab(&self) -> (tab: &BackupTab)
        ensures
            tab@ == self@.backup,
    {
        &self.backup_tab
    }

    /// Shows another tab. Operations go on in the background whichever tab
    /// shows.
    pub fn select_tab(&mut self, tab: TabId)
        ensures
            old(self).wf() ==> final(self).wf(),
            final(self)@ == old(self)@.with_active(tab),
    {
        self.active_tab = tab;
    }

    /// Takes an event and says what is left to the caller.
    pub fn update(&mut self, message: Message) -> (action: Action)
        ensures
            old(self).wf() ==> final(self).wf(),
            (final(self)@, action@) == old(self)@.step(message@),
    {
        proof {
            if self.wf() {
                lemma_step_keeps_valid(self@, message@);
            }
        }
        match message {
            Message::TabSelected(tab) => {
                self.active_tab = tab;
                Action::Nothing
            },
            Message::Flash(message) => self.flash_tab.update(message, self.backup_tab.operation()),
            Message::Backup(message) => self.backup_tab.update(
                message,
                self.flash_tab.operation(),
            ),
            Message::FilePath(tab, path) => match tab {
                TabId::Flash => self.flash_tab.update(
                    FlashMessage::FilePath(path),
                    self.backup_tab.operation(),
                ),
                TabId::Backup => self.backup_tab.update(
                    BackupMessage::FilePath(path),
                    self.flash_tab.operation(),
                ),
            },
            Message::StartBackup(path) => self.backup_tab.update(
                BackupMessage::StartBackup(path),
                self.flash_tab.operation(),
            ),
            Message::Worker(tab, news) => {
                match tab {
                    TabId::Flash => self.flash_tab.worker(news),
                    TabId::Backup => self.backup_tab.worker(news),
                }
                Action::Nothing
            },
            Message::Tick => {
                self.flash_tab.update(FlashMessage::Tick, self.backup_tab.operation());
                self.backup_tab.update(BackupMessage::Tick, self.flash_tab.operation());
                Action::Nothing
            },
            Message::Loaded(_) => Action::Nothing,
            Message::FontLoaded(_) => Action::Nothing,
            Message::TabClosed(_) => Action::Nothing,
        }
    }
}

/// Every event keeps the invariant of the application. In particular no
/// event makes two workers hold the same port.
pub proof fn lemma_step_keeps_valid(app: CompanionModel, event: Event)
    requires
        app.valid(),
    ensures
        app.step(event).0.valid(),
{
    crate::model::lemma_drained(app.flash.op);
    crate::model::lemma_drained(app.backup.op);
    match event {
        Event::Worker(TabId::Flash, news) => {
            crate::model::lemma_delivered(app.flash.op, news);
        },
        Event::Worker(TabId::Backup, news) => {
            crate::model::lemma_delivered(app.backup.op, news);
        },
        _ => {},
    }
}

/// Switching the tab that shows changes nothing else: both operations keep
/// their status, progress and channel, and nothing is asked of the caller.
pub proof fn lemma_tab_switch_keeps_operations(app: CompanionModel, tab: TabId)
    ensures
        app.step(Event::TabSelected(tab)).0.active == tab,
        app.step(Event::TabSelected(tab)).0.flash == app.flash,
        app.step(Event::TabSelected(tab)).0.backup == app.backup,
        app.step(Event::TabSelected(tab)).1 == ActionModel::Nothing,
{
}

/// What an event does to the tabs does not depend on which tab shows. In
/// particular the answer of a file picker reaches the tab that asked for it
/// even if the user has switched tabs in the meantime.
pub proof fn lemma_routing_ignores_active_tab(app: CompanionModel, event: Event, tab: TabId)
    requires
        !(event is TabSelected),
    ensures
        app.with_active(tab).step(event).0 == app.step(event).0.with_active(tab),
        app.with_active(tab).step(event).1 == app.step(event).1,
{
}

/// An event of one tab leaves the other tab as it was.
pub proof fn lemma_tabs_do_not_interfere(app: CompanionModel, event: Event)
    ensures
        event is Flash ==> app.step(event).0.backup == app.backup,
        event is Backup ==> app.step(event).0.flash == app.flash,
        event is StartBackup ==> app.step(event).0.flash == app.flash,
        (event matches Event::FilePath(tab, _) && tab == TabId::Flash) ==> app.step(
            event,
        ).0.backup == app.backup,
        (event matches Event::FilePath(tab, _) && tab == TabId::Backup) ==> app.step(
            event,
        ).0.flash == app.flash,
        (event matches Event::Worker(tab, _) && tab == TabId::Flash) ==> app.step(event).0.backup
            == app.backup,
        (event matches Event::Worker(tab, _) && tab == TabId::Backup) ==> app.step(event).0.flash
            == app.flash,
{
}

/// While the flash tab holds a port, a backup on that port is refused as
/// busy: no worker is asked for, the flash tab is untouched, and the backup
/// tab keeps its status and progress and names the reason.
pub proof fn lemma_backup_refused_on_held_port(app: CompanionModel, path: Seq<char>)
    requires
        app.valid(),
        app.flash.op.status is Running,
        app.backup.op.target == app.flash.op.target,
    ensures
        app.step(Event::StartBackup(Some(path))).1 == ActionModel::Nothing,
        app.step(Event::StartBackup(Some(path))).0.flash == app.flash,
        app.step(Event::StartBackup(Some(path))).0.backup.op.status == app.backup.op.status,
        app.step(Event::StartBackup(Some(path))).0.backup.op.progress == app.backup.op.progress,
        app.step(Event::StartBackup(Some(path))).0.backup.op.link is None,
        app.step(Event::StartBackup(Some(path))).0.backup.op.text == crate::model::error_text(
            crate::operation::PreconditionError::ResourceBusy,
        ),
{
}

/// While the backup tab holds a port, flashing through that port is refused
/// as busy: no worker is asked for, the backup tab is untouched, and the
/// flash tab keeps its status and progress and names the reason.
pub proof fn lemma_flash_refused_on_held_port(app: CompanionModel)
    requires
        app.valid(),
        app.backup.op.status is Running,
        app.flash.op.target == app.backup.op.target,
        app.flash.target is Some,
    ensures
        app.step(Event::Flash(FlashEvent::FlashPressed)).1 == ActionModel::Nothing,
        app.step(Event::Flash(FlashEvent::FlashPressed)).0.backup == app.backup,
        app.step(Event::Flash(FlashEvent::FlashPressed)).0.flash.op.status == app.flash.op.status,
        app.step(Event::Flash(FlashEvent::FlashPressed)).0.flash.op.progress
            == app.flash.op.progress,
        app.step(Event::Flash(FlashEvent::FlashPressed)).0.flash.op.link is None,
        app.step(Event::Flash(FlashEvent::FlashPressed)).0.flash.op.text
            == crate::model::error_text(crate::operation::PreconditionError::ResourceBusy),
{
}

/// A tab that runs ignores a second start: its operation stays exactly as
/// it was and no second worker is asked for.
pub proof fn lemma_running_tab_is_not_restarted(app: CompanionModel, path: Seq<char>)
    requires
        app.valid(),
    ensures
        app.flash.op.status is Running ==> {
            &&& app.step(Event::Flash(FlashEvent::FlashPressed)).0 == app
            &&& app.step(Event::Flash(FlashEvent::FlashPressed)).1 == ActionModel::Nothing
        },
        app.backup.op.status is Running ==> {
            &&& app.step(Event::StartBackup(Some(path))).0 == app
            &&& app.step(Event::StartBackup(Some(path))).1 == ActionModel::Nothing
        },
{
}

/// The caller is asked for a worker exactly when an operation turns to
/// running, and the order names the port and path of that operation: there
/// is one worker for each running operation, and none without.
pub proof fn lemma_worker_for_every_start(app: CompanionModel, event: Event)
    requires
        app.valid(),
    ensures
        app.step(event).1 is StartFlash <==> (!(app.flash.op.status is Running) && app.step(
            event,
        ).0.flash.op.status is Running),
        app.step(event).1 is StartBackup <==> (!(app.backup.op.status is Running) && app.step(
            event,
        ).0.backup.op.status is Running),
        app.step(event).1 matches ActionModel::StartFlash { target, order } ==> {
            &&& Some(target) == app.flash.target
            &&& order == app.step(event).0.flash.op.launch()
        },
        app.step(event).1 matches ActionModel::StartBackup(order) ==> order == app.step(
            event,
        ).0.backup.op.launch(),
{
    match event {
        Event::Worker(TabId::Flash, news) => {
            crate::model::lemma_delivered(app.flash.op, news);
        },
        Event::Worker(TabId::Backup, news) => {
            crate::model::lemma_delivered(app.backup.op, news);
        },
        _ => {},
    }
}

/// The progress of an operation goes back to zero only when the operation
/// is started. Every other event leaves it where it was or moves it
/// forward.
pub proof fn lemma_progress_resets_only_on_start(app: CompanionModel, event: Event)
    requires
        app.valid(),
    ensures
        app.step(event).1 is StartFlash ==> app.step(event).0.flash.op.progress
            == crate::progress::Fraction::zero(),
        !(app.step(event).1 is StartFlash) ==> app.flash.op.progress.le(
            app.step(event).0.flash.op.progress,
        ),
        app.step(event).1 is StartBackup ==> app.step(event).0.backup.op.progress
            == crate::progress::Fraction::zero(),
        !(app.step(event).1 is StartBackup) ==> app.backup.op.progress.le(
            app.step(event).0.backup.op.progress,
        ),
{
    let flash = app.flash.op.progress;
    let backup = app.backup.op.progress;
    assert(flash.done * flash.total <= flash.done * flash.total);
    assert(backup.done * backup.total <= backup.done * backup.total);
    crate::model::lemma_drained(app.flash.op);
    crate::model::lemma_drained(app.backup.op);
    match event {
        Event::Worker(TabId::Flash, news) => {
            crate::model::lemma_delivered(app.flash.op, news);
        },
        Event::Worker(TabId::Backup, news) => {
            crate::model::lemma_delivered(app.backup.op, news);
        },
        _ => {},
    }
}

} // verus!
