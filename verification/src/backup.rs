//! The backup tab: pick a serial port and a destination, then back the radio
//! up through the port.

use crate::action::{Action, ActionModel, TabId};
use crate::model::{NewsModel, OperationModel};
use crate::operation::{OperationKind, OperationState, WorkerNews, clone_text, text_of};
use vstd::prelude::*;
use vstd::string::*;

verus! {

/// A serial port as the enumeration of the system reports it: vendor and
/// product are not always known.
#[derive(Debug, PartialEq, Eq)]
pub struct PortRecord {
    pub name: String,
    pub vendor: Option<String>,
    pub product: Option<String>,
}

/// A serial port that the user can choose.
#[derive(Debug)]
pub struct SerialPort {
    name: String,
    product: String,
    vendor: String,
}

/// The mathematical value of a [`SerialPort`].
pub struct PortModel {
    pub name: Seq<char>,
    pub vendor: Seq<char>,
    pub product: Seq<char>,
}

impl View for SerialPort {
    type V = PortModel;

    closed spec fn view(&self) -> PortModel {
        PortModel { name: self.name@, vendor: self.vendor@, product: self.product@ }
    }
}

impl Clone for SerialPort {
    fn clone(&self) -> (copy: SerialPort)
        ensures
            copy == *self,
    {
        SerialPort {
            name: self.name.clone(),
            vendor: self.vendor.clone(),
            product: self.product.clone(),
        }
    }
}

/// The text of an optional string, empty where there is none.
pub open spec fn text_or_empty(value: Option<String>) -> Seq<char> {
    match value {
        Some(text) => text@,
        None => Seq::empty(),
    }
}

impl PortModel {
    /// The port that a record of the enumeration stands for: an unknown
    /// vendor or product shows as an empty text.
    pub open spec fn of_record(record: PortRecord) -> PortModel {
        PortModel {
            name: record.name@,
            vendor: text_or_empty(record.vendor),
            product: text_or_empty(record.product),
        }
    }

    /// The entry that is listed where no port was found, so that the
    /// selector is never empty.
    pub open spec fn placeholder() -> PortModel {
        PortModel { name: "No serial port found!"@, vendor: Seq::empty(), product: Seq::empty() }
    }

    /// The ports that every record of `records` stands for, in order.
    pub open spec fn of_records(records: Seq<PortRecord>) -> Seq<PortModel> {
        records.map_values(|record: PortRecord| PortModel::of_record(record))
    }

    /// The list that the selector shows for the ports that were found.
    pub open spec fn selectable(found: Seq<PortModel>) -> Seq<PortModel> {
        if found.len() == 0 {
            seq![PortModel::placeholder()]
        } else {
            found
        }
    }
}

impl SerialPort {
    /// A port with the given name, vendor and product.
    pub fn new(name: String, vendor: String, product: String) -> (port: SerialPort)
        ensures
            port@ == (PortModel { name: name@, vendor: vendor@, product: product@ }),
    {
        SerialPort { name, vendor, product }
    }

    /// The port that a record of the enumeration stands for.
    pub fn from_record(record: &PortRecord) -> (port: SerialPort)
        ensures
            port@ == PortModel::of_record(*record),
    {
        SerialPort {
            name: record.name.clone(),
            vendor: match &record.vendor {
                Some(vendor) => vendor.clone(),
                None => String::new(),
            },
            product: match &record.product {
                Some(product) => product.clone(),
                None => String::new(),
            },
        }
    }

    /// The entry that stands in for a missing port.
    pub fn placeholder() -> (port: SerialPort)
        ensures
            port@ == PortModel::placeholder(),
    {
        SerialPort {
            name: String::from_str("No serial port found!"),
            vendor: String::new(),
            product: String::new(),
        }
    }

    /// The name of the port, by which it is opened.
    pub fn name(&self) -> (text: &String)
        ensures
            text@ == self@.name,
    {
        &self.name
    }

    /// The vendor of the adapter behind the port; empty where unknown.
    pub fn vendor(&self) -> (text: &String)
        ensures
            text@ == self@.vendor,
    {
        &self.vendor
    }

    /// The product name of the adapter behind the port; empty where unknown.
    pub fn product(&self) -> (text: &String)
        ensures
            text@ == self@.product,
    {
        &self.product
    }

    /// The text under which the selector lists the port: its name.
    pub fn label(&self) -> (text: String)
        ensures
            text@ == self@.name,
    {
        self.name.clone()
    }
}

/// The views of a list of ports.
pub open spec fn ports_of(list: Seq<SerialPort>) -> Seq<PortModel> {
    list.map_values(|port: SerialPort| port@)
}

/// The view of an optional port.
pub open spec fn port_of(port: Option<SerialPort>) -> Option<PortModel> {
    match port {
        Some(port) => Some(port@),
        None => None,
    }
}

/// The name of an optional port.
pub open spec fn name_of(port: Option<PortModel>) -> Option<Seq<char>> {
    match port {
        Some(port) => Some(port.name),
        None => None,
    }
}

/// Turns what the enumeration of the system reported into ports, one for
/// each record and in the same order.
pub fn get_ports(records: &Vec<PortRecord>) -> (ports: Vec<SerialPort>)
    ensures
        ports_of(ports@) == PortModel::of_records(records@),
{
    let mut ports: Vec<SerialPort> = Vec::new();
    let mut i: usize = 0;
    while i < records.len()
        invariant
            i <= records@.len(),
            ports@.len() == i,
            forall|j: int|
                0 <= j < i ==> (#[trigger] ports@[j])@ == PortModel::of_record(records@[j]),
        decreases records@.len() - i,
    {
        ports.push(SerialPort::from_record(&records[i]));
        i = i + 1;
    }
    assert(ports_of(ports@) =~= PortModel::of_records(records@));
    ports
}

/// The events of the backup tab.
#[derive(Debug)]
pub enum BackupMessage {
    BackupPressed,
    RestorePressed,
    OpenRestoreFilePressed,
    RestoreFileSelected(Option<String>),
    /// The answer of the folder picker; `None` where the user cancelled.
    StartBackup(Option<String>),
    PortSelected(SerialPort),
    FilePath(Option<String>),
    Tick,
}

impl Clone for BackupMessage {
    fn clone(&self) -> (copy: BackupMessage)
        ensures
            copy == *self,
    {
        match self {
            BackupMessage::BackupPressed => BackupMessage::BackupPressed,
            BackupMessage::RestorePressed => BackupMessage::RestorePressed,
            BackupMessage::OpenRestoreFilePressed => BackupMessage::OpenRestoreFilePressed,
            BackupMessage::RestoreFileSelected(file) => BackupMessage::RestoreFileSelected(
                clone_text(file),
            ),
            BackupMessage::StartBackup(path) => BackupMessage::StartBackup(clone_text(path)),
            BackupMessage::PortSelected(port) => BackupMessage::PortSelected(port.clone()),
            BackupMessage::FilePath(path) => BackupMessage::FilePath(clone_text(path)),
            BackupMessage::Tick => BackupMessage::Tick,
        }
    }
}

/// The mathematical value of a [`BackupMessage`].
pub enum BackupEvent {
    BackupPressed,
    RestorePressed,
    OpenRestoreFilePressed,
    RestoreFileSelected(Option<Seq<char>>),
    StartBackup(Option<Seq<char>>),
    PortSelected(PortModel),
    FilePath(Option<Seq<char>>),
    Tick,
}

impl View for BackupMessage {
    type V = BackupEvent;

    open spec fn view(&self) -> BackupEvent {
        match self {
            BackupMessage::BackupPressed => BackupEvent::BackupPressed,
            BackupMessage::RestorePressed => BackupEvent::RestorePressed,
            BackupMessage::OpenRestoreFilePressed => BackupEvent::OpenRestoreFilePressed,
            BackupMessage::RestoreFileSelected(file) => BackupEvent::RestoreFileSelected(
                text_of(*file),
            ),
            BackupMessage::StartBackup(path) => BackupEvent::StartBackup(text_of(*path)),
            BackupMessage::PortSelected(port) => BackupEvent::PortSelected(port@),
            BackupMessage::FilePath(path) => BackupEvent::FilePath(text_of(*path)),
            BackupMessage::Tick => BackupEvent::Tick,
        }
    }
}

/// The mathematical value of a [`BackupTab`].
pub struct BackupModel {
    pub op: OperationModel,
    /// The ports that the selector lists; never empty.
    pub ports: Seq<PortModel>,
    pub port: Option<PortModel>,
    pub restore_file: Option<Seq<char>>,
}

impl BackupModel {
    /// The invariant of the tab: its operation is a valid backup operation
    /// whose target is the name of the selected port, and the selector has
    /// at least one entry.
    pub open spec fn valid(self) -> bool {
        &&& self.op.valid()
        &&& self.op.kind == OperationKind::Backup
        &&& self.op.target == name_of(self.port)
        &&& self.ports.len() > 0
    }

    /// The tab as the application opens it over the ports that were found.
    pub open spec fn initial(found: Seq<PortModel>) -> BackupModel {
        BackupModel {
            op: OperationModel::initial(OperationKind::Backup),
            ports: PortModel::selectable(found),
            port: None,
            restore_file: None,
        }
    }

    /// The tab after the front-end handed over what it collected from the
    /// worker of the tab.
    pub open spec fn worker_step(self, news: NewsModel) -> BackupModel {
        BackupModel { op: self.op.delivered(news), ..self }
    }

    /// The tab after an event, and what the event leaves to the caller.
    /// `peer` is the operation of the other tab.
    pub open spec fn step(self, event: BackupEvent, peer: OperationModel) -> (
        BackupModel,
        ActionModel,
    ) {
        match event {
            BackupEvent::BackupPressed => (self, ActionModel::PickFolder(TabId::Backup)),
            BackupEvent::RestorePressed => (self, ActionModel::Nothing),
            BackupEvent::OpenRestoreFilePressed => (self, ActionModel::PickFile(TabId::Backup)),
            BackupEvent::RestoreFileSelected(file) => (
                BackupModel { restore_file: file, ..self },
                ActionModel::Nothing,
            ),
            BackupEvent::StartBackup(None) => (self, ActionModel::Nothing),
            BackupEvent::StartBackup(Some(path)) => {
                let op = self.op.with_path(path);
                (
                    BackupModel { op: op.after_start(peer), ..self },
                    match op.refusal(peer) {
                        Some(_) => ActionModel::Nothing,
                        None => ActionModel::StartBackup(op.launch()),
                    },
                )
            },
            BackupEvent::PortSelected(port) => if self.op.status is Running {
                (self, ActionModel::Nothing)
            } else {
                (
                    BackupModel { op: self.op.with_target(port.name), port: Some(port), ..self },
                    ActionModel::Nothing,
                )
            },
            BackupEvent::FilePath(_) => (self, ActionModel::Nothing),
            BackupEvent::Tick => (
                BackupModel { op: self.op.drained(), ..self },
                ActionModel::Nothing,
            ),
        }
    }
}

/// The backup tab.
#[derive(Debug)]
pub struct BackupTab {
    op: OperationState,
    serial_ports: Vec<SerialPort>,
    serial_port: Option<SerialPort>,
    restore_file: Option<String>,
}

impl View for BackupTab {
    type V = BackupModel;

    closed spec fn view(&self) -> BackupModel {
        BackupModel {
            op: self.op@,
            ports: ports_of(self.serial_ports@),
            port: port_of(self.serial_port),
            restore_file: text_of(self.restore_file),
        }
    }
}

impl BackupTab {
    /// The invariant of the type. Every value that the library hands out
    /// has it and every function keeps it, so no function asks for it.
    pub open spec fn wf(&self) -> bool {
        self@.valid()
    }

    /// The tab as the application opens it, over the ports that were found.
    /// Where none was found the selector lists a placeholder: it is never
    /// empty.
    pub fn new(found: Vec<SerialPort>) -> (tab: BackupTab)
        ensures
            tab.wf(),
            tab@ == BackupModel::initial(ports_of(found@)),
    {
        let mut ports = found;
        if ports.len() == 0 {
            ports.push(SerialPort::placeholder());
            assert(ports_of(ports@) =~= seq![PortModel::placeholder()]);
        }
        BackupTab {
            op: OperationState::new(OperationKind::Backup),
            serial_ports: ports,
            serial_port: None,
            restore_file: None,
        }
    }

    /// The heading of the tab.
    pub fn title(&self) -> (text: String)
        ensures
            text@ == "Backup"@,
    {
        String::from_str("Backup")
    }

    /// The operation of the tab.
    pub fn operation(&self) -> (op: &OperationState)
        ensures
            op@ == self@.op,
            self.wf() ==> op.wf(),
    {
        &self.op
    }

    /// The ports that the user can choose from.
    pub fn serial_ports(&self) -> (list: &Vec<SerialPort>)
        ensures
            ports_of(list@) == self@.ports,
    {
        &self.serial_ports
    }

    /// The port that the user chose.
    pub fn serial_port(&self) -> (port: Option<&SerialPort>)
        ensures
            port is Some <==> self@.port is Some,
            port matches Some(p) ==> self@.port == Some(p@),
    {
        self.serial_port.as_ref()
    }

    /// The file that the user chose to restore from.
    pub fn restore_file(&self) -> (file: Option<&String>)
        ensures
            file is Some <==> self@.restore_file is Some,
            file matches Some(f) ==> self@.restore_file == Some(f@),
    {
        self.restore_file.as_ref()
    }

    /// Hands over what the front-end collected from the worker of the tab
    /// since the last tick.
    pub fn worker(&mut self, news: WorkerNews)
        ensures
            old(self).wf() ==> final(self).wf(),
            final(self)@ == old(self)@.worker_step(news@),
    {
        proof {
            if self.wf() {
                crate::model::lemma_delivered(self.op@, news@);
            }
        }
        self.op.deliver(news);
    }

    /// Takes an event of the tab and says what is left to the caller.
    ///
    /// `peer` is the operation of the other tab: the backup is refused while
    /// it holds the selected port.
    pub fn update(&mut self, message: BackupMessage, peer: &OperationState) -> (action: Action)
        ensures
            old(self).wf() ==> final(self).wf(),
            (final(self)@, action@) == old(self)@.step(message@, peer@),
    {
        match message {
            BackupMessage::BackupPressed => Action::PickFolder(TabId::Backup),
            BackupMessage::RestorePressed => Action::Nothing,
            BackupMessage::OpenRestoreFilePressed => Action::PickFile(TabId::Backup),
            BackupMessage::RestoreFileSelected(file) => {
                self.restore_file = file;
                Action::Nothing
            },
            BackupMessage::StartBackup(path) => {
                match path {
                    None => Action::Nothing,
                    Some(path) => {
                        self.op.select_path(path);
                        match self.op.start(peer) {
                            Ok(order) => Action::StartBackup(order),
                            Err(_) => Action::Nothing,
                        }
                    },
                }
            },
            BackupMessage::PortSelected(port) => {
                if !self.op.is_running() {
                    self.op.select_target(port.name.clone());
                    self.serial_port = Some(port);
                }
                Action::Nothing
            },
            BackupMessage::FilePath(_) => Action::Nothing,
            BackupMessage::Tick => {
                self.op.drain();
                Action::Nothing
            },
        }
    }
}

/// The selector of ports is never empty: it shows what was found, and a
/// placeholder alone where nothing was found.
pub proof fn lemma_selector_never_empty(found: Seq<PortModel>)
    ensures
        PortModel::selectable(found).len() > 0,
        found.len() > 0 ==> PortModel::selectable(found) == found,
        found.len() == 0 ==> PortModel::selectable(found) == seq![PortModel::placeholder()],
{
}

} // verus!
