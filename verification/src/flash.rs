//! The flash tab: pick a device, a radio model and a firmware image, then
//! flash the image onto the device.

use crate::action::{Action, ActionModel, TabId};
use crate::model::{NewsModel, OperationModel};
use crate::operation::{
    OperationKind, OperationState, PreconditionError, WorkerNews, clone_text, text_of,
};
use vstd::std_specs::convert::FromSpecImpl;
use vstd::prelude::*;
use vstd::string::*;

verus! {

/// The radio hardware families that firmware is built for.
#[derive(Debug, Clone, Copy, PartialEq, Eq, Structural)]
pub enum RadioHW {
    Mduv3x0,
    Twrplus,
    Md3x0,
}

impl RadioHW {
    /// Every hardware family, in the order in which the front-end lists them.
    pub fn all() -> (list: [RadioHW; 3])
        ensures
            list@ == seq![RadioHW::Md3x0, RadioHW::Mduv3x0, RadioHW::Twrplus],
    {
        let list = [RadioHW::Md3x0, RadioHW::Mduv3x0, RadioHW::Twrplus];
        assert(list@ =~= seq![RadioHW::Md3x0, RadioHW::Mduv3x0, RadioHW::Twrplus]);
        list
    }

    /// The marketing name of the family.
    pub open spec fn label_text(self) -> Seq<char> {
        match self {
            RadioHW::Md3x0 => "MD3x0"@,
            RadioHW::Mduv3x0 => "MD-UV3x0"@,
            RadioHW::Twrplus => "T-TWR Plus"@,
        }
    }

    /// The marketing name of the family.
    pub fn label(&self) -> (text: String)
        ensures
            text@ == self.label_text(),
    {
        match self {
            RadioHW::Md3x0 => String::from_str("MD3x0"),
            RadioHW::Mduv3x0 => String::from_str("MD-UV3x0"),
            RadioHW::Twrplus => String::from_str("T-TWR Plus"),
        }
    }
}

impl From<RadioHW> for String {
    /// The marketing name of the family.
    fn from(radio: RadioHW) -> (text: String)
        ensures
            text@ == radio.label_text(),
    {
        radio.label()
    }
}

/// A string has no value that a specification could write down, only a
/// view: what the conversion returns is stated by the `ensures` of `from`
/// above, over the view, and not by `from_spec`.
impl FromSpecImpl<RadioHW> for String {
    open spec fn obeys_from_spec() -> bool {
        false
    }

    open spec fn from_spec(radio: RadioHW) -> String {
        arbitrary()
    }
}

/// A radio that was found connected.
#[derive(Debug, PartialEq, Eq)]
pub struct DeviceInfo {
    pub index: usize,
    pub manufacturer: String,
    pub model: String,
    /// The port through which the device is reached.
    pub port: String,
}

/// The mathematical value of a [`DeviceInfo`].
pub struct DeviceModel {
    pub index: usize,
    pub manufacturer: Seq<char>,
    pub model: Seq<char>,
    pub port: Seq<char>,
}

impl View for DeviceInfo {
    type V = DeviceModel;

    open spec fn view(&self) -> DeviceModel {
        DeviceModel {
            index: self.index,
            manufacturer: self.manufacturer@,
            model: self.model@,
            port: self.port@,
        }
    }
}

impl DeviceModel {
    /// The entry that is listed where no device was found, so that the
    /// selector is never empty.
    pub open spec fn placeholder() -> DeviceModel {
        DeviceModel {
            index: 0,
            manufacturer: Seq::empty(),
            model: "No device found!"@,
            port: Seq::empty(),
        }
    }

    /// The list that the selector shows for the devices that were found.
    pub open spec fn selectable(found: Seq<DeviceModel>) -> Seq<DeviceModel> {
        if found.len() == 0 {
            seq![DeviceModel::placeholder()]
        } else {
            found
        }
    }
}

impl DeviceInfo {
    /// The entry that stands in for a missing device.
    pub fn placeholder() -> (device: DeviceInfo)
        ensures
            device@ == DeviceModel::placeholder(),
    {
        DeviceInfo {
            index: 0,
            manufacturer: String::new(),
            model: String::from_str("No device found!"),
            port: String::new(),
        }
    }
}

impl Clone for DeviceInfo {
    fn clone(&self) -> (copy: DeviceInfo)
        ensures
            copy == *self,
    {
        DeviceInfo {
            index: self.index,
            manufacturer: self.manufacturer.clone(),
            model: self.model.clone(),
            port: self.port.clone(),
        }
    }
}

/// A radio model that firmware can be flashed for. `index` is its place in
/// the list of supported models.
#[derive(Debug, PartialEq, Eq)]
pub struct Target {
    pub index: usize,
    pub name: String,
}

/// The mathematical value of a [`Target`].
pub struct TargetModel {
    pub index: usize,
    pub name: Seq<char>,
}

impl View for Target {
    type V = TargetModel;

    open spec fn view(&self) -> TargetModel {
        TargetModel { index: self.index, name: self.name@ }
    }
}

impl Clone for Target {
    fn clone(&self) -> (copy: Target)
        ensures
            copy == *self,
    {
        Target { index: self.index, name: self.name.clone() }
    }
}

/// The events of the flash tab.
#[derive(Debug)]
pub enum FlashMessage {
    DeviceSelected(DeviceInfo),
    TargetSelected(Target),
    OpenFWPressed,
    OpenFile(Option<String>),
    FlashPressed,
    /// The answer of the file picker; `None` where the user cancelled.
    FilePath(Option<String>),
    Tick,
}

impl Clone for FlashMessage {
    fn clone(&self) -> (copy: FlashMessage)
        ensures
            copy == *self,
    {
        match self {
            FlashMessage::DeviceSelected(device) => FlashMessage::DeviceSelected(device.clone()),
            FlashMessage::TargetSelected(target) => FlashMessage::TargetSelected(target.clone()),
            FlashMessage::OpenFWPressed => FlashMessage::OpenFWPressed,
            FlashMessage::OpenFile(path) => FlashMessage::OpenFile(clone_text(path)),
            FlashMessage::FlashPressed => FlashMessage::FlashPressed,
            FlashMessage::FilePath(path) => FlashMessage::FilePath(clone_text(path)),
            FlashMessage::Tick => FlashMessage::Tick,
        }
    }
}

/// The mathematical value of a [`FlashMessage`].
pub enum FlashEvent {
    DeviceSelected(DeviceModel),
    TargetSelected(TargetModel),
    OpenFWPressed,
    OpenFile(Option<Seq<char>>),
    FlashPressed,
    FilePath(Option<Seq<char>>),
    Tick,
}

impl View for FlashMessage {
    type V = FlashEvent;

    open spec fn view(&self) -> FlashEvent {
        match self {
            FlashMessage::DeviceSelected(device) => FlashEvent::DeviceSelected(device@),
            FlashMessage::TargetSelected(target) => FlashEvent::TargetSelected(target@),
            FlashMessage::OpenFWPressed => FlashEvent::OpenFWPressed,
            FlashMessage::OpenFile(path) => FlashEvent::OpenFile(text_of(*path)),
            FlashMessage::FlashPressed => FlashEvent::FlashPressed,
            FlashMessage::FilePath(path) => FlashEvent::FilePath(text_of(*path)),
            FlashMessage::Tick => FlashEvent::Tick,
        }
    }
}

/// What the tab says once an image was picked.
pub open spec fn loaded_text(path: Seq<char>) -> Seq<char> {
    "Loaded firmware: "@ + path
}

/// The port of the selected device, if one is selected.
pub open spec fn port_of(device: Option<DeviceModel>) -> Option<Seq<char>> {
    match device {
        Some(device) => Some(device.port),
        None => None,
    }
}

/// The mathematical value of a [`FlashTab`].
pub struct FlashModel {
    pub op: OperationModel,
    pub devices: Seq<DeviceModel>,
    pub targets: Seq<TargetModel>,
    pub model: Option<RadioHW>,
    pub device: Option<DeviceModel>,
    pub target: Option<TargetModel>,
}

impl FlashModel {
    /// The invariant of the tab: its operation is a valid flash operation
    /// whose target is the port of the selected device, and the selector of
    /// devices has at least one entry.
    pub open spec fn valid(self) -> bool {
        &&& self.op.valid()
        &&& self.op.kind == OperationKind::Flash
        &&& self.op.target == port_of(self.device)
        &&& self.devices.len() > 0
    }

    /// The tab as the application opens it, over the devices that were found
    /// and the radio models that can be flashed.
    pub open spec fn initial(found: Seq<DeviceModel>, targets: Seq<TargetModel>) -> FlashModel {
        FlashModel {
            op: OperationModel::initial(OperationKind::Flash),
            devices: DeviceModel::selectable(found),
            targets,
            model: None,
            device: None,
            target: None,
        }
    }

    /// Why flashing is refused, or `None` where it goes ahead. Flashing
    /// needs a radio model beside what every operation needs.
    pub open spec fn refusal(self, peer: OperationModel) -> Option<PreconditionError> {
        if self.target is None {
            Some(PreconditionError::NoTargetSelected)
        } else {
            self.op.refusal(peer)
        }
    }

    /// The tab after the front-end handed over what it collected from the
    /// worker of the tab.
    pub open spec fn worker_step(self, news: NewsModel) -> FlashModel {
        FlashModel { op: self.op.delivered(news), ..self }
    }

    /// The tab after an event, and what the event leaves to the caller.
    /// `peer` is the operation of the other tab.
    pub open spec fn step(self, event: FlashEvent, peer: OperationModel) -> (
        FlashModel,
        ActionModel,
    ) {
        match event {
            FlashEvent::DeviceSelected(device) => if self.op.status is Running {
                (self, ActionModel::Nothing)
            } else {
                (
                    FlashModel {
                        op: self.op.with_target(device.port),
                        device: Some(device),
                        ..self
                    },
                    ActionModel::Nothing,
                )
            },
            FlashEvent::TargetSelected(target) => if self.op.status is Running {
                (self, ActionModel::Nothing)
            } else {
                (FlashModel { target: Some(target), ..self }, ActionModel::Nothing)
            },
            FlashEvent::OpenFWPressed => (self, ActionModel::PickFile(TabId::Flash)),
            FlashEvent::OpenFile(_) => (self, ActionModel::Nothing),
            FlashEvent::FlashPressed => match self.refusal(peer) {
                Some(error) => (
                    FlashModel { op: self.op.rejected(error), ..self },
                    ActionModel::Nothing,
                ),
                None => (
                    FlashModel { op: self.op.started(), ..self },
                    ActionModel::StartFlash { target: self.target->0, order: self.op.launch() },
                ),
            },
            FlashEvent::FilePath(None) => (self, ActionModel::Nothing),
            FlashEvent::FilePath(Some(path)) => (
                FlashModel { op: self.op.with_path(path).with_text(loaded_text(path)), ..self },
                ActionModel::Nothing,
            ),
            FlashEvent::Tick => (FlashModel { op: self.op.drained(), ..self }, ActionModel::Nothing),
        }
    }
}

/// The views of a list of devices.
pub open spec fn devices_of(list: Seq<DeviceInfo>) -> Seq<DeviceModel> {
    list.map_values(|device: DeviceInfo| device@)
}

/// The views of a list of radio models.
pub open spec fn targets_of(list: Seq<Target>) -> Seq<TargetModel> {
    list.map_values(|target: Target| target@)
}

/// The view of an optional device.
pub open spec fn device_of(device: Option<DeviceInfo>) -> Option<DeviceModel> {
    match device {
        Some(device) => Some(device@),
        None => None,
    }
}

/// The view of an optional radio model.
pub open spec fn target_of(target: Option<Target>) -> Option<TargetModel> {
    match target {
        Some(target) => Some(target@),
        None => None,
    }
}

/// The flash tab.
#[derive(Debug)]
pub struct FlashTab {
    op: OperationState,
    devices: Vec<DeviceInfo>,
    targets: Vec<Target>,
    selected_model: Option<RadioHW>,
    selected_device: Option<DeviceInfo>,
    selected_target: Option<Target>,
}

impl View for FlashTab {
    type V = FlashModel;

    closed spec fn view(&self) -> FlashModel {
        FlashModel {
            op: self.op@,
            devices: devices_of(self.devices@),
            targets: targets_of(self.targets@),
            model: self.selected_model,
            device: device_of(self.selected_device),
            target: target_of(self.selected_target),
        }
    }
}

impl FlashTab {
    /// The invariant of the type. Every value that the library hands out
    /// has it and every function keeps it, so no function asks for it.
    pub open spec fn wf(&self) -> bool {
        self@.valid()
    }

    /// The tab as the application opens it, over the devices that were found
    /// connected and the radio models that can be flashed. Where no device
    /// was found the selector lists a placeholder: it is never empty.
    pub fn new(found: Vec<DeviceInfo>, targets: Vec<Target>) -> (tab: FlashTab)
        ensures
            tab.wf(),
            tab@ == FlashModel::initial(devices_of(found@), targets_of(targets@)),
    {
        let mut devices = found;
        if devices.len() == 0 {
            devices.push(DeviceInfo::placeholder());
            assert(devices_of(devices@) =~= seq![DeviceModel::placeholder()]);
        }
        FlashTab {
            op: OperationState::new(OperationKind::Flash),
            devices,
            targets,
            selected_model: None,
            selected_device: None,
            selected_target: None,
        }
    }

    /// The heading of the tab.
    pub fn title(&self) -> (text: String)
        ensures
            text@ == "Flash"@,
    {
        String::from_str("Flash")
    }

    /// The operation of the tab.
    pub fn operation(&self) -> (op: &OperationState)
        ensures
            op@ == self@.op,
            self.wf() ==> op.wf(),
    {
        &self.op
    }

    /// The devices that the user can choose from.
    pub fn devices(&self) -> (list: &Vec<DeviceInfo>)
        ensures
            devices_of(list@) == self@.devices,
    {
        &self.devices
    }

    /// The radio models that the user can choose from.
    pub fn targets(&self) -> (list: &Vec<Target>)
        ensures
            targets_of(list@) == self@.targets,
    {
        &self.targets
    }

    /// The hardware family that the user chose.
    pub fn selected_model(&self) -> (model: Option<RadioHW>)
        ensures
            model == self@.model,
    {
        self.selected_model
    }

    /// The device that the user chose.
    pub fn selected_device(&self) -> (device: Option<&DeviceInfo>)
        ensures
            device is Some <==> self@.device is Some,
            device matches Some(d) ==> self@.device == Some(d@),
    {
        self.selected_device.as_ref()
    }

    /// The radio model that the user chose.
    pub fn selected_target(&self) -> (target: Option<&Target>)
        ensures
            target is Some <==> self@.target is Some,
            target matches Some(t) ==> self@.target == Some(t@),
    {
        self.selected_target.as_ref()
    }

    /// Hands over what the front-end collected from the worker of the tab
    /// since the last tick.
    pub fn worker(&mut self, news: WorkerNews)
        ensures
            old(self).wf() ==> final(self).wf(),
            final(self)@ == old(self)@.worker_step(news@),
    {
        proof {
            if self.wf() {
                crate::model::lemma_delivered(self.op@, news@);
            }
        }
        self.op.deliver(news);
    }

    /// Takes an event of the tab and says what is left to the caller.
    ///
    /// `peer` is the operation of the other tab: flashing is refused while
    /// it holds the port of the selected device.
    pub fn update(&mut self, message: FlashMessage, peer: &OperationState) -> (action: Action)
        ensures
            old(self).wf() ==> final(self).wf(),
            (final(self)@, action@) == old(self)@.step(message@, peer@),
    {
        match message {
            FlashMessage::DeviceSelected(device) => {
                if !self.op.is_running() {
                    self.op.select_target(device.port.clone());
                    self.selected_device = Some(device);
                }
                Action::Nothing
            },
            FlashMessage::TargetSelected(target) => {
                if !self.op.is_running() {
                    self.selected_target = Some(target);
                }
                Action::Nothing
            },
            FlashMessage::OpenFWPressed => Action::PickFile(TabId::Flash),
            FlashMessage::OpenFile(_) => Action::Nothing,
            FlashMessage::FlashPressed => {
                match &self.selected_target {
                    None => {
                        self.op.reject(PreconditionError::NoTargetSelected);
                        Action::Nothing
                    },
                    Some(target) => {
                        let target = target.clone();
                        match self.op.start(peer) {
                            Ok(order) => Action::StartFlash { target, order },
                            Err(_) => Action::Nothing,
                        }
                    },
                }
            },
            FlashMessage::FilePath(path) => {
                match path {
                    None => {},
                    Some(path) => {
                        let text = String::from_str("Loaded firmware: ").concat(path.as_str());
                        self.op.select_path(path);
                        self.op.announce(text);
                    },
                }
                Action::Nothing
            },
            FlashMessage::Tick => {
                self.op.drain();
                Action::Nothing
            },
        }
    }
}

/// The selector of devices is never empty: it shows what was found, and a
/// placeholder alone where nothing was found.
pub proof fn lemma_selector_never_empty(found: Seq<DeviceModel>)
    ensures
        DeviceModel::selectable(found).len() > 0,
        found.len() > 0 ==> DeviceModel::selectable(found) == found,
        found.len() == 0 ==> DeviceModel::selectable(found) == seq![DeviceModel::placeholder()],
{
}

} // verus!
