use std::sync::mpsc::{channel, Receiver, Sender, TryRecvError};

use openrtx_companion::action::{Action, TabId};
use openrtx_companion::backup::{get_ports, BackupMessage, PortRecord};
use openrtx_companion::companion::{Message, OpenRTXCompanion};
use openrtx_companion::flash::{DeviceInfo, FlashMessage, Target};
use openrtx_companion::operation::{Status, WorkerNews};
use openrtx_companion::progress::Sample;
use openrtx_companion::text::file_uri;

/// The receiving side of a worker, as a front-end holds it.
struct Worker {
    progress: Receiver<(usize, usize)>,
    outcome: Receiver<String>,
}

/// The sending side of a worker, which the test plays.
struct Remote {
    progress: Sender<(usize, usize)>,
    outcome: Sender<String>,
}

fn worker() -> (Worker, Remote) {
    let (progress_tx, progress_rx) = channel();
    let (outcome_tx, outcome_rx) = channel();
    (
        Worker { progress: progress_rx, outcome: outcome_rx },
        Remote { progress: progress_tx, outcome: outcome_tx },
    )
}

impl Worker {
    fn poll(&self) -> WorkerNews {
        let mut samples = Vec::new();
        let mut gone = false;
        loop {
            match self.progress.try_recv() {
                Ok((transferred, total)) => samples.push(Sample { transferred, total }),
                Err(TryRecvError::Empty) => break,
                Err(TryRecvError::Disconnected) => {
                    gone = true;
                    break;
                }
            }
        }
        WorkerNews { samples, failure: self.outcome.try_recv().ok(), gone }
    }
}

/// A front-end without windows: the library, the workers it asked for, and
/// the pickers it asked to open.
struct Frontend {
    core: OpenRTXCompanion,
    flash_worker: Option<Worker>,
    backup_worker: Option<Worker>,
    remotes: Vec<(TabId, Remote)>,
    pickers: Vec<Action>,
}

impl Frontend {
    fn new() -> Frontend {
        let records = vec![PortRecord {
            name: String::from("COM3"),
            vendor: Some(String::from("wch.cn")),
            product: None,
        }];
        let devices = vec![DeviceInfo {
            index: 0,
            manufacturer: String::from("TYT"),
            model: String::from("MD-UV380"),
            port: String::from("COM3"),
        }];
        let targets = vec![Target { index: 0, name: String::from("MD-UV380") }];
        Frontend {
            core: OpenRTXCompanion::new(devices, targets, get_ports(&records)),
            flash_worker: None,
            backup_worker: None,
            remotes: Vec::new(),
            pickers: Vec::new(),
        }
    }

    fn update(&mut self, message: Message) {
        if let Message::Tick = message {
            self.collect_reports();
        }
        let action = self.core.update(message);
        match action {
            Action::Nothing => {}
            Action::PickFile(_) | Action::PickFolder(_) => self.pickers.push(action),
            Action::StartFlash { .. } => {
                let (worker, remote) = worker();
                self.flash_worker = Some(worker);
                self.remotes.push((TabId::Flash, remote));
            }
            Action::StartBackup(_) => {
                let (worker, remote) = worker();
                self.backup_worker = Some(worker);
                self.remotes.push((TabId::Backup, remote));
            }
        }
    }

    fn collect_reports(&mut self) {
        for tab in [TabId::Flash, TabId::Backup] {
            let slot = match tab {
                TabId::Flash => &mut self.flash_worker,
                TabId::Backup => &mut self.backup_worker,
            };
            let Some(worker) = slot.as_ref() else {
                continue;
            };
            let news = worker.poll();
            if news.gone {
                *slot = None;
            }
            self.core.update(Message::Worker(tab, news));
        }
    }

    fn remote(&mut self, tab: TabId) -> Remote {
        let at = self.remotes.iter().position(|(owner, _)| *owner == tab).unwrap();
        self.remotes.remove(at).1
    }

    fn start_backup(&mut self) {
        let port = self.core.backup_tab().serial_ports()[0].clone();
        self.update(Message::Backup(BackupMessage::PortSelected(port)));
        self.update(Message::Backup(BackupMessage::BackupPressed));
        assert_eq!(self.pickers.pop(), Some(Action::PickFolder(TabId::Backup)));
        self.update(Message::StartBackup(Some(file_uri("/tmp/backup"))));
    }

    fn start_flash(&mut self) {
        let device = self.core.flash_tab().devices()[0].clone();
        let target = self.core.flash_tab().targets()[0].clone();
        self.update(Message::Flash(FlashMessage::DeviceSelected(device)));
        self.update(Message::Flash(FlashMessage::TargetSelected(target)));
        self.update(Message::Flash(FlashMessage::OpenFWPressed));
        assert_eq!(self.pickers.pop(), Some(Action::PickFile(TabId::Flash)));
        self.update(Message::FilePath(TabId::Flash, Some(file_uri("/tmp/fw.bin"))));
        self.update(Message::Flash(FlashMessage::FlashPressed));
    }
}

#[test]
fn a_backup_over_a_real_channel_runs_to_completion() {
    let mut app = Frontend::new();
    app.start_backup();
    assert!(app.backup_worker.is_some());
    assert_eq!(*app.core.backup_tab().operation().status(), Status::Running);
    assert_eq!(app.core.backup_tab().operation().progress().percent(), 0);

    let remote = app.remote(TabId::Backup);
    app.update(Message::Tick);
    assert_eq!(*app.core.backup_tab().operation().status(), Status::Running);
    assert_eq!(app.core.backup_tab().operation().status_text(), "Starting\u{2026}");

    remote.progress.send((50, 200)).unwrap();
    app.update(Message::Tick);
    assert_eq!(app.core.backup_tab().operation().progress().percent(), 25);
    assert_eq!(app.core.backup_tab().operation().status_text(), "50/200");

    remote.progress.send((120, 200)).unwrap();
    remote.progress.send((200, 200)).unwrap();
    drop(remote);
    app.update(Message::Tick);
    assert_eq!(*app.core.backup_tab().operation().status(), Status::Complete);
    assert_eq!(app.core.backup_tab().operation().progress().percent(), 100);
    assert_eq!(app.core.backup_tab().operation().status_text(), "Backup complete!");
    assert!(app.backup_worker.is_none());
}

#[test]
fn a_worker_that_ends_at_once_completes_at_a_hundred_percent() {
    let mut app = Frontend::new();
    app.start_flash();
    assert!(app.flash_worker.is_some());
    drop(app.remote(TabId::Flash));
    app.update(Message::Tick);
    assert_eq!(*app.core.flash_tab().operation().status(), Status::Complete);
    assert_eq!(app.core.flash_tab().operation().progress().percent(), 100);
    assert_eq!(app.core.flash_tab().operation().status_text(), "Flash complete!");
}

#[test]
fn a_worker_that_fails_is_not_shown_as_complete() {
    let mut app = Frontend::new();
    app.start_flash();
    let remote = app.remote(TabId::Flash);
    remote.progress.send((64, 256)).unwrap();
    remote.outcome.send(String::from("device not in DFU mode")).unwrap();
    drop(remote);
    app.update(Message::Tick);
    assert_eq!(
        *app.core.flash_tab().operation().status(),
        Status::Failed(String::from("device not in DFU mode"))
    );
    assert_eq!(
        app.core.flash_tab().operation().status_text(),
        "Flash failed: device not in DFU mode"
    );
    assert_eq!(app.core.flash_tab().operation().progress().percent(), 25);
}

#[test]
fn the_second_tab_waits_for_the_port() {
    let mut app = Frontend::new();
    app.start_flash();
    app.start_backup();
    assert!(app.flash_worker.is_some());
    assert!(app.backup_worker.is_none());
    assert_eq!(
        app.core.backup_tab().operation().status_text(),
        "Device is busy with another operation!"
    );
    drop(app.remote(TabId::Flash));
    app.update(Message::Tick);
    app.update(Message::StartBackup(Some(file_uri("/tmp/backup"))));
    assert!(app.backup_worker.is_some());
    assert_eq!(*app.core.backup_tab().operation().status(), Status::Running);
}

#[test]
fn a_worker_gets_the_path_it_expects() {
    let mut core = Frontend::new().core;
    let device = core.flash_tab().devices()[0].clone();
    let target = core.flash_tab().targets()[0].clone();
    core.update(Message::Flash(FlashMessage::DeviceSelected(device)));
    core.update(Message::Flash(FlashMessage::TargetSelected(target.clone())));
    core.update(Message::FilePath(TabId::Flash, Some(file_uri("/tmp/fw.bin"))));
    match core.update(Message::Flash(FlashMessage::FlashPressed)) {
        Action::StartFlash { target: model, order } => {
            assert_eq!(model, target);
            assert_eq!(order.target, "COM3");
            assert_eq!(order.path, "/tmp/fw.bin");
        }
        other => panic!("no worker was asked for: {:?}", other),
    }
}
