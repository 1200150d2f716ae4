use openrtx_companion::action::{Action, TabId};
use openrtx_companion::backup::{get_ports, BackupMessage, BackupTab, PortRecord, SerialPort};
use openrtx_companion::companion::{Icon, Message, OpenRTXCompanion, TICK_MILLIS};
use openrtx_companion::flash::{DeviceInfo, FlashMessage, FlashTab, RadioHW, Target};
use openrtx_companion::operation::{
    LaunchOrder, OperationKind, OperationState, Status, WorkerNews,
};
use openrtx_companion::progress::Sample;

fn port(name: &str) -> SerialPort {
    SerialPort::new(String::from(name), String::from("FTDI"), String::from("RS232"))
}

fn device(index: usize, port: &str) -> DeviceInfo {
    DeviceInfo {
        index,
        manufacturer: String::from("TYT"),
        model: String::from("MD-UV380"),
        port: String::from(port),
    }
}

fn samples(list: &[(usize, usize)]) -> WorkerNews {
    WorkerNews {
        samples: list.iter().map(|&(transferred, total)| Sample { transferred, total }).collect(),
        failure: None,
        gone: false,
    }
}

fn closed() -> WorkerNews {
    WorkerNews { samples: Vec::new(), failure: None, gone: true }
}

fn failed(detail: &str) -> WorkerNews {
    WorkerNews { samples: Vec::new(), failure: Some(String::from(detail)), gone: true }
}

fn target(index: usize, name: &str) -> Target {
    Target { index, name: String::from(name) }
}

fn companion() -> OpenRTXCompanion {
    OpenRTXCompanion::new(
        vec![device(0, "COM3"), device(1, "COM5")],
        vec![target(0, "MD-UV380"), target(1, "T-TWR Plus")],
        vec![port("COM3"), port("COM4")],
    )
}

fn flashing(app: &mut OpenRTXCompanion, port: &str) -> Action {
    app.update(Message::Flash(FlashMessage::DeviceSelected(device(0, port))));
    app.update(Message::Flash(FlashMessage::TargetSelected(target(0, "MD-UV380"))));
    app.update(Message::FilePath(TabId::Flash, Some(String::from("file:///fw.bin"))));
    app.update(Message::Flash(FlashMessage::FlashPressed))
}

fn backing_up(app: &mut OpenRTXCompanion, name: &str) -> Action {
    app.update(Message::Backup(BackupMessage::PortSelected(port(name))));
    app.update(Message::StartBackup(Some(String::from("file:///backups"))))
}

#[test]
fn radio_families_are_listed_in_order() {
    assert_eq!(RadioHW::all(), [RadioHW::Md3x0, RadioHW::Mduv3x0, RadioHW::Twrplus]);
}

#[test]
fn radio_family_labels() {
    assert_eq!(RadioHW::Md3x0.label(), "MD3x0");
    assert_eq!(RadioHW::Mduv3x0.label(), "MD-UV3x0");
    assert_eq!(RadioHW::Twrplus.label(), "T-TWR Plus");
    assert_eq!(String::from(RadioHW::Md3x0), "MD3x0");
    assert_eq!(String::from(RadioHW::Mduv3x0), "MD-UV3x0");
    assert_eq!(String::from(RadioHW::Twrplus), "T-TWR Plus");
}

#[test]
fn the_tick_comes_every_half_second() {
    assert_eq!(TICK_MILLIS, 500);
}

#[test]
fn the_application_opens_on_the_flash_tab() {
    let app = companion();
    assert_eq!(app.active_tab(), TabId::Flash);
    assert_eq!(TabId::default(), TabId::Flash);
    assert_eq!(app.title(), "OpenRTX Companion");
    assert_eq!(app.flash_tab().title(), "Flash");
    assert_eq!(app.backup_tab().title(), "Backup");
    assert_eq!(*app.flash_tab().operation().status(), Status::Idle);
    assert_eq!(*app.backup_tab().operation().status(), Status::Idle);
    assert_eq!(app.flash_tab().operation().kind(), OperationKind::Flash);
    assert_eq!(app.backup_tab().operation().kind(), OperationKind::Backup);
    assert_eq!(app.flash_tab().operation().status_text(), "Select an action");
    assert_eq!(app.backup_tab().operation().status_text(), "Select an action");
    assert_eq!(app.flash_tab().devices().len(), 2);
    assert_eq!(app.flash_tab().targets().len(), 2);
    assert_eq!(app.flash_tab().selected_model(), None);
    assert_eq!(app.flash_tab().selected_device(), None);
    assert_eq!(app.flash_tab().selected_target(), None);
    assert!(app.backup_tab().serial_port().is_none());
    assert_eq!(app.backup_tab().restore_file(), None);
}

#[test]
fn ports_come_from_records_in_order() {
    let records = vec![
        PortRecord {
            name: String::from("/dev/ttyUSB0"),
            vendor: Some(String::from("FTDI")),
            product: Some(String::from("Dual RS232-HS:00")),
        },
        PortRecord { name: String::from("/dev/ttyS0"), vendor: None, product: None },
        PortRecord {
            name: String::from("COM4"),
            vendor: None,
            product: Some(String::from("USB-SERIAL CH340")),
        },
    ];
    let ports = get_ports(&records);
    assert_eq!(ports.len(), 3);
    assert_eq!(ports[0].name(), "/dev/ttyUSB0");
    assert_eq!(ports[0].vendor(), "FTDI");
    assert_eq!(ports[0].product(), "Dual RS232-HS:00");
    assert_eq!(ports[1].name(), "/dev/ttyS0");
    assert_eq!(ports[1].vendor(), "");
    assert_eq!(ports[1].product(), "");
    assert_eq!(ports[2].name(), "COM4");
    assert_eq!(ports[2].vendor(), "");
    assert_eq!(ports[2].product(), "USB-SERIAL CH340");
    assert!(get_ports(&Vec::new()).is_empty());
}

#[test]
fn a_port_is_labelled_by_its_name() {
    assert_eq!(port("COM7").label(), "COM7");
    let record = PortRecord { name: String::from("COM8"), vendor: None, product: None };
    assert_eq!(SerialPort::from_record(&record).label(), "COM8");
    let copy = port("COM7").clone();
    assert_eq!(copy.name(), "COM7");
    assert_eq!(copy.vendor(), "FTDI");
    assert_eq!(copy.product(), "RS232");
}

#[test]
fn an_empty_port_list_shows_a_placeholder() {
    let tab = BackupTab::new(Vec::new());
    assert_eq!(tab.serial_ports().len(), 1);
    assert_eq!(tab.serial_ports()[0].name(), "No serial port found!");
    assert_eq!(tab.serial_ports()[0].vendor(), "");
    assert_eq!(tab.serial_ports()[0].product(), "");
    assert_eq!(SerialPort::placeholder().label(), "No serial port found!");
}

#[test]
fn found_ports_are_listed_as_they_are() {
    let tab = BackupTab::new(vec![port("COM3"), port("COM4")]);
    assert_eq!(tab.serial_ports().len(), 2);
    assert_eq!(tab.serial_ports()[0].name(), "COM3");
    assert_eq!(tab.serial_ports()[1].name(), "COM4");
}

#[test]
fn backup_button_asks_for_a_folder() {
    let mut tab = BackupTab::new(vec![port("COM3")]);
    let peer = OperationState::new(OperationKind::Flash);
    assert_eq!(tab.update(BackupMessage::BackupPressed, &peer), Action::PickFolder(TabId::Backup));
    assert_eq!(*tab.operation().status(), Status::Idle);
    assert_eq!(tab.operation().progress().percent(), 0);
}

#[test]
fn restore_buttons() {
    let mut tab = BackupTab::new(vec![port("COM3")]);
    let peer = OperationState::new(OperationKind::Flash);
    assert_eq!(tab.update(BackupMessage::RestorePressed, &peer), Action::Nothing);
    assert_eq!(
        tab.update(BackupMessage::OpenRestoreFilePressed, &peer),
        Action::PickFile(TabId::Backup)
    );
    assert_eq!(
        tab.update(BackupMessage::RestoreFileSelected(Some(String::from("file:///b.bin"))), &peer),
        Action::Nothing
    );
    assert_eq!(tab.restore_file(), Some(&String::from("file:///b.bin")));
    assert_eq!(tab.update(BackupMessage::RestoreFileSelected(None), &peer), Action::Nothing);
    assert_eq!(tab.restore_file(), None);
    assert_eq!(
        tab.update(BackupMessage::FilePath(Some(String::from("file:///x"))), &peer),
        Action::Nothing
    );
    assert_eq!(tab.restore_file(), None);
    assert_eq!(tab.operation().selected_path(), None);
}

#[test]
fn selecting_a_port_selects_the_target() {
    let mut tab = BackupTab::new(vec![port("COM3")]);
    let peer = OperationState::new(OperationKind::Flash);
    assert_eq!(tab.update(BackupMessage::PortSelected(port("COM3")), &peer), Action::Nothing);
    assert_eq!(tab.serial_port().unwrap().name(), "COM3");
    assert_eq!(tab.operation().selected_target(), Some(&String::from("COM3")));
}

#[test]
fn backup_starts_once_port_and_folder_are_known() {
    let mut tab = BackupTab::new(vec![port("COM3")]);
    let peer = OperationState::new(OperationKind::Flash);
    tab.update(BackupMessage::PortSelected(port("COM3")), &peer);
    let action = tab.update(BackupMessage::StartBackup(Some(String::from("/tmp/backup"))), &peer);
    assert_eq!(
        action,
        Action::StartBackup(LaunchOrder {
            kind: OperationKind::Backup,
            target: String::from("COM3"),
            path: String::from("/tmp/backup"),
        })
    );
    assert!(action.spawns_worker());
    assert_eq!(*tab.operation().status(), Status::Running);
    assert_eq!(tab.operation().progress().percent(), 0);
    assert_eq!(tab.operation().status_text(), "Starting\u{2026}");
}

#[test]
fn backup_without_port_spawns_nothing() {
    let mut tab = BackupTab::new(Vec::new());
    let peer = OperationState::new(OperationKind::Flash);
    let action = tab.update(BackupMessage::StartBackup(Some(String::from("/tmp/backup"))), &peer);
    assert_eq!(action, Action::Nothing);
    assert!(!action.spawns_worker());
    assert_eq!(*tab.operation().status(), Status::Idle);
    assert_eq!(tab.operation().status_text(), "No target selected!");
    assert_eq!(tab.operation().selected_path(), Some(&String::from("/tmp/backup")));
}

#[test]
fn a_cancelled_folder_pick_is_no_error() {
    let mut tab = BackupTab::new(vec![port("COM3")]);
    let peer = OperationState::new(OperationKind::Flash);
    tab.update(BackupMessage::PortSelected(port("COM3")), &peer);
    assert_eq!(tab.update(BackupMessage::StartBackup(None), &peer), Action::Nothing);
    assert_eq!(*tab.operation().status(), Status::Idle);
    assert_eq!(tab.operation().status_text(), "Select an action");
    assert_eq!(tab.operation().selected_path(), None);
}

#[test]
fn a_running_backup_keeps_its_port() {
    let mut tab = BackupTab::new(vec![port("COM3"), port("COM4")]);
    let peer = OperationState::new(OperationKind::Flash);
    tab.update(BackupMessage::PortSelected(port("COM3")), &peer);
    tab.update(BackupMessage::StartBackup(Some(String::from("/tmp/backup"))), &peer);
    tab.update(BackupMessage::PortSelected(port("COM4")), &peer);
    assert_eq!(tab.serial_port().unwrap().name(), "COM3");
    assert_eq!(tab.operation().selected_target(), Some(&String::from("COM3")));
    let again = tab.update(BackupMessage::StartBackup(Some(String::from("/elsewhere"))), &peer);
    assert_eq!(again, Action::Nothing);
    assert_eq!(tab.operation().selected_path(), Some(&String::from("/tmp/backup")));
    assert_eq!(*tab.operation().status(), Status::Running);
    assert_eq!(tab.operation().status_text(), "Starting\u{2026}");
}

#[test]
fn flash_tab_buttons() {
    let mut tab = FlashTab::new(vec![device(0, "COM3")], vec![target(0, "MD-UV380")]);
    let peer = OperationState::new(OperationKind::Backup);
    assert_eq!(tab.update(FlashMessage::OpenFWPressed, &peer), Action::PickFile(TabId::Flash));
    assert_eq!(
        tab.update(FlashMessage::OpenFile(Some(String::from("file:///x"))), &peer),
        Action::Nothing
    );
    assert_eq!(tab.operation().selected_path(), None);
    assert_eq!(tab.operation().status_text(), "Select an action");
}

#[test]
fn a_picked_image_is_announced() {
    let mut tab = FlashTab::new(vec![device(0, "COM3")], vec![target(0, "MD-UV380")]);
    let peer = OperationState::new(OperationKind::Backup);
    let action = tab.update(FlashMessage::FilePath(Some(String::from("file:///fw.bin"))), &peer);
    assert_eq!(action, Action::Nothing);
    assert_eq!(tab.operation().selected_path(), Some(&String::from("file:///fw.bin")));
    assert_eq!(tab.operation().status_text(), "Loaded firmware: file:///fw.bin");
}

#[test]
fn a_cancelled_image_pick_is_no_error() {
    let mut tab = FlashTab::new(vec![device(0, "COM3")], vec![target(0, "MD-UV380")]);
    let peer = OperationState::new(OperationKind::Backup);
    tab.update(FlashMessage::FilePath(Some(String::from("file:///fw.bin"))), &peer);
    assert_eq!(tab.update(FlashMessage::FilePath(None), &peer), Action::Nothing);
    assert_eq!(tab.operation().selected_path(), Some(&String::from("file:///fw.bin")));
    assert_eq!(tab.operation().status_text(), "Loaded firmware: file:///fw.bin");
}

#[test]
fn flash_without_target_spawns_nothing() {
    let mut tab = FlashTab::new(vec![device(0, "COM3")], vec![target(0, "MD-UV380")]);
    let peer = OperationState::new(OperationKind::Backup);
    let action = tab.update(FlashMessage::FlashPressed, &peer);
    assert_eq!(action, Action::Nothing);
    assert!(!action.spawns_worker());
    assert_eq!(*tab.operation().status(), Status::Idle);
    assert_eq!(tab.operation().progress().percent(), 0);
    assert_eq!(tab.operation().status_text(), "No target selected!");
}

#[test]
fn flash_needs_device_model_and_image() {
    let peer = OperationState::new(OperationKind::Backup);

    let mut tab = FlashTab::new(vec![device(0, "COM3")], vec![target(0, "MD-UV380")]);
    tab.update(FlashMessage::DeviceSelected(device(0, "COM3")), &peer);
    tab.update(FlashMessage::FilePath(Some(String::from("file:///fw.bin"))), &peer);
    assert_eq!(tab.update(FlashMessage::FlashPressed, &peer), Action::Nothing);
    assert_eq!(tab.operation().status_text(), "No target selected!");

    let mut tab = FlashTab::new(vec![device(0, "COM3")], vec![target(0, "MD-UV380")]);
    tab.update(FlashMessage::TargetSelected(target(0, "MD-UV380")), &peer);
    tab.update(FlashMessage::FilePath(Some(String::from("file:///fw.bin"))), &peer);
    assert_eq!(tab.update(FlashMessage::FlashPressed, &peer), Action::Nothing);
    assert_eq!(tab.operation().status_text(), "No target selected!");

    let mut tab = FlashTab::new(vec![device(0, "COM3")], vec![target(0, "MD-UV380")]);
    tab.update(FlashMessage::DeviceSelected(device(0, "COM3")), &peer);
    tab.update(FlashMessage::TargetSelected(target(0, "MD-UV380")), &peer);
    assert_eq!(tab.update(FlashMessage::FlashPressed, &peer), Action::Nothing);
    assert_eq!(tab.operation().status_text(), "No path selected!");
    assert_eq!(*tab.operation().status(), Status::Idle);
}

#[test]
fn flash_starts_with_the_selected_model_and_the_bare_path() {
    let mut tab = FlashTab::new(vec![device(0, "COM3")], vec![target(0, "MD-UV380")]);
    let peer = OperationState::new(OperationKind::Backup);
    tab.update(FlashMessage::DeviceSelected(device(0, "COM3")), &peer);
    tab.update(FlashMessage::TargetSelected(target(1, "T-TWR Plus")), &peer);
    tab.update(FlashMessage::FilePath(Some(String::from("file:///C:/fw.bin"))), &peer);
    let action = tab.update(FlashMessage::FlashPressed, &peer);
    assert_eq!(
        action,
        Action::StartFlash {
            target: target(1, "T-TWR Plus"),
            order: LaunchOrder {
                kind: OperationKind::Flash,
                target: String::from("COM3"),
                path: String::from("C:/fw.bin"),
            },
        }
    );
    assert!(action.spawns_worker());
    assert_eq!(*tab.operation().status(), Status::Running);
    assert_eq!(tab.operation().progress().percent(), 0);
    assert_eq!(tab.operation().status_text(), "Starting\u{2026}");
    assert_eq!(tab.selected_device(), Some(&device(0, "COM3")));
    assert_eq!(tab.selected_target(), Some(&target(1, "T-TWR Plus")));
}

#[test]
fn a_running_flash_keeps_its_selection() {
    let mut app = companion();
    assert!(flashing(&mut app, "COM3").spawns_worker());
    app.update(Message::Flash(FlashMessage::DeviceSelected(device(1, "COM5"))));
    app.update(Message::Flash(FlashMessage::TargetSelected(target(1, "T-TWR Plus"))));
    app.update(Message::FilePath(TabId::Flash, Some(String::from("file:///other.bin"))));
    let tab = app.flash_tab();
    assert_eq!(tab.selected_device(), Some(&device(0, "COM3")));
    assert_eq!(tab.selected_target(), Some(&target(0, "MD-UV380")));
    assert_eq!(tab.operation().selected_target(), Some(&String::from("COM3")));
    assert_eq!(tab.operation().selected_path(), Some(&String::from("file:///fw.bin")));
    assert_eq!(tab.operation().status_text(), "Starting\u{2026}");
    assert_eq!(app.update(Message::Flash(FlashMessage::FlashPressed)), Action::Nothing);
    assert_eq!(*app.flash_tab().operation().status(), Status::Running);
}

#[test]
fn switching_tabs_leaves_a_running_operation_alone() {
    let mut app = companion();
    assert!(flashing(&mut app, "COM3").spawns_worker());
    assert_eq!(app.update(Message::TabSelected(TabId::Backup)), Action::Nothing);
    assert_eq!(app.active_tab(), TabId::Backup);
    assert_eq!(*app.flash_tab().operation().status(), Status::Running);
    assert_eq!(app.flash_tab().operation().progress().percent(), 0);
    assert_eq!(app.flash_tab().operation().status_text(), "Starting\u{2026}");
    app.select_tab(TabId::Flash);
    assert_eq!(app.active_tab(), TabId::Flash);
    assert_eq!(*app.flash_tab().operation().status(), Status::Running);
    assert_eq!(*app.backup_tab().operation().status(), Status::Idle);
}

#[test]
fn a_file_path_goes_to_the_tab_that_asked() {
    let mut app = companion();
    assert_eq!(
        app.update(Message::Flash(FlashMessage::OpenFWPressed)),
        Action::PickFile(TabId::Flash)
    );
    app.update(Message::TabSelected(TabId::Backup));
    app.update(Message::FilePath(TabId::Flash, Some(String::from("file:///fw.bin"))));
    assert_eq!(
        app.flash_tab().operation().selected_path(),
        Some(&String::from("file:///fw.bin"))
    );
    assert_eq!(app.backup_tab().operation().selected_path(), None);
    assert_eq!(app.backup_tab().operation().status_text(), "Select an action");

    app.update(Message::TabSelected(TabId::Flash));
    app.update(Message::FilePath(TabId::Backup, Some(String::from("file:///restore.bin"))));
    assert_eq!(
        app.flash_tab().operation().selected_path(),
        Some(&String::from("file:///fw.bin"))
    );
    assert_eq!(app.flash_tab().operation().status_text(), "Loaded firmware: file:///fw.bin");
}

#[test]
fn backup_is_refused_while_flashing_holds_the_port() {
    let mut app = companion();
    assert!(flashing(&mut app, "COM3").spawns_worker());
    assert_eq!(backing_up(&mut app, "COM3"), Action::Nothing);
    assert_eq!(*app.backup_tab().operation().status(), Status::Idle);
    assert_eq!(app.backup_tab().operation().progress().percent(), 0);
    assert_eq!(
        app.backup_tab().operation().status_text(),
        "Device is busy with another operation!"
    );
    assert_eq!(*app.flash_tab().operation().status(), Status::Running);
    assert_eq!(app.flash_tab().operation().status_text(), "Starting\u{2026}");
    assert_eq!(app.flash_tab().operation().progress().percent(), 0);
}

#[test]
fn flashing_is_refused_while_a_backup_holds_the_port() {
    let mut app = companion();
    assert!(backing_up(&mut app, "COM3").spawns_worker());
    assert_eq!(flashing(&mut app, "COM3"), Action::Nothing);
    assert_eq!(*app.flash_tab().operation().status(), Status::Idle);
    assert_eq!(
        app.flash_tab().operation().status_text(),
        "Device is busy with another operation!"
    );
    assert_eq!(*app.backup_tab().operation().status(), Status::Running);
    assert_eq!(app.backup_tab().operation().status_text(), "Starting\u{2026}");
}

#[test]
fn both_tabs_run_on_different_ports() {
    let mut app = companion();
    assert!(flashing(&mut app, "COM3").spawns_worker());
    assert!(backing_up(&mut app, "COM4").spawns_worker());
    assert_eq!(*app.flash_tab().operation().status(), Status::Running);
    assert_eq!(*app.backup_tab().operation().status(), Status::Running);
}

#[test]
fn the_port_is_free_again_once_flashing_is_through() {
    let mut app = companion();
    assert!(flashing(&mut app, "COM3").spawns_worker());
    assert_eq!(backing_up(&mut app, "COM3"), Action::Nothing);
    assert_eq!(app.update(Message::Tick), Action::Nothing);
    assert_eq!(*app.flash_tab().operation().status(), Status::Running);
    assert_eq!(
        app.update(Message::StartBackup(Some(String::from("file:///backups")))),
        Action::Nothing
    );
    assert_eq!(*app.backup_tab().operation().status(), Status::Idle);

    assert_eq!(app.update(Message::Worker(TabId::Flash, closed())), Action::Nothing);
    assert_eq!(*app.flash_tab().operation().status(), Status::Running);
    assert_eq!(app.update(Message::Tick), Action::Nothing);
    assert_eq!(*app.flash_tab().operation().status(), Status::Complete);
    assert_eq!(app.flash_tab().operation().progress().percent(), 100);
    assert_eq!(app.flash_tab().operation().status_text(), "Flash complete!");
    let action = app.update(Message::StartBackup(Some(String::from("file:///backups"))));
    assert!(action.spawns_worker());
    assert_eq!(*app.backup_tab().operation().status(), Status::Running);
}

#[test]
fn worker_reports_reach_their_own_tab() {
    let mut app = companion();
    assert!(flashing(&mut app, "COM3").spawns_worker());
    assert!(backing_up(&mut app, "COM4").spawns_worker());
    assert_eq!(
        app.update(Message::Worker(TabId::Backup, samples(&[(50, 200)]))),
        Action::Nothing
    );
    assert_eq!(app.backup_tab().operation().progress().percent(), 0);
    app.update(Message::Tick);
    assert_eq!(app.backup_tab().operation().progress().percent(), 25);
    assert_eq!(app.backup_tab().operation().status_text(), "50/200");
    assert_eq!(app.flash_tab().operation().progress().percent(), 0);
    assert_eq!(app.flash_tab().operation().status_text(), "Starting\u{2026}");

    app.update(Message::Worker(TabId::Flash, failed("timeout")));
    app.update(Message::Worker(TabId::Backup, samples(&[(120, 200), (200, 200)])));
    app.update(Message::Worker(TabId::Backup, closed()));
    app.update(Message::Tick);
    assert_eq!(*app.flash_tab().operation().status(), Status::Failed(String::from("timeout")));
    assert_eq!(app.flash_tab().operation().status_text(), "Flash failed: timeout");
    assert_eq!(*app.backup_tab().operation().status(), Status::Complete);
    assert_eq!(app.backup_tab().operation().progress().percent(), 100);
    assert_eq!(app.backup_tab().operation().status_text(), "Backup complete!");
}

#[test]
fn a_tab_takes_worker_reports_directly() {
    let mut tab = BackupTab::new(vec![port("COM3")]);
    let peer = OperationState::new(OperationKind::Flash);
    tab.update(BackupMessage::PortSelected(port("COM3")), &peer);
    tab.update(BackupMessage::StartBackup(Some(String::from("/tmp/backup"))), &peer);
    tab.worker(samples(&[(1, 2)]));
    assert_eq!(tab.update(BackupMessage::Tick, &peer), Action::Nothing);
    assert_eq!(tab.operation().progress().percent(), 50);

    let mut flash = FlashTab::new(vec![device(0, "COM3")], vec![target(0, "MD-UV380")]);
    flash.worker(closed());
    flash.update(FlashMessage::Tick, &peer);
    assert_eq!(*flash.operation().status(), Status::Idle);
}

#[test]
fn icon_glyphs() {
    assert_eq!(char::from(Icon::User), '\u{E800}');
    assert_eq!(char::from(Icon::Heart), '\u{E801}');
    assert_eq!(char::from(Icon::Calc), '\u{F1EC}');
    assert_eq!(char::from(Icon::CogAlt), '\u{E802}');
}

#[test]
fn other_events_change_nothing() {
    let mut app = companion();
    assert_eq!(app.update(Message::Loaded(true)), Action::Nothing);
    assert_eq!(app.update(Message::FontLoaded(false)), Action::Nothing);
    assert_eq!(app.update(Message::TabClosed(TabId::Backup)), Action::Nothing);
    assert_eq!(app.update(Message::Tick), Action::Nothing);
    assert_eq!(app.active_tab(), TabId::Flash);
    assert_eq!(*app.flash_tab().operation().status(), Status::Idle);
    assert_eq!(*app.backup_tab().operation().status(), Status::Idle);
    assert_eq!(app.flash_tab().operation().status_text(), "Select an action");
}

#[test]
fn a_sample_value_is_plain_data() {
    let s = Sample { transferred: 5, total: 9 };
    let t = s;
    assert_eq!(s, t);
    assert_ne!(s, Sample { transferred: 9, total: 5 });
}

#[test]
fn a_port_prints_its_fields_for_debugging() {
    assert_eq!(
        format!("{:?}", port("COM7")),
        "SerialPort { name: \"COM7\", product: \"RS232\", vendor: \"FTDI\" }"
    );
}

#[test]
fn an_empty_device_list_shows_a_placeholder() {
    let tab = FlashTab::new(Vec::new(), vec![target(0, "MD-UV380")]);
    assert_eq!(tab.devices().len(), 1);
    assert_eq!(
        tab.devices()[0],
        DeviceInfo {
            index: 0,
            manufacturer: String::new(),
            model: String::from("No device found!"),
            port: String::new(),
        }
    );
    assert_eq!(DeviceInfo::placeholder(), tab.devices()[0]);
    assert_eq!(tab.selected_device(), None);
    assert_eq!(tab.targets().len(), 1);
}

#[test]
fn found_devices_are_listed_as_they_are() {
    let tab = FlashTab::new(vec![device(0, "COM3"), device(1, "COM5")], Vec::new());
    assert_eq!(tab.devices().len(), 2);
    assert_eq!(tab.devices()[0], device(0, "COM3"));
    assert_eq!(tab.devices()[1], device(1, "COM5"));
    assert!(tab.targets().is_empty());
}
