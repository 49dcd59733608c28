use std::io;
use usb_disk_probe::stream::{next_action, open_outcome, Action, EntryName, Error, Event};

/// Pulls items the way the stream does, feeding it one read at a time.
fn drain(events: Vec<Event>) -> Vec<Result<String, Error>> {
    let mut out = Vec::new();
    for event in events {
        match next_action(event) {
            Action::Wait | Action::Skip => {}
            Action::Yield(item) => out.push(item),
            Action::End => break,
        }
    }
    out
}

fn text(name: &str) -> Event {
    Event::Entry(EntryName::Text(name.to_string()))
}

#[test]
fn directory_yields_each_usb_disk_name() {
    let items = drain(vec![
        text("pci-0000:00:14.0-usb-0:1:1.0-scsi-0:0:0:0"),
        text("pci-0000:00:14.0-usb-0:1:1.0-0:0:0:0"),
        text("ata-WDC_WD10"),
        Event::Exhausted,
    ]);
    assert_eq!(items.len(), 2);
    let paths: Vec<String> = items.into_iter().map(|i| i.unwrap()).collect();
    assert_eq!(paths[0], "/dev/disk/by-path/pci-0000:00:14.0-usb-0:1:1.0-scsi-0:0:0:0");
    assert_eq!(paths[1], "/dev/disk/by-path/pci-0000:00:14.0-usb-0:1:1.0-0:0:0:0");
}

#[test]
fn empty_directory_yields_nothing() {
    assert!(matches!(next_action(Event::Exhausted), Action::End));
    assert!(drain(vec![Event::Exhausted]).is_empty());
}

#[test]
fn non_utf8_entry_yields_one_error_and_continues() {
    let items = drain(vec![
        Event::Entry(EntryName::NotUtf8),
        text("pci--usb--0:0:0:0"),
        Event::Exhausted,
    ]);
    assert_eq!(items.len(), 2);
    assert!(matches!(items[0], Err(Error::DevicePathNotUtf8)));
    assert!(matches!(&items[1], Ok(p) if p == "/dev/disk/by-path/pci--usb--0:0:0:0"));
}

#[test]
fn missing_file_name_yields_error() {
    let items = drain(vec![Event::Entry(EntryName::Missing), Event::Exhausted]);
    assert_eq!(items.len(), 1);
    assert!(matches!(items[0], Err(Error::DeviceWithoutFileName)));
}

#[test]
fn pending_read_waits() {
    assert!(matches!(next_action(Event::Pending), Action::Wait));
}

#[test]
fn non_matching_entry_is_skipped() {
    assert!(matches!(next_action(text("ata-WDC_WD10")), Action::Skip));
}

#[test]
fn failed_read_yields_iteration_error() {
    let e = io::Error::new(io::ErrorKind::PermissionDenied, "denied");
    match next_action(Event::Failed(e)) {
        Action::Yield(Err(Error::Iteration(cause))) => {
            assert_eq!(cause.kind(), io::ErrorKind::PermissionDenied)
        }
        _ => panic!("expected an iteration error"),
    }
}

#[test]
fn unopenable_directory_fails_with_open() {
    let r: Result<u8, io::Error> = Err(io::Error::new(io::ErrorKind::NotFound, "missing"));
    match open_outcome(r) {
        Err(Error::Open(cause)) => assert_eq!(cause.kind(), io::ErrorKind::NotFound),
        _ => panic!("expected an open error"),
    }
}

#[test]
fn opened_directory_is_passed_through() {
    let r: Result<u8, io::Error> = Ok(7);
    assert!(matches!(open_outcome(r), Ok(7)));
}
