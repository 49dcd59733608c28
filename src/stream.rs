//! Classification of by-path entries and the decisions of the probe stream.
//!
//! The directory reads themselves happen outside this module: each read is
//! handed in as an [`Event`], and [`next_action`] says what the stream does
//! with it.
use vstd::prelude::*;
use crate::text::{chars_of, contains, ends_with, has_infix, has_prefix, has_suffix, starts_with};
use crate::DISK_DIR;

verus! {

/// `std::io::Error`, carried through unopened as the cause of an I/O failure.
#[verifier::external_type_specification]
#[verifier::external_body]
pub struct ExIoError(std::io::Error);

/// Everything that can go wrong while probing.
#[derive(Debug)]
pub enum Error {
    /// The by-path directory could not be opened for reading.
    Open(std::io::Error),
    /// Reading the next directory entry failed.
    Iteration(std::io::Error),
    /// An entry's path has no final name component.
    DeviceWithoutFileName,
    /// An entry's file name is not valid UTF-8.
    DevicePathNotUtf8,
}

/// The file name of one directory entry, as far as the probe reads it.
pub enum EntryName {
    /// The entry's path has no final component.
    Missing,
    /// The final component is not valid UTF-8.
    NotUtf8,
    /// The final component, as text.
    Text(String),
}

/// What one read of the directory produced.
pub enum Event {
    /// The read has not completed yet.
    Pending,
    /// The next entry.
    Entry(EntryName),
    /// No entries are left.
    Exhausted,
    /// The read failed.
    Failed(std::io::Error),
}

/// What the stream does after one read of the directory.
pub enum Action {
    /// Suspend until the read can make progress.
    Wait,
    /// Drop the entry and read the next one without yielding.
    Skip,
    /// Hand this item to the consumer.
    Yield(Result<String, Error>),
    /// The sequence is over.
    End,
}

/// Start of the name of a disk attached through a PCI bus.
pub const USB_PREFIX: &'static str = "pci-";

/// Marks a USB hop in the bus path.
pub const USB_INFIX: &'static str = "-usb-";

/// End of the name of a whole disk (first target, first LUN).
pub const USB_SUFFIX: &'static str = "-0:0:0:0";

/// The by-path name of a USB-attached disk.
pub open spec fn usb_name(name: Seq<char>) -> bool {
    &&& has_prefix(name, USB_PREFIX@)
    &&& has_infix(name, USB_INFIX@)
    &&& has_suffix(name, USB_SUFFIX@)
}

/// `r` is what probing an entry named `name` yields: `None` for an entry
/// that is passed over, else the one item that stands for it.
pub open spec fn classified(name: EntryName, r: Option<Result<String, Error>>) -> bool {
    match name {
        EntryName::Missing => r == Some(Err::<String, Error>(Error::DeviceWithoutFileName)),
        EntryName::NotUtf8 => r == Some(Err::<String, Error>(Error::DevicePathNotUtf8)),
        EntryName::Text(s) => if usb_name(s@) {
            r matches Some(Ok(p)) && p@ == DISK_DIR@ + s@
        } else {
            r is None
        },
    }
}

/// The item that an action hands to the consumer, if any.
pub open spec fn yielded(a: Action) -> Option<Result<String, Error>> {
    match a {
        Action::Yield(item) => Some(item),
        _ => None,
    }
}

/// An item with its path taken as text.
pub open spec fn item_view(r: Option<Result<String, Error>>) -> Option<Result<Seq<char>, Error>> {
    match r {
        Some(Ok(p)) => Some(Ok(p@)),
        Some(Err(e)) => Some(Err(e)),
        None => None,
    }
}

/// Whether `filename` names a USB-attached disk: it begins with `pci-`,
/// contains `-usb-` and ends with `-0:0:0:0`.
pub fn is_usb(filename: &str) -> (r: bool)
    ensures
        r == usb_name(filename@),
{
    let name = chars_of(filename);
    starts_with(&name, &chars_of(USB_PREFIX)) && contains(&name, &chars_of(USB_INFIX)) && ends_with(
        &name,
        &chars_of(USB_SUFFIX),
    )
}

/// The path of the by-path entry named `filename`.
pub fn device_path(filename: &str) -> (r: String)
    ensures
        r@ == DISK_DIR@ + filename@,
{
    String::from_str(DISK_DIR).concat(filename)
}

/// What probing one directory entry yields: its path when it names a USB
/// disk, an error when it has no usable name, and nothing otherwise.
pub fn filter_device(name: EntryName) -> (r: Option<Result<String, Error>>)
    ensures
        classified(name, r),
{
    match name {
        EntryName::Missing => Some(Err(Error::DeviceWithoutFileName)),
        EntryName::NotUtf8 => Some(Err(Error::DevicePathNotUtf8)),
        EntryName::Text(s) => {
            if is_usb(s.as_str()) {
                Some(Ok(device_path(s.as_str())))
            } else {
                None
            }
        },
    }
}

/// The stream's decision on one read of the directory. A matching entry, a
/// malformed entry and a failed read each give one item; an entry that does
/// not match is skipped, and the stream goes on reading. No item ends the
/// stream: after an error item the next pull reads on, so one bad entry does
/// not hide the disks listed after it.
pub fn next_action(event: Event) -> (r: Action)
    ensures
        match event {
            Event::Pending => r is Wait,
            Event::Exhausted => r is End,
            Event::Failed(e) => r == Action::Yield(Err(Error::Iteration(e))),
            Event::Entry(name) => (r is Skip || r is Yield) && classified(name, yielded(r)),
        },
{
    match event {
        Event::Pending => Action::Wait,
        Event::Exhausted => Action::End,
        Event::Failed(e) => Action::Yield(Err(Error::Iteration(e))),
        Event::Entry(name) => match filter_device(name) {
            Some(item) => Action::Yield(item),
            None => Action::Skip,
        },
    }
}

/// The outcome of opening the by-path directory: the open handle, or the
/// cause of the failure as [`Error::Open`].
pub fn open_outcome<D>(r: Result<D, std::io::Error>) -> (o: Result<D, Error>)
    ensures
        match r {
            Ok(d) => o == Ok::<D, Error>(d),
            Err(e) => o == Err::<D, Error>(Error::Open(e)),
        },
{
    match r {
        Ok(d) => Ok(d),
        Err(e) => Err(Error::Open(e)),
    }
}

/// Probing the same entry twice gives the same outcome: the classification
/// depends on the entry's name alone.
pub proof fn lemma_classification_deterministic(
    name: EntryName,
    r1: Option<Result<String, Error>>,
    r2: Option<Result<String, Error>>,
)
    requires
        classified(name, r1),
        classified(name, r2),
    ensures
        item_view(r1) == item_view(r2),
{
}

} // verus!
