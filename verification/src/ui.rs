//! The data that a front end shows: a list model and its rows.

use vstd::prelude::*;
use crate::device_manager::{hex4, hex4_text, DiscoveredDevice};

verus! {

/// A list model over a vector: rows are read by index.
pub struct VecModel<T>(pub Vec<T>);

impl<T: Clone> VecModel<T> {
    /// The model of the given rows.
    pub fn from(rows: Vec<T>) -> (model: VecModel<T>)
        ensures
            model.0 == rows,
    {
        VecModel(rows)
    }

    /// The number of rows.
    pub fn len(&self) -> (count: usize)
        ensures
            count == self.0@.len(),
    {
        self.0.len()
    }

    /// A copy of the row at `index`, if there is one.
    pub fn row_data(&self, index: usize) -> (row: Option<T>)
        ensures
            row is Some == (index < self.0@.len()),
            row matches Some(copy) ==> cloned(self.0@[index as int], copy),
    {
        if index < self.0.len() {
            Some(self.0[index].clone())
        } else {
            None
        }
    }
}

/// A row of the device list, every field as the text to show.
#[derive(Debug, Clone, Default)]
pub struct Device {
    pub id: String,
    pub display: String,
    pub transport: String,
    pub product: String,
    pub manufacturer: String,
    /// USB vendor id as four hexadecimal digits, or empty.
    pub vid: String,
    /// USB product id as four hexadecimal digits, or empty.
    pub pid: String,
}

/// The text shown for an optional text: the text, or nothing.
pub open spec fn shown_text(value: Option<String>) -> Seq<char> {
    match value {
        Some(text) => text@,
        None => Seq::<char>::empty(),
    }
}

/// The text shown for an optional id: four hexadecimal digits, or nothing.
pub open spec fn shown_id(value: Option<u16>) -> Seq<char> {
    match value {
        Some(id) => hex4_text(id),
        None => Seq::<char>::empty(),
    }
}

fn text_or_empty(value: Option<String>) -> (text: String)
    ensures
        text@ == shown_text(value),
{
    match value {
        Some(text) => text,
        None => String::new(),
    }
}

fn id_or_empty(value: Option<u16>) -> (text: String)
    ensures
        text@ == shown_id(value),
{
    match value {
        Some(id) => hex4(id),
        None => String::new(),
    }
}

impl Device {
    /// The row that shows a discovered device.
    pub fn from_discovered(device: DiscoveredDevice) -> (row: Device)
        ensures
            row.id@ == device.id@,
            row.display@ == device.display@,
            row.transport@ == device.transport@,
            row.product@ == shown_text(device.product),
            row.manufacturer@ == shown_text(device.manufacturer),
            row.vid@ == shown_id(device.vid),
            row.pid@ == shown_id(device.pid),
    {
        Device {
            id: device.id,
            display: device.display,
            transport: device.transport,
            product: text_or_empty(device.product),
            manufacturer: text_or_empty(device.manufacturer),
            vid: id_or_empty(device.vid),
            pid: id_or_empty(device.pid),
        }
    }
}

} // verus!
