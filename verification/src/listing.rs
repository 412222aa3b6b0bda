use vstd::prelude::*;

use crate::device::DeviceEntry;
use crate::device::DeviceInfo;

verus! {

/// One line of list-mode output: the device's position in the provider's
/// enumeration and its vendor and model names, with "Unknown" standing in
/// for a name the device does not report.
#[derive(Debug)]
pub struct ListEntry {
    pub index: usize,
    pub vendor: String,
    pub model: String,
}

/// The mathematical content of a `ListEntry`.
pub struct ListEntryModel {
    pub index: int,
    pub vendor: Seq<char>,
    pub model: Seq<char>,
}

impl View for ListEntry {
    type V = ListEntryModel;

    open spec fn view(&self) -> ListEntryModel {
        ListEntryModel { index: self.index as int, vendor: self.vendor@, model: self.model@ }
    }
}

/// A reported name, or "Unknown" when the device does not carry one.
pub open spec fn name_or_unknown(name: Option<String>) -> Seq<char> {
    match name {
        Some(s) => s@,
        None => "Unknown"@,
    }
}

/// The list line a readable device at position `index` contributes.
pub open spec fn entry_model(index: int, d: DeviceInfo) -> ListEntryModel {
    ListEntryModel {
        index: index,
        vendor: name_or_unknown(d.vendor),
        model: name_or_unknown(d.model),
    }
}

/// The whole list-mode output for an enumeration: one line per readable
/// device, in enumeration order, indexed by the device's position in the
/// full enumeration (so a broken slot still advances the index), with
/// unreadable slots skipped.
pub open spec fn spec_list(entries: Seq<DeviceEntry>) -> Seq<ListEntryModel>
    decreases entries.len(),
{
    if entries.len() == 0 {
        Seq::<ListEntryModel>::empty()
    } else {
        let prefix = spec_list(entries.drop_last());
        match entries.last() {
            DeviceEntry::Readable(d) => prefix.push(entry_model(entries.len() - 1, d)),
            DeviceEntry::Unreadable(_) => prefix,
        }
    }
}

/// Compute the list-mode output for an enumeration.
pub fn list_entries(entries: &Vec<DeviceEntry>) -> (r: Vec<ListEntry>)
    ensures
        r@.map_values(|e: ListEntry| e@) == spec_list(entries@),
{
    let mut out: Vec<ListEntry> = Vec::new();
    let mut i: usize = 0;
    while i < entries.len()
        invariant
            i <= entries.len(),
            out@.map_values(|e: ListEntry| e@) == spec_list(entries@.take(i as int)),
        decreases entries.len() - i,
    {
        match &entries[i] {
            DeviceEntry::Readable(d) => {
                let vendor = match &d.vendor {
                    Some(s) => s.clone(),
                    None => String::from_str("Unknown"),
                };
                let model = match &d.model {
                    Some(s) => s.clone(),
                    None => String::from_str("Unknown"),
                };
                out.push(ListEntry { index: i, vendor, model });
            },
            DeviceEntry::Unreadable(_) => {},
        }
        proof {
            assert(entries@.take(i + 1 as int).drop_last() =~= entries@.take(i as int));
            assert(out@.map_values(|e: ListEntry| e@) =~= spec_list(entries@.take(i + 1 as int)));
        }
        i = i + 1;
    }
    proof {
        assert(entries@.take(entries@.len() as int) =~= entries@);
    }
    out
}

} // verus!
