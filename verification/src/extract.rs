//! The reward extractor: from the raw answer of the node for one epoch to the
//! records that epoch contributes.

use vstd::prelude::*;
use crate::decimal::{decimal_parses, parses_as_decimal};
use crate::error::CrawlError;
use crate::masp::{is_digit_string, Amount, Id, IdView, MaspRewardData, MaspRewardDataView};

verus! {

/// The coefficients of one token as the node reports them: all text.
#[derive(Debug)]
pub struct RawRewardEntry {
    pub token: String,
    pub max_reward_rate: String,
    pub kp_gain: String,
    pub kd_gain: String,
    pub locked_amount_target: String,
}

/// The mathematical value of a [`RawRewardEntry`].
pub struct RawRewardEntryView {
    pub token: Seq<char>,
    pub max_reward_rate: Seq<char>,
    pub kp_gain: Seq<char>,
    pub kd_gain: Seq<char>,
    pub locked_amount_target: Seq<char>,
}

impl DeepView for RawRewardEntry {
    type V = RawRewardEntryView;

    open spec fn deep_view(&self) -> RawRewardEntryView {
        RawRewardEntryView {
            token: self.token@,
            max_reward_rate: self.max_reward_rate@,
            kp_gain: self.kp_gain@,
            kd_gain: self.kd_gain@,
            locked_amount_target: self.locked_amount_target@,
        }
    }
}

/// What the node answers for one epoch: one entry per active token.
#[derive(Debug)]
pub struct RawRewardSnapshot {
    pub entries: Vec<RawRewardEntry>,
}

impl DeepView for RawRewardSnapshot {
    type V = Seq<RawRewardEntryView>;

    open spec fn deep_view(&self) -> Seq<RawRewardEntryView> {
        self.entries.deep_view()
    }
}

/// The three coefficients of the entry read as exact decimals.
pub open spec fn coefficients_parse(entry: RawRewardEntryView) -> bool {
    &&& decimal_parses(entry.max_reward_rate)
    &&& decimal_parses(entry.kp_gain)
    &&& decimal_parses(entry.kd_gain)
}

/// Every numeric field of the entry is numeric: the coefficients read as
/// exact decimals and the amount is a run of digits.
pub open spec fn entry_is_numeric(entry: RawRewardEntryView) -> bool {
    coefficients_parse(entry) && is_digit_string(entry.locked_amount_target)
}

/// The record an entry becomes: its token as an account, its text verbatim.
pub open spec fn record_of_entry(entry: RawRewardEntryView) -> MaspRewardDataView {
    MaspRewardDataView {
        address: IdView::Account(entry.token),
        max_reward_rate: entry.max_reward_rate,
        kp_gain: entry.kp_gain,
        kd_gain: entry.kd_gain,
        locked_amount_target: entry.locked_amount_target,
    }
}

/// Every entry of the snapshot is numeric.
pub open spec fn snapshot_is_numeric(entries: Seq<RawRewardEntryView>) -> bool {
    forall|i: int| 0 <= i < entries.len() ==> entry_is_numeric(#[trigger] entries[i])
}

/// The records of a snapshot: one per entry, in the order of the entries.
pub open spec fn records_of(entries: Seq<RawRewardEntryView>) -> Seq<MaspRewardDataView> {
    Seq::new(entries.len(), |i: int| record_of_entry(entries[i]))
}

/// What extraction answers for a snapshot.
pub open spec fn extraction(entries: Seq<RawRewardEntryView>) -> Result<
    Seq<MaspRewardDataView>,
    CrawlError,
> {
    if snapshot_is_numeric(entries) {
        Ok(records_of(entries))
    } else {
        Err(CrawlError::MalformedData)
    }
}

/// Builds the record of one entry, given what the decimal reader said of its
/// three coefficients. The entry is refused as malformed unless the reader
/// accepted all three and the amount is a run of digits.
pub fn record_from_entry(entry: RawRewardEntry, coefficients_ok: bool) -> (res: Result<
    MaspRewardData,
    CrawlError,
>)
    ensures
        match res {
            Ok(record) => coefficients_ok && is_digit_string(entry.locked_amount_target@)
                && record.deep_view() == record_of_entry(entry.deep_view()),
            Err(e) => e == CrawlError::MalformedData && !(coefficients_ok && is_digit_string(
                entry.locked_amount_target@,
            )),
        },
{
    if !coefficients_ok {
        return Err(CrawlError::MalformedData);
    }
    match Amount::parse(entry.locked_amount_target.as_str()) {
        Some(amount) => Ok(
            MaspRewardData {
                address: Id::Account(entry.token),
                max_reward_rate: entry.max_reward_rate,
                kp_gain: entry.kp_gain,
                kd_gain: entry.kd_gain,
                locked_amount_target: amount,
            },
        ),
        None => Err(CrawlError::MalformedData),
    }
}

/// Asks the decimal reader about the three coefficients of an entry.
pub fn check_coefficients(entry: &RawRewardEntry) -> (ok: bool)
    ensures
        ok == coefficients_parse(entry.deep_view()),
{
    parses_as_decimal(entry.max_reward_rate.as_str()) && parses_as_decimal(entry.kp_gain.as_str())
        && parses_as_decimal(entry.kd_gain.as_str())
}

/// Extracts the records of one epoch from the raw answer of the node.
///
/// The answer is the records of all entries, in order, where every entry is
/// numeric, and `MalformedData` where one is not. A snapshot without entries
/// gives no records, which is no error.
pub fn extract(raw: RawRewardSnapshot) -> (res: Result<Vec<MaspRewardData>, CrawlError>)
    ensures
        match res {
            Ok(records) => extraction(raw.deep_view()) == Ok::<
                Seq<MaspRewardDataView>,
                CrawlError,
            >(records.deep_view()),
            Err(e) => extraction(raw.deep_view()) == Err::<Seq<MaspRewardDataView>, CrawlError>(e),
        },
{
    let ghost entries = raw.deep_view();
    let ghost raw_entries = raw.entries@;
    let mut records: Vec<MaspRewardData> = Vec::new();
    for entry in it: raw.entries
        invariant
            it.seq() == raw_entries,
            entries == raw.deep_view(),
            entries.len() == raw_entries.len(),
            forall|j: int|
                0 <= j < raw_entries.len() ==> entries[j] == (#[trigger] raw_entries[j]).deep_view(),
            records.len() == it.index(),
            forall|j: int| 0 <= j < it.index() ==> entry_is_numeric(#[trigger] entries[j]),
            forall|j: int|
                0 <= j < it.index() ==> (#[trigger] records[j]).deep_view() == record_of_entry(
                    entries[j],
                ),
    {
        let ok = check_coefficients(&entry);
        match record_from_entry(entry, ok) {
            Ok(record) => {
                records.push(record);
            },
            Err(e) => {
                assert(!entry_is_numeric(entries[it.index() as int]));
                return Err(e);
            },
        }
    }
    assert(records.deep_view() =~= records_of(entries));
    Ok(records)
}

} // verus!
