//! The entry adapter: from the fields an archive reader hands out to the
//! metadata model, with the fallbacks for unknown methods and timestamps.

use vstd::prelude::*;

use crate::meta::{Method, Zip, ZipFileMeta, ZipItemMeta, ZipMetaError};
use crate::table::{self, column_len, text_column_fits};
use crate::time::SysTime;

verus! {

/// An entry's last-modified time as the archive stores it: a local date and
/// time of day with no offset. Nothing guarantees that the fields form a
/// real date.
#[derive(Clone, Copy, Debug, PartialEq, Eq, Structural)]
pub struct DosDateTime {
    pub year: u16,
    pub month: u8,
    pub day: u8,
    pub hour: u8,
    pub minute: u8,
    pub second: u8,
}

/// What an archive reader reports of one entry.
pub struct ZipEntryFields {
    pub name: String,
    pub comment: String,
    /// The compression method's numeric tag in the archive format.
    pub method_tag: u16,
    pub last_modified: Option<DosDateTime>,
    pub crc32: u32,
    pub compressed_size: u64,
    pub uncompressed_size: u64,
}

/// The compression method's tag for stored entries.
pub const TAG_STORED: u16 = 0;

/// The compression method's tag for deflated entries.
pub const TAG_DEFLATED: u16 = 8;

/// The method recorded for a tag: deflated entries are `Deflate`, all others
/// `Store`.
pub open spec fn spec_method_of_tag(tag: u16) -> Method {
    if tag == 8 {
        Method::Deflate
    } else {
        Method::Store
    }
}

/// The method recorded for a compression method's tag.
pub fn method_from_tag(tag: u16) -> (r: Method)
    ensures
        r == spec_method_of_tag(tag),
{
    if tag == TAG_DEFLATED {
        Method::Deflate
    } else {
        Method::Store
    }
}

pub open spec fn is_leap_year(y: int) -> bool {
    y % 4 == 0 && (y % 100 != 0 || y % 400 == 0)
}

pub open spec fn days_in_month(y: int, m: int) -> int {
    if m == 2 {
        if is_leap_year(y) {
            29
        } else {
            28
        }
    } else if m == 4 || m == 6 || m == 9 || m == 11 {
        30
    } else {
        31
    }
}

/// The fields name a real date of the proleptic Gregorian calendar and a time
/// of day without a leap second.
pub open spec fn is_valid_date_time(d: DosDateTime) -> bool {
    &&& 1 <= d.month <= 12
    &&& 1 <= d.day <= days_in_month(d.year as int, d.month as int)
    &&& d.hour < 24
    &&& d.minute < 60
    &&& d.second < 60
}

/// Days from 1970-01-01 to the given date of the proleptic Gregorian
/// calendar, counting March as the first month of the year so that a leap
/// day ends it.
pub open spec fn days_from_civil(year: int, month: int, day: int) -> int {
    let y = if month <= 2 {
        year - 1
    } else {
        year
    };
    let era = y / 400;
    let year_of_era = y - era * 400;
    let march_month = if month > 2 {
        month - 3
    } else {
        month + 9
    };
    let day_of_year = (153 * march_month + 2) / 5 + day - 1;
    let day_of_era = year_of_era * 365 + year_of_era / 4 - year_of_era / 100 + day_of_year;
    era * 146097 + day_of_era - 719468
}

/// Seconds from the Unix epoch to the given date and time of day read as UTC.
pub open spec fn utc_seconds_of(d: DosDateTime) -> int {
    days_from_civil(d.year as int, d.month as int, d.day as int) * 86400 + d.hour * 3600 + d.minute
        * 60 + d.second
}

/// Relies on chrono's `NaiveDate::from_ymd_opt` and `NaiveTime::from_hms_opt`
/// (which accept exactly the real dates of years far wider than a `u16`, and
/// times of day below 24:00:00 without a leap second), and on
/// `NaiveDateTime::and_utc().timestamp()`: days since 1970-01-01 times 86400
/// plus the seconds of the day.
#[verifier::external_body]
fn utc_timestamp(d: DosDateTime) -> (r: Option<i64>)
    ensures
        r.is_some() == is_valid_date_time(d),
        r matches Some(t) ==> t == utc_seconds_of(d),
{
    let date = chrono::NaiveDate::from_ymd_opt(d.year.into(), d.month.into(), d.day.into())?;
    let time = chrono::NaiveTime::from_hms_opt(d.hour.into(), d.minute.into(), d.second.into())?;
    Some(chrono::NaiveDateTime::new(date, time).and_utc().timestamp())
}

/// The instant of `d` read as UTC, when `d` is a real date and time.
pub open spec fn spec_utc_instant(d: DosDateTime) -> Option<SysTime> {
    if is_valid_date_time(d) {
        Some(
            SysTime {
                secs: utc_seconds_of(d) as i64,
                nanos: 0,
            },
        )
    } else {
        None
    }
}

/// The instant of the date and time `d` read as UTC, or `None` when the fields
/// do not form a real date and time.
pub fn n2sys_utc(d: DosDateTime) -> (r: Option<SysTime>)
    ensures
        r == spec_utc_instant(d),
{
    match utc_timestamp(d) {
        Some(secs) => Some(SysTime { secs, nanos: 0 }),
        None => None,
    }
}

/// The instant recorded for an entry: its timestamp read as UTC, or the Unix
/// epoch when it has none or it is not a real date and time.
pub open spec fn spec_modified(t: Option<DosDateTime>) -> SysTime {
    match t {
        Some(d) => match spec_utc_instant(d) {
            Some(s) => s,
            None => SysTime::spec_epoch(),
        },
        None => SysTime::spec_epoch(),
    }
}

/// `m` is the metadata recorded for the reported entry `e`.
pub open spec fn adapts(e: &ZipEntryFields, m: &ZipItemMeta) -> bool {
    &&& m.name@ == e.name@
    &&& m.comment@ == e.comment@
    &&& m.method == spec_method_of_tag(e.method_tag)
    &&& m.modified == spec_modified(e.last_modified)
    &&& m.crc32 == e.crc32
    &&& m.compressed_size == e.compressed_size
    &&& m.uncompressed_size == e.uncompressed_size
}

/// The metadata recorded for one reported entry; this never fails.
pub fn zfile2imeta(e: &ZipEntryFields) -> (r: ZipItemMeta)
    ensures
        adapts(e, &r),
{
    let modified: SysTime = match e.last_modified {
        Some(d) => match n2sys_utc(d) {
            Some(s) => s,
            None => SysTime::unix_epoch(),
        },
        None => SysTime::unix_epoch(),
    };
    ZipItemMeta {
        name: e.name.clone(),
        comment: e.comment.clone(),
        method: method_from_tag(e.method_tag),
        modified,
        crc32: e.crc32,
        compressed_size: e.compressed_size,
        uncompressed_size: e.uncompressed_size,
    }
}

/// The text that the bytes `b` encode in UTF-8, or `None` when they are not
/// valid UTF-8.
pub uninterp spec fn utf8_decode(b: Seq<u8>) -> Option<Seq<char>>;

/// Relies on `std::str::from_utf8`: the text of `b` when it is valid UTF-8;
/// an empty slice is the empty text.
#[verifier::external_body]
fn utf8_str(b: &[u8]) -> (r: Option<&str>)
    ensures
        r.is_some() == utf8_decode(b@).is_some(),
        r.is_some() ==> utf8_decode(b@) == Some(r.unwrap()@),
        b@.len() == 0 ==> r.is_some() && r.unwrap()@.len() == 0,
{
    std::str::from_utf8(b).ok()
}

/// The archive comment as text: its UTF-8 decoding, or the empty text when
/// the bytes are not valid UTF-8.
pub open spec fn spec_comment_text(b: Seq<u8>) -> Seq<char> {
    match utf8_decode(b) {
        Some(s) => s,
        None => Seq::empty(),
    }
}

/// The archive comment as text; bytes that are not valid UTF-8 give the empty
/// text, never an error.
pub fn comment2str(comment: &[u8]) -> (r: &str)
    ensures
        r@ == spec_comment_text(comment@),
{
    match utf8_str(comment) {
        Some(s) => s,
        None => {
            proof {
                reveal_strlit("");
            }
            ""
        },
    }
}

/// `z` is the metadata of an archive reported as `zip_id`, with comment bytes
/// `comment` and the entries `entries` in the archive's order.
pub open spec fn describes(
    z: &Zip,
    zip_id: Seq<char>,
    comment: Seq<u8>,
    entries: Seq<ZipEntryFields>,
) -> bool {
    &&& z.zip_id@ == zip_id
    &&& z.meta.comment@ == spec_comment_text(comment)
    &&& z.meta.files@.len() == entries.len()
    &&& forall|i: int| 0 <= i < entries.len() ==> #[trigger] adapts(&entries[i], &z.meta.files@[i])
}

/// The metadata of an archive from what its reader reported, entry by entry in
/// the reader's order.
pub fn zip2meta(zip_id: String, comment: &[u8], entries: &Vec<ZipEntryFields>) -> (r: Zip)
    ensures
        describes(&r, zip_id@, comment@, entries@),
{
    let text: String = String::from_str(comment2str(comment));
    let mut files: Vec<ZipItemMeta> = Vec::with_capacity(entries.len());
    let mut i: usize = 0;
    while i < entries.len()
        invariant
            i <= entries@.len(),
            files@.len() == i,
            forall|j: int| 0 <= j < i ==> #[trigger] adapts(&entries@[j], &files@[j]),
        decreases entries@.len() - i,
    {
        files.push(zfile2imeta(&entries[i]));
        i = i + 1;
    }
    Zip { zip_id, meta: ZipFileMeta { comment: text, files } }
}

/// The text columns of the table of these entries under `zip_id` stay within
/// arrow's 32-bit offsets.
pub open spec fn entries_fit(zip_id: Seq<char>, entries: Seq<ZipEntryFields>) -> bool {
    &&& text_column_fits(seq![zip_id])
    &&& text_column_fits(entries.map_values(|e: ZipEntryFields| e.name@))
    &&& text_column_fits(entries.map_values(|e: ZipEntryFields| e.comment@))
}

/// The table of an archive from what its reader reported: the metadata of
/// `zip2meta`, encoded by `table::zip2record_batch`, one row per entry.
pub fn zip2record_batch(zip_id: String, comment: &[u8], entries: &Vec<ZipEntryFields>) -> (r: Result<
    arrow::array::ArrayData,
    ZipMetaError,
>)
    ensures
        r is Ok <==> entries_fit(zip_id@, entries@),
        r matches Ok(a) ==> column_len(a) == entries@.len(),
        r matches Err(e) ==> e == ZipMetaError::EncodingError,
{
    let ghost id = zip_id@;
    let z = zip2meta(zip_id, comment, entries);
    proof {
        assert(table::names_of(&z) =~= entries@.map_values(|e: ZipEntryFields| e.name@)) by {
            assert forall|i: int| 0 <= i < entries@.len() implies table::names_of(&z)[i]
                == entries@.map_values(|e: ZipEntryFields| e.name@)[i] by {
                assert(adapts(&entries@[i], &z.meta.files@[i]));
            }
        }
        assert(table::comments_of(&z) =~= entries@.map_values(|e: ZipEntryFields| e.comment@)) by {
            assert forall|i: int| 0 <= i < entries@.len() implies table::comments_of(&z)[i]
                == entries@.map_values(|e: ZipEntryFields| e.comment@)[i] by {
                assert(adapts(&entries@[i], &z.meta.files@[i]));
            }
        }
    }
    table::zip2record_batch(z)
}

} // verus!
