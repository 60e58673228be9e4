use arrow::array::{Array, ArrayData, StructArray};
use arrow::record_batch::RecordBatch;

use zip2meta2rbat::adapter::{
    comment2str, method_from_tag, n2sys_utc, zfile2imeta, zip2meta, DosDateTime, ZipEntryFields,
};
use zip2meta2rbat::meta::{Method, Zip, ZipFileMeta, ZipItemMeta};
use zip2meta2rbat::table::{
    fits_text_column, modified_cell, table_schema, zip2columns, zip2record_batch, ColumnType,
};
use zip2meta2rbat::time::{duration2us, stime2unixtime, stime2unixtime_us, Duration, SysTime};

fn item(name: &str, method: Method, crc32: u32, csize: u64, usize_: u64) -> ZipItemMeta {
    ZipItemMeta {
        name: name.to_string(),
        comment: String::new(),
        method,
        modified: SysTime { secs: 0, nanos: 0 },
        crc32,
        compressed_size: csize,
        uncompressed_size: usize_,
    }
}

fn two_entry_zip() -> Zip {
    Zip {
        zip_id: "test.zip".to_string(),
        meta: ZipFileMeta {
            comment: String::new(),
            files: vec![
                item("a.txt", Method::Store, 1, 10, 10),
                item("b.bin", Method::Deflate, 2, 5, 20),
            ],
        },
    }
}

fn entry(name: &str, tag: u16, when: Option<DosDateTime>) -> ZipEntryFields {
    ZipEntryFields {
        name: name.to_string(),
        comment: "c".to_string(),
        method_tag: tag,
        last_modified: when,
        crc32: 7,
        compressed_size: 3,
        uncompressed_size: 4,
    }
}

fn dos(year: u16, month: u8, day: u8, hour: u8, minute: u8, second: u8) -> DosDateTime {
    DosDateTime { year, month, day, hour, minute, second }
}

fn batch(data: ArrayData) -> RecordBatch {
    RecordBatch::from(StructArray::from(data))
}

#[test]
fn two_entries_give_two_rows() {
    let c = zip2columns(&two_entry_zip());
    assert_eq!(c.zip_id_values, vec!["test.zip".to_string()]);
    assert_eq!(c.zip_id_keys, vec![0, 0]);
    assert_eq!(c.item_name, vec!["a.txt".to_string(), "b.bin".to_string()]);
    assert_eq!(c.item_method, vec![0, 8]);
    assert_eq!(c.item_crc32, vec![1, 2]);
    assert_eq!(c.item_compressed_size, vec![10, 5]);
    assert_eq!(c.item_uncompressed_size, vec![10, 20]);
    assert_eq!(c.item_modified, vec![Some(0), Some(0)]);
}

#[test]
fn two_entries_record_batch() {
    let b = batch(zip2record_batch(two_entry_zip()).unwrap());
    assert_eq!(b.num_rows(), 2);
    assert_eq!(b.num_columns(), 8);
    let ids = b
        .column(0)
        .as_any()
        .downcast_ref::<arrow::array::DictionaryArray<arrow::datatypes::Int8Type>>()
        .unwrap();
    assert_eq!(ids.values().len(), 1);
    assert_eq!(ids.keys().values().to_vec(), vec![0i8, 0]);
    let methods = b.column(3).as_any().downcast_ref::<arrow::array::UInt8Array>().unwrap();
    assert_eq!(methods.values().to_vec(), vec![0u8, 8]);
}

#[test]
fn empty_archive_has_schema_and_no_rows() {
    let z = Zip { zip_id: "e.zip".to_string(), meta: ZipFileMeta { comment: String::new(), files: vec![] } };
    let c = zip2columns(&z);
    assert_eq!(c.zip_id_values, vec!["e.zip".to_string()]);
    assert!(c.zip_id_keys.is_empty() && c.item_name.is_empty() && c.item_modified.is_empty());
    let b = batch(zip2record_batch(z).unwrap());
    assert_eq!(b.num_rows(), 0);
    let names: Vec<String> = b.schema().fields().iter().map(|f| f.name().clone()).collect();
    assert_eq!(
        names,
        vec![
            "zip_id",
            "item_name",
            "item_comment",
            "item_method",
            "item_modified",
            "item_crc32",
            "item_compressed_size",
            "item_uncompressed_size"
        ]
    );
    assert!(b.schema().field(4).is_nullable());
    assert!(!b.schema().field(0).is_nullable());
}

#[test]
fn schema_is_fixed() {
    let s = table_schema();
    assert_eq!(s.len(), 8);
    assert_eq!(s[0].name, "zip_id");
    assert_eq!(s[0].ty, ColumnType::DictInt8Utf8);
    assert_eq!(s[4].ty, ColumnType::TimestampMicros);
    assert!(s[4].nullable);
    assert_eq!(s[7].name, "item_uncompressed_size");
}

#[test]
fn unknown_method_is_store() {
    assert_eq!(method_from_tag(0), Method::Store);
    assert_eq!(method_from_tag(8), Method::Deflate);
    assert_eq!(method_from_tag(12), Method::Store);
    let m = zfile2imeta(&entry("x", 99, None));
    assert_eq!(m.method, Method::Store);
    assert_eq!(m.method.code(), 0);
}

#[test]
fn missing_timestamp_is_epoch_and_zero() {
    let m = zfile2imeta(&entry("x", 0, None));
    assert_eq!(m.modified, SysTime { secs: 0, nanos: 0 });
    assert_eq!(modified_cell(m.modified), Some(0));
    let bad = zfile2imeta(&entry("y", 0, Some(dos(1980, 0, 1, 0, 0, 0))));
    assert_eq!(bad.modified, SysTime { secs: 0, nanos: 0 });
}

#[test]
fn out_of_range_instant_is_null() {
    let far = SysTime { secs: 10_000_000_000_000, nanos: 0 };
    assert_eq!(stime2unixtime_us(far), Some(10_000_000_000_000_000_000));
    assert_eq!(modified_cell(far), None);
    assert_eq!(modified_cell(SysTime { secs: -1, nanos: 0 }), None);
    assert_eq!(modified_cell(SysTime { secs: i64::MAX, nanos: 0 }), None);
    let mut z = two_entry_zip();
    z.meta.files[1].modified = far;
    assert_eq!(zip2columns(&z).item_modified, vec![Some(0), None]);
}

#[test]
fn instants_to_durations() {
    assert_eq!(stime2unixtime(SysTime { secs: 5, nanos: 7 }), Some(Duration { secs: 5, nanos: 7 }));
    assert_eq!(stime2unixtime(SysTime { secs: -1, nanos: 999_999_999 }), None);
    assert_eq!(stime2unixtime(SysTime { secs: 1, nanos: 2_500_000_000 }), Some(Duration { secs: 3, nanos: 500_000_000 }));
}

#[test]
fn durations_to_micros() {
    assert_eq!(duration2us(Duration { secs: 1, nanos: 1_500 }), Some(1_000_001));
    assert_eq!(duration2us(Duration { secs: 0, nanos: 999 }), Some(0));
    assert_eq!(duration2us(Duration { secs: u64::MAX, nanos: 0 }), None);
    assert_eq!(stime2unixtime_us(SysTime { secs: 2, nanos: 3_000 }), Some(2_000_003));
}

#[test]
fn dos_times_read_as_utc() {
    assert_eq!(n2sys_utc(dos(1980, 1, 1, 0, 0, 0)), Some(SysTime { secs: 315_532_800, nanos: 0 }));
    assert_eq!(n2sys_utc(dos(2024, 2, 29, 12, 34, 56)), Some(SysTime { secs: 1_709_210_096, nanos: 0 }));
    assert_eq!(n2sys_utc(dos(2023, 2, 29, 0, 0, 0)), None);
    assert_eq!(n2sys_utc(dos(2023, 13, 1, 0, 0, 0)), None);
    assert_eq!(n2sys_utc(dos(2023, 1, 1, 24, 0, 0)), None);
    assert_eq!(n2sys_utc(dos(2023, 1, 1, 0, 0, 60)), None);
    let m = zfile2imeta(&entry("t", 8, Some(dos(1980, 1, 1, 0, 0, 2))));
    assert_eq!(m.modified, SysTime { secs: 315_532_802, nanos: 0 });
    assert_eq!(modified_cell(m.modified), Some(315_532_802_000_000));
}

#[test]
fn comments_decode_permissively() {
    assert_eq!(comment2str(b"hello"), "hello");
    assert_eq!(comment2str("h\u{e9}".as_bytes()), "h\u{e9}");
    assert_eq!(comment2str(&[0xff, 0xfe]), "");
    assert_eq!(comment2str(&[]), "");
}

#[test]
fn entries_keep_reader_order() {
    let entries = vec![entry("first", 0, None), entry("second", 8, None), entry("third", 3, None)];
    let z = zip2meta("arc.zip".to_string(), b"note", &entries);
    assert_eq!(z.zip_id, "arc.zip");
    assert_eq!(z.meta.comment, "note");
    let names: Vec<&str> = z.meta.files.iter().map(|f| f.name.as_str()).collect();
    assert_eq!(names, vec!["first", "second", "third"]);
    let c = zip2columns(&z);
    assert_eq!(c.item_method, vec![0, 8, 0]);
    assert_eq!(c.item_comment, vec!["c".to_string(), "c".to_string(), "c".to_string()]);
    let b = batch(zip2meta2rbat::adapter::zip2record_batch("arc.zip".to_string(), &[0xc3], &entries).unwrap());
    assert_eq!(b.num_rows(), 3);
}

#[test]
fn overflowing_instant_is_a_null_cell_not_an_error() {
    let mut z = two_entry_zip();
    z.meta.files.truncate(1);
    z.meta.files[0].modified = SysTime { secs: 20_000_000_000_000, nanos: 0 };
    let b = batch(zip2record_batch(z).unwrap());
    assert_eq!(b.num_rows(), 1);
    assert!(b.column(4).is_null(0));
    let crc = b.column(5).as_any().downcast_ref::<arrow::array::UInt32Array>().unwrap();
    assert_eq!(crc.values().to_vec(), vec![1u32]);
}

#[test]
fn text_columns_count_utf8_bytes() {
    assert!(fits_text_column(&vec![]));
    assert!(fits_text_column(&vec!["a".to_string(), "\u{e9}t\u{e9}".to_string()]));
}
