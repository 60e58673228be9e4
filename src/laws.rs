//! Properties that relate the adapter, the model and the table encoder.

use vstd::prelude::*;

use crate::adapter::{
    adapts, describes, is_valid_date_time, spec_method_of_tag, spec_modified, ZipEntryFields,
    TAG_DEFLATED, TAG_STORED,
};
use crate::meta::{spec_method_code, Zip};
use crate::table::{
    column_micros, comments_of, encodes, has_rows, names_of, table_fits, text_column_fits,
    total_utf8_len, ZipColumns,
};
use crate::time::{nanos_since_epoch, SysTime};

verus! {

/// The table of an archive has one row per reported entry, and row `i`
/// describes the `i`-th entry in the reader's order.
pub proof fn lemma_rows_follow_entries(
    zip_id: Seq<char>,
    comment: Seq<u8>,
    entries: Seq<ZipEntryFields>,
    z: &Zip,
    c: &ZipColumns,
)
    requires
        describes(z, zip_id, comment, entries),
        encodes(c, z),
    ensures
        has_rows(c, entries.len() as int),
        forall|i: int|
            0 <= i < entries.len() ==> {
                &&& c.item_name@[i]@ == (#[trigger] entries[i]).name@
                &&& c.item_comment@[i]@ == entries[i].comment@
                &&& c.item_method@[i] == spec_method_code(spec_method_of_tag(entries[i].method_tag))
                &&& c.item_modified@[i] == column_micros(spec_modified(entries[i].last_modified))
                &&& c.item_crc32@[i] == entries[i].crc32
                &&& c.item_compressed_size@[i] == entries[i].compressed_size
                &&& c.item_uncompressed_size@[i] == entries[i].uncompressed_size
            },
{
    assert forall|i: int| 0 <= i < entries.len() implies {
        &&& c.item_name@[i]@ == (#[trigger] entries[i]).name@
        &&& c.item_comment@[i]@ == entries[i].comment@
        &&& c.item_method@[i] == spec_method_code(spec_method_of_tag(entries[i].method_tag))
        &&& c.item_modified@[i] == column_micros(spec_modified(entries[i].last_modified))
        &&& c.item_crc32@[i] == entries[i].crc32
        &&& c.item_compressed_size@[i] == entries[i].compressed_size
        &&& c.item_uncompressed_size@[i] == entries[i].uncompressed_size
    } by {
        assert(adapts(&entries[i], &z.meta.files@[i]));
        assert(crate::table::row_is(c, i, &z.meta.files@[i]));
    }
}

/// Every row of the `zip_id` column is key 0 of a dictionary whose one value
/// is the archive's identifier.
pub proof fn lemma_single_archive_id(z: &Zip, c: &ZipColumns)
    requires
        encodes(c, z),
    ensures
        c.zip_id_values@.len() == 1,
        forall|i: int|
            0 <= i < c.zip_id_keys@.len() ==> #[trigger] c.zip_id_keys@[i] == 0
                && c.zip_id_values@[c.zip_id_keys@[i] as int]@ == z.zip_id@,
{
    assert forall|i: int| 0 <= i < c.zip_id_keys@.len() implies #[trigger] c.zip_id_keys@[i] == 0
        && c.zip_id_values@[c.zip_id_keys@[i] as int]@ == z.zip_id@ by {
        assert(crate::table::row_is(c, i, &z.meta.files@[i]));
    }
}

/// An archive without entries gives columns without rows. Its table, under
/// the fixed schema of `table_schema`, is refused only for an identifier
/// beyond arrow's 32-bit offsets, and then has zero rows.
pub proof fn lemma_empty_archive_has_no_rows(z: &Zip, c: &ZipColumns)
    requires
        encodes(c, z),
        z.meta.files@.len() == 0,
    ensures
        has_rows(c, 0),
        table_fits(z) <==> text_column_fits(seq![z.zip_id@]),
{
    assert(names_of(z) =~= Seq::<Seq<char>>::empty());
    assert(comments_of(z) =~= Seq::<Seq<char>>::empty());
    assert(total_utf8_len(Seq::<Seq<char>>::empty()) == 0);
}

/// An entry whose compression method is neither stored nor deflated is
/// encoded as method 0, the tag of `Store`.
pub proof fn lemma_unknown_method_encodes_store(e: &ZipEntryFields, z: &Zip, c: &ZipColumns, i: int)
    requires
        encodes(c, z),
        0 <= i < z.meta.files@.len(),
        adapts(e, &z.meta.files@[i]),
        e.method_tag != TAG_STORED,
        e.method_tag != TAG_DEFLATED,
    ensures
        c.item_method@[i] == 0,
{
    assert(crate::table::row_is(c, i, &z.meta.files@[i]));
}

/// An entry without a timestamp, or with one that is not a real date and
/// time, is recorded at the Unix epoch, and its `item_modified` cell is the
/// non-null value 0.
pub proof fn lemma_missing_timestamp_encodes_epoch(
    e: &ZipEntryFields,
    z: &Zip,
    c: &ZipColumns,
    i: int,
)
    requires
        encodes(c, z),
        0 <= i < z.meta.files@.len(),
        adapts(e, &z.meta.files@[i]),
        e.last_modified is None || !is_valid_date_time(e.last_modified->Some_0),
    ensures
        z.meta.files@[i].modified == SysTime::spec_epoch(),
        c.item_modified@[i] == Some(0i64),
{
    assert(crate::table::row_is(c, i, &z.meta.files@[i]));
    assert(nanos_since_epoch(SysTime::spec_epoch()) == 0);
}

/// An entry whose instant lies before the Unix epoch, or so far after it
/// that its microseconds do not fit in an `i64`, has a null `item_modified`
/// cell.
pub proof fn lemma_unrepresentable_instant_is_null(z: &Zip, c: &ZipColumns, i: int)
    requires
        encodes(c, z),
        0 <= i < z.meta.files@.len(),
        nanos_since_epoch(z.meta.files@[i].modified) < 0
            || nanos_since_epoch(z.meta.files@[i].modified) / 1_000 > i64::MAX,
    ensures
        c.item_modified@[i] is None,
{
    assert(crate::table::row_is(c, i, &z.meta.files@[i]));
}

} // verus!
