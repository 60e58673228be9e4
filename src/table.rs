//! The table encoder: one row per entry under a fixed eight-column schema.

use vstd::prelude::*;

use arrow::datatypes::{DataType, TimeUnit};

use crate::meta::{spec_method_code, Zip, ZipItemMeta, ZipMetaError};
use vstd::utf8::encode_utf8;
use crate::time::{stime2unixtime_us, unix_micros, SysTime};

verus! {

/// The type of one column of the table.
#[derive(Clone, Copy, Debug, PartialEq, Eq, Structural)]
pub enum ColumnType {
    /// Text stored once in a dictionary, each row an 8-bit index into it.
    DictInt8Utf8,
    Utf8,
    UInt8,
    /// Microseconds since the Unix epoch, without a time zone.
    TimestampMicros,
    UInt32,
    UInt64,
}

/// Name, type and nullability of one column.
#[derive(Clone, Copy, Debug)]
pub struct ColumnSpec {
    pub name: &'static str,
    pub ty: ColumnType,
    pub nullable: bool,
}

/// The column `c` has this name, type and nullability.
pub open spec fn column_is(c: ColumnSpec, name: Seq<char>, ty: ColumnType, nullable: bool) -> bool {
    c.name@ == name && c.ty == ty && c.nullable == nullable
}

/// The table's schema, in column order.
pub open spec fn is_table_schema(s: Seq<ColumnSpec>) -> bool {
    &&& s.len() == 8
    &&& column_is(s[0], "zip_id"@, ColumnType::DictInt8Utf8, false)
    &&& column_is(s[1], "item_name"@, ColumnType::Utf8, false)
    &&& column_is(s[2], "item_comment"@, ColumnType::Utf8, false)
    &&& column_is(s[3], "item_method"@, ColumnType::UInt8, false)
    &&& column_is(s[4], "item_modified"@, ColumnType::TimestampMicros, true)
    &&& column_is(s[5], "item_crc32"@, ColumnType::UInt32, false)
    &&& column_is(s[6], "item_compressed_size"@, ColumnType::UInt64, false)
    &&& column_is(s[7], "item_uncompressed_size"@, ColumnType::UInt64, false)
}

/// The fixed schema of the table; it does not depend on any archive.
pub fn table_schema() -> (r: Vec<ColumnSpec>)
    ensures
        is_table_schema(r@),
{
    proof {
        reveal_strlit("zip_id");
        reveal_strlit("item_name");
        reveal_strlit("item_comment");
        reveal_strlit("item_method");
        reveal_strlit("item_modified");
        reveal_strlit("item_crc32");
        reveal_strlit("item_compressed_size");
        reveal_strlit("item_uncompressed_size");
    }
    vec![
        ColumnSpec { name: "zip_id", ty: ColumnType::DictInt8Utf8, nullable: false },
        ColumnSpec { name: "item_name", ty: ColumnType::Utf8, nullable: false },
        ColumnSpec { name: "item_comment", ty: ColumnType::Utf8, nullable: false },
        ColumnSpec { name: "item_method", ty: ColumnType::UInt8, nullable: false },
        ColumnSpec { name: "item_modified", ty: ColumnType::TimestampMicros, nullable: true },
        ColumnSpec { name: "item_crc32", ty: ColumnType::UInt32, nullable: false },
        ColumnSpec { name: "item_compressed_size", ty: ColumnType::UInt64, nullable: false },
        ColumnSpec { name: "item_uncompressed_size", ty: ColumnType::UInt64, nullable: false },
    ]
}

/// The columns of the table as plain vectors, one element per row, except
/// `zip_id_values`: the dictionary that `zip_id_keys` indexes into.
pub struct ZipColumns {
    pub zip_id_values: Vec<String>,
    pub zip_id_keys: Vec<i8>,
    pub item_name: Vec<String>,
    pub item_comment: Vec<String>,
    pub item_method: Vec<u8>,
    pub item_modified: Vec<Option<i64>>,
    pub item_crc32: Vec<u32>,
    pub item_compressed_size: Vec<u64>,
    pub item_uncompressed_size: Vec<u64>,
}

/// The `item_modified` cell for an instant: its microseconds since the Unix
/// epoch, or null when that count is negative or does not fit in an `i64`.
pub open spec fn column_micros(t: SysTime) -> Option<i64> {
    match unix_micros(t) {
        Some(us) => if us <= i64::MAX {
            Some(us as i64)
        } else {
            None
        },
        None => None,
    }
}

/// Row `i` of the columns describes the entry `f`.
pub open spec fn row_is(c: &ZipColumns, i: int, f: &ZipItemMeta) -> bool {
    &&& c.zip_id_keys@[i] == 0
    &&& c.item_name@[i]@ == f.name@
    &&& c.item_comment@[i]@ == f.comment@
    &&& c.item_method@[i] == spec_method_code(f.method)
    &&& c.item_modified@[i] == column_micros(f.modified)
    &&& c.item_crc32@[i] == f.crc32
    &&& c.item_compressed_size@[i] == f.compressed_size
    &&& c.item_uncompressed_size@[i] == f.uncompressed_size
}

/// Every per-row column has `n` rows.
pub open spec fn has_rows(c: &ZipColumns, n: int) -> bool {
    &&& c.zip_id_keys@.len() == n
    &&& c.item_name@.len() == n
    &&& c.item_comment@.len() == n
    &&& c.item_method@.len() == n
    &&& c.item_modified@.len() == n
    &&& c.item_crc32@.len() == n
    &&& c.item_compressed_size@.len() == n
    &&& c.item_uncompressed_size@.len() == n
}

/// `c` is the table of `z`: one row per entry, in the entries' order, and a
/// dictionary that holds the archive's identifier alone.
pub open spec fn encodes(c: &ZipColumns, z: &Zip) -> bool {
    &&& c.zip_id_values@.len() == 1
    &&& c.zip_id_values@[0]@ == z.zip_id@
    &&& has_rows(c, z.meta.files@.len() as int)
    &&& forall|i: int| 0 <= i < z.meta.files@.len() ==> #[trigger] row_is(c, i, &z.meta.files@[i])
}

/// The `item_modified` cell for `t`.
pub fn modified_cell(t: SysTime) -> (r: Option<i64>)
    ensures
        r == column_micros(t),
{
    match stime2unixtime_us(t) {
        Some(us) => if us <= i64::MAX as u64 {
            Some(us as i64)
        } else {
            None
        },
        None => None,
    }
}

/// Builds all the columns of the table of `z` in one pass over its entries.
pub fn zip2columns(z: &Zip) -> (r: ZipColumns)
    ensures
        encodes(&r, z),
{
    let files = &z.meta.files;
    let n: usize = files.len();
    let mut zip_id_values: Vec<String> = Vec::new();
    zip_id_values.push(z.zip_id.clone());
    let mut c = ZipColumns {
        zip_id_values,
        zip_id_keys: Vec::with_capacity(n),
        item_name: Vec::with_capacity(n),
        item_comment: Vec::with_capacity(n),
        item_method: Vec::with_capacity(n),
        item_modified: Vec::with_capacity(n),
        item_crc32: Vec::with_capacity(n),
        item_compressed_size: Vec::with_capacity(n),
        item_uncompressed_size: Vec::with_capacity(n),
    };
    let mut i: usize = 0;
    while i < n
        invariant
            n == files@.len(),
            files == &z.meta.files,
            i <= n,
            c.zip_id_values@.len() == 1,
            c.zip_id_values@[0]@ == z.zip_id@,
            has_rows(&c, i as int),
            forall|j: int| 0 <= j < i ==> #[trigger] row_is(&c, j, &files@[j]),
        decreases n - i,
    {
        let f = &files[i];
        let ghost prev = c;
        c.zip_id_keys.push(0);
        c.item_name.push(f.name.clone());
        c.item_comment.push(f.comment.clone());
        c.item_method.push(f.method.code());
        c.item_modified.push(modified_cell(f.modified));
        c.item_crc32.push(f.crc32);
        c.item_compressed_size.push(f.compressed_size);
        c.item_uncompressed_size.push(f.uncompressed_size);
        i = i + 1;
        assert forall|j: int| 0 <= j < i implies #[trigger] row_is(&c, j, &files@[j]) by {
            if j < i - 1 {
                assert(row_is(&prev, j, &files@[j]));
            }
        }
    }
    c
}

/// Bytes taken by the UTF-8 encodings of all the texts in `v`.
pub open spec fn total_utf8_len(v: Seq<Seq<char>>) -> int
    decreases v.len(),
{
    if v.len() == 0 {
        0
    } else {
        total_utf8_len(v.drop_last()) + encode_utf8(v.last()).len()
    }
}

/// The texts held by a vector of strings.
pub open spec fn texts(v: Seq<String>) -> Seq<Seq<char>> {
    v.map_values(|s: String| s@)
}

/// The largest total byte length of a text column: arrow's 32-bit offsets.
pub const MAX_TEXT_BYTES: u64 = 2_147_483_647;

/// A text column of these texts stays within arrow's 32-bit offsets.
pub open spec fn text_column_fits(v: Seq<Seq<char>>) -> bool {
    total_utf8_len(v) <= i32::MAX
}

/// The texts of the entries' names, in order.
pub open spec fn names_of(z: &Zip) -> Seq<Seq<char>> {
    z.meta.files@.map_values(|f: ZipItemMeta| f.name@)
}

/// The texts of the entries' comments, in order.
pub open spec fn comments_of(z: &Zip) -> Seq<Seq<char>> {
    z.meta.files@.map_values(|f: ZipItemMeta| f.comment@)
}

/// Every text column of the table of `z` stays within arrow's 32-bit offsets.
pub open spec fn table_fits(z: &Zip) -> bool {
    &&& text_column_fits(seq![z.zip_id@])
    &&& text_column_fits(names_of(z))
    &&& text_column_fits(comments_of(z))
}

proof fn lemma_total_utf8_len_prefix(v: Seq<Seq<char>>, j: int)
    requires
        0 <= j <= v.len(),
    ensures
        total_utf8_len(v.take(j)) <= total_utf8_len(v),
    decreases v.len(),
{
    if j < v.len() {
        lemma_total_utf8_len_prefix(v.drop_last(), j);
        assert(v.drop_last().take(j) =~= v.take(j));
    } else {
        assert(v.take(j) =~= v);
    }
}

/// Whether a text column of the strings `v` stays within arrow's 32-bit
/// offsets.
pub fn fits_text_column(v: &Vec<String>) -> (r: bool)
    ensures
        r == text_column_fits(texts(v@)),
{
    let mut total: u64 = 0;
    let mut i: usize = 0;
    while i < v.len()
        invariant
            i <= v@.len(),
            total == total_utf8_len(texts(v@).take(i as int)),
            total <= MAX_TEXT_BYTES,
        decreases v@.len() - i,
    {
        let len: usize = v[i].as_str().as_bytes().len();
        assert(texts(v@).take(i + 1).drop_last() =~= texts(v@).take(i as int));
        assert(texts(v@).take(i + 1).last() == v@[i as int]@);
        assert(len == encode_utf8(v@[i as int]@).len());
        if len as u64 > MAX_TEXT_BYTES - total {
            proof {
                lemma_total_utf8_len_prefix(texts(v@), i + 1);
            }
            return false;
        }
        total = total + len as u64;
        i = i + 1;
    }
    assert(texts(v@).take(i as int) =~= texts(v@));
    true
}

#[verifier::external_type_specification]
#[verifier::external_body]
pub struct ExArrayData(arrow::array::ArrayData);

#[verifier::external_type_specification]
#[verifier::external_body]
pub struct ExField(arrow::datatypes::Field);

#[verifier::external_type_specification]
#[verifier::external_body]
pub struct ExArrowError(arrow::error::ArrowError);

/// The number of rows of an arrow column.
pub uninterp spec fn column_len(a: arrow::array::ArrayData) -> nat;

/// The type of an arrow column.
pub uninterp spec fn column_type(a: arrow::array::ArrayData) -> ColumnType;

/// Whether an arrow column holds a null.
pub uninterp spec fn column_has_nulls(a: arrow::array::ArrayData) -> bool;

/// The type of an arrow field.
pub uninterp spec fn field_type(f: arrow::datatypes::Field) -> ColumnType;

/// Whether an arrow field admits nulls.
pub uninterp spec fn field_nullable(f: arrow::datatypes::Field) -> bool;

/// Relies on arrow's `DictionaryArray::<Int8Type>::try_new`, which fails only
/// on a key outside `0..values.len()`, over `StringArray::from`, which panics
/// beyond 32-bit offsets. Neither keys nor values hold nulls.
#[verifier::external_body]
fn dictionary_column(keys: Vec<i8>, values: Vec<String>) -> (r: Result<
    arrow::array::ArrayData,
    arrow::error::ArrowError,
>)
    requires
        text_column_fits(texts(values@)),
    ensures
        (forall|i: int| 0 <= i < keys@.len() ==> 0 <= #[trigger] keys@[i] < values@.len()) ==> r is Ok,
        r matches Ok(a) ==> column_len(a) == keys@.len() && column_type(a) == ColumnType::DictInt8Utf8
            && !column_has_nulls(a),
{
    let values = arrow::array::make_array(arrow::array::StringArray::from(values).into());
    arrow::array::DictionaryArray::<arrow::datatypes::Int8Type>::try_new(
        arrow::array::Int8Array::from(keys),
        values,
    ).map(arrow::array::ArrayData::from)
}

/// Relies on arrow's `StringArray::from`: a text column without nulls, one
/// row per string; it panics beyond 32-bit offsets.
#[verifier::external_body]
fn utf8_column(v: Vec<String>) -> (r: arrow::array::ArrayData)
    requires
        text_column_fits(texts(v@)),
    ensures
        column_len(r) == v@.len(),
        column_type(r) == ColumnType::Utf8,
        !column_has_nulls(r),
{
    arrow::array::StringArray::from(v).into()
}

/// Relies on arrow's `UInt8Array::from`: an unsigned 8-bit column without
/// nulls.
#[verifier::external_body]
fn u8_column(v: Vec<u8>) -> (r: arrow::array::ArrayData)
    ensures
        column_len(r) == v@.len(),
        column_type(r) == ColumnType::UInt8,
        !column_has_nulls(r),
{
    arrow::array::UInt8Array::from(v).into()
}

/// Relies on arrow's `UInt32Array::from`: an unsigned 32-bit column without
/// nulls.
#[verifier::external_body]
fn u32_column(v: Vec<u32>) -> (r: arrow::array::ArrayData)
    ensures
        column_len(r) == v@.len(),
        column_type(r) == ColumnType::UInt32,
        !column_has_nulls(r),
{
    arrow::array::UInt32Array::from(v).into()
}

/// Relies on arrow's `UInt64Array::from`: an unsigned 64-bit column without
/// nulls.
#[verifier::external_body]
fn u64_column(v: Vec<u64>) -> (r: arrow::array::ArrayData)
    ensures
        column_len(r) == v@.len(),
        column_type(r) == ColumnType::UInt64,
        !column_has_nulls(r),
{
    arrow::array::UInt64Array::from(v).into()
}

/// Relies on arrow's `TimestampMicrosecondArray::from`: a column of
/// microseconds since the Unix epoch, `None` standing for null.
#[verifier::external_body]
fn timestamp_us_column(v: Vec<Option<i64>>) -> (r: arrow::array::ArrayData)
    ensures
        column_len(r) == v@.len(),
        column_type(r) == ColumnType::TimestampMicros,
{
    arrow::array::TimestampMicrosecondArray::from(v).into()
}

/// Relies on arrow's `Field::new`: a field of the given name, type and
/// nullability.
#[verifier::external_body]
fn field(spec: ColumnSpec) -> (r: arrow::datatypes::Field)
    ensures
        field_type(r) == spec.ty,
        field_nullable(r) == spec.nullable,
{
    let ty = match spec.ty {
        ColumnType::DictInt8Utf8 => DataType::Dictionary(Box::new(DataType::Int8), Box::new(DataType::Utf8)),
        ColumnType::Utf8 => DataType::Utf8,
        ColumnType::UInt8 => DataType::UInt8,
        ColumnType::TimestampMicros => DataType::Timestamp(TimeUnit::Microsecond, None),
        ColumnType::UInt32 => DataType::UInt32,
        ColumnType::UInt64 => DataType::UInt64,
    };
    arrow::datatypes::Field::new(spec.name, ty, spec.nullable)
}

/// The columns fit the fields: as many of each, at least one, each column of
/// its field's type and of the first column's length, and nulls only under
/// nullable fields.
pub open spec fn columns_fit_fields(
    fields: Seq<arrow::datatypes::Field>,
    columns: Seq<arrow::array::ArrayData>,
) -> bool {
    &&& fields.len() == columns.len()
    &&& columns.len() >= 1
    &&& forall|i: int|
        0 <= i < columns.len() ==> {
            &&& column_type(#[trigger] columns[i]) == field_type(fields[i])
            &&& column_len(columns[i]) == column_len(columns[0])
            &&& (field_nullable(fields[i]) || !column_has_nulls(columns[i]))
        }
}

/// Relies on arrow's `StructArray::try_new`, which fails only when there are
/// no columns, their count, types or lengths do not fit the fields, or a
/// field that admits no nulls gets a column that holds one. The struct array
/// has the columns' length.
#[verifier::external_body]
fn struct_of(fields: Vec<arrow::datatypes::Field>, columns: Vec<arrow::array::ArrayData>) -> (r: Result<
    arrow::array::ArrayData,
    arrow::error::ArrowError,
>)
    ensures
        columns_fit_fields(fields@, columns@) ==> r is Ok,
        r matches Ok(a) ==> columns@.len() >= 1 && column_len(a) == column_len(columns@[0]),
{
    let columns = columns.into_iter().map(arrow::array::make_array).collect();
    arrow::array::StructArray::try_new(fields.into(), columns, None).map(arrow::array::ArrayData::from)
}

/// Encodes `z` as one struct array whose fields are the table's schema and
/// whose columns are those of `zip2columns`, one row per entry. The only
/// refusal is a text column beyond arrow's 32-bit offsets, which comes back
/// as `EncodingError`.
pub fn zip2record_batch(z: Zip) -> (r: Result<arrow::array::ArrayData, ZipMetaError>)
    ensures
        r is Ok <==> table_fits(&z),
        r matches Ok(a) ==> column_len(a) == z.meta.files@.len(),
        r matches Err(e) ==> e == ZipMetaError::EncodingError,
{
    let ghost z0 = z;
    let c = zip2columns(&z);
    let n: usize = c.item_name.len();
    proof {
        assert(texts(c.zip_id_values@) =~= seq![z.zip_id@]);
        assert(texts(c.item_name@) =~= names_of(&z)) by {
            assert forall|i: int| 0 <= i < z.meta.files@.len() implies texts(c.item_name@)[i]
                == names_of(&z)[i] by {
                assert(row_is(&c, i, &z.meta.files@[i]));
            }
        }
        assert(texts(c.item_comment@) =~= comments_of(&z)) by {
            assert forall|i: int| 0 <= i < z.meta.files@.len() implies texts(c.item_comment@)[i]
                == comments_of(&z)[i] by {
                assert(row_is(&c, i, &z.meta.files@[i]));
            }
        }
    }
    if !fits_text_column(&c.zip_id_values) || !fits_text_column(&c.item_name) || !fits_text_column(
        &c.item_comment,
    ) {
        return Err(ZipMetaError::EncodingError);
    }
    assert forall|i: int| 0 <= i < c.zip_id_keys@.len() implies 0 <= #[trigger] c.zip_id_keys@[i]
        < c.zip_id_values@.len() by {
        assert(row_is(&c, i, &z.meta.files@[i]));
    }
    let zip_id = match dictionary_column(c.zip_id_keys, c.zip_id_values) {
        Ok(a) => a,
        Err(_) => {
            return Err(ZipMetaError::EncodingError);
        },
    };
    let schema = table_schema();
    let mut fields: Vec<arrow::datatypes::Field> = Vec::new();
    let mut i: usize = 0;
    while i < schema.len()
        invariant
            i <= schema@.len(),
            fields@.len() == i,
            forall|j: int|
                0 <= j < i ==> field_type(#[trigger] fields@[j]) == schema@[j].ty && field_nullable(
                    fields@[j],
                ) == schema@[j].nullable,
        decreases schema@.len() - i,
    {
        fields.push(field(schema[i]));
        i = i + 1;
    }
    let mut columns: Vec<arrow::array::ArrayData> = Vec::new();
    columns.push(zip_id);
    columns.push(utf8_column(c.item_name));
    columns.push(utf8_column(c.item_comment));
    columns.push(u8_column(c.item_method));
    columns.push(timestamp_us_column(c.item_modified));
    columns.push(u32_column(c.item_crc32));
    columns.push(u64_column(c.item_compressed_size));
    columns.push(u64_column(c.item_uncompressed_size));
    assert(columns_fit_fields(fields@, columns@));
    match struct_of(fields, columns) {
        Ok(a) => Ok(a),
        Err(_) => Err(ZipMetaError::EncodingError),
    }
}

} // verus!
