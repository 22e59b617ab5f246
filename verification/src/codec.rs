//! The value codec: from one fetched cell, given by its declared type
//! name and its typed content, to a JSON-compatible value.

use vstd::prelude::*;
use vstd::string::*;
use crate::error::{DbError, DbErrorView};
use crate::names::{with_entry, NameMap};
use crate::temporal::{
    date_text,
    date_time_text,
    show_date,
    show_date_time,
    show_time,
    show_timestamp,
    time_text,
    timestamp_text,
    valid_date,
    valid_date_time,
    valid_time,
    DateTimeValue,
    DateValue,
    TimeValue,
};
use crate::text::same_text;
use crate::value::{finite_bits, number_of_int, DecodedRow, JsonModel, JsonNumber, JsonValue};

verus! {

/// The typed reading that a declared type calls for.
#[derive(Clone, Copy, Debug, PartialEq, Eq, Structural)]
pub enum ColumnKind {
    /// `TINYINT`, `SMALLINT`, `MEDIUMINT`, `INT`, `BIGINT`, `YEAR`.
    Integer,
    /// `FLOAT`, `DOUBLE`.
    Float,
    /// `DECIMAL`, `NEWDECIMAL`.
    Decimal,
    /// `DATETIME`.
    DateTime,
    /// `TIMESTAMP`.
    Timestamp,
    /// `DATE`.
    Date,
    /// `TIME`.
    Time,
    /// `BOOLEAN`.
    Boolean,
    /// Every other type, `ENUM` and the character types among them.
    Text,
}

/// The reading that a declared type name calls for. Names are compared
/// exactly, in upper case as the driver reports them.
pub open spec fn kind_of(declared_type: Seq<char>) -> ColumnKind {
    if declared_type == "TINYINT"@ || declared_type == "SMALLINT"@ || declared_type == "MEDIUMINT"@
        || declared_type == "INT"@ || declared_type == "BIGINT"@ || declared_type == "YEAR"@ {
        ColumnKind::Integer
    } else if declared_type == "FLOAT"@ || declared_type == "DOUBLE"@ {
        ColumnKind::Float
    } else if declared_type == "DECIMAL"@ || declared_type == "NEWDECIMAL"@ {
        ColumnKind::Decimal
    } else if declared_type == "DATETIME"@ {
        ColumnKind::DateTime
    } else if declared_type == "TIMESTAMP"@ {
        ColumnKind::Timestamp
    } else if declared_type == "DATE"@ {
        ColumnKind::Date
    } else if declared_type == "TIME"@ {
        ColumnKind::Time
    } else if declared_type == "BOOLEAN"@ {
        ColumnKind::Boolean
    } else {
        ColumnKind::Text
    }
}

/// An exact decimal: the digits of its unscaled integer, with an
/// optional sign, and the number of those digits that stand after the
/// decimal point.
#[derive(Clone, Debug, PartialEq, Eq)]
pub struct DecimalValue {
    pub unscaled: String,
    pub scale: i64,
}

/// The typed content of a cell that is not null.
#[derive(Clone, Debug, PartialEq, Eq)]
pub enum CellValue {
    Integer(i64),
    /// A 64-bit float, by its IEEE 754 bit pattern.
    Float(u64),
    Decimal(DecimalValue),
    /// A date with a time of day; in UTC for a `TIMESTAMP`.
    DateTime(DateTimeValue),
    Date(DateValue),
    Time(TimeValue),
    Boolean(bool),
    Text(String),
}

/// The mathematical form of a [`CellValue`].
pub enum CellValueView {
    Integer(i64),
    Float(u64),
    Decimal { unscaled: Seq<char>, scale: i64 },
    DateTime(DateTimeValue),
    Date(DateValue),
    Time(TimeValue),
    Boolean(bool),
    Text(Seq<char>),
}

impl View for CellValue {
    type V = CellValueView;

    open spec fn view(&self) -> CellValueView {
        match self {
            CellValue::Integer(i) => CellValueView::Integer(*i),
            CellValue::Float(bits) => CellValueView::Float(*bits),
            CellValue::Decimal(d) => CellValueView::Decimal { unscaled: d.unscaled@, scale: d.scale },
            CellValue::DateTime(v) => CellValueView::DateTime(*v),
            CellValue::Date(v) => CellValueView::Date(*v),
            CellValue::Time(v) => CellValueView::Time(*v),
            CellValue::Boolean(b) => CellValueView::Boolean(*b),
            CellValue::Text(text) => CellValueView::Text(text@),
        }
    }
}

/// What was read from a cell.
#[derive(Clone, Debug, PartialEq, Eq)]
pub enum CellData {
    /// SQL NULL.
    Null,
    /// The content, read as the declared type calls for.
    Value(CellValue),
    /// The content could not be read; the text is the driver's reason.
    Undecodable(String),
}

/// The mathematical form of a [`CellData`].
pub enum CellDataView {
    Null,
    Value(CellValueView),
    Undecodable(Seq<char>),
}

impl View for CellData {
    type V = CellDataView;

    open spec fn view(&self) -> CellDataView {
        match self {
            CellData::Null => CellDataView::Null,
            CellData::Value(value) => CellDataView::Value(value@),
            CellData::Undecodable(reason) => CellDataView::Undecodable(reason@),
        }
    }
}

/// One cell of a fetched row.
#[derive(Clone, Debug, PartialEq, Eq)]
pub struct RawCell {
    /// The name of the column, or its alias.
    pub name: String,
    /// The declared type, as the driver names it.
    pub declared_type: String,
    pub data: CellData,
}

/// The mathematical form of a [`RawCell`].
pub struct RawCellView {
    pub name: Seq<char>,
    pub declared_type: Seq<char>,
    pub data: CellDataView,
}

impl View for RawCell {
    type V = RawCellView;

    open spec fn view(&self) -> RawCellView {
        RawCellView { name: self.name@, declared_type: self.declared_type@, data: self.data@ }
    }
}

/// One fetched row: its cells in column order.
pub type RawRow = Vec<RawCell>;

/// The mathematical form of a fetched row.
pub open spec fn row_view(row: Seq<RawCell>) -> Seq<RawCellView> {
    Seq::new(row.len(), |i: int| row[i]@)
}

/// The mathematical form of fetched rows.
pub open spec fn rows_view(rows: Seq<RawRow>) -> Seq<Seq<RawCellView>> {
    Seq::new(rows.len(), |i: int| row_view(rows[i]@))
}

/// The mathematical form of a decoded row.
pub type RowModel = Seq<(Seq<char>, JsonModel)>;

/// The mathematical form of decoded rows.
pub open spec fn decoded_view(rows: Seq<DecodedRow>) -> Seq<RowModel> {
    Seq::new(rows.len(), |i: int| rows[i]@)
}

/// What decoding a row hands back, in mathematical form.
pub open spec fn row_outcome(r: Result<DecodedRow, DbError>) -> Result<RowModel, DbErrorView> {
    match r {
        Ok(row) => Ok(row@),
        Err(error) => Err(error@),
    }
}

/// What decoding rows hands back, in mathematical form.
pub open spec fn rows_outcome(r: Result<Vec<DecodedRow>, DbError>) -> Result<
    Seq<RowModel>,
    DbErrorView,
> {
    match r {
        Ok(rows) => Ok(decoded_view(rows@)),
        Err(error) => Err(error@),
    }
}

/// The canonical text of an exact decimal, as the `Display` of
/// `bigdecimal::BigDecimal` gives it for the decimal whose unscaled
/// integer is written by `unscaled` and whose scale is `scale`; none
/// where `unscaled` does not write an integer. The text is plain for
/// decimals of moderate size and in exponent notation beyond limits
/// that the bigdecimal crate fixes when it is built.
pub uninterp spec fn decimal_display(unscaled: Seq<char>, scale: int) -> Option<Seq<char>>;

/// Parses the unscaled integer with `str::parse`, which for this type
/// is num-bigint's `BigInt::from_str`, builds the decimal with
/// `BigDecimal::from_bigint` and calls its `Display`. The contract names
/// the outcome and claims nothing more of it.
#[verifier::external_body]
pub(crate) fn show_decimal(unscaled: &str, scale: i64) -> (text: Option<String>)
    ensures
        match text {
            Some(s) => decimal_display(unscaled@, scale as int) == Some(s@),
            None => decimal_display(unscaled@, scale as int) is None,
        },
{
    match unscaled.parse() {
        Ok(digits) => Some(sqlx::types::BigDecimal::from_bigint(digits, scale).to_string()),
        Err(_) => None,
    }
}

/// The reason given when the content of a cell is not of the kind that
/// its declared type calls for.
pub open spec fn mismatch_reason() -> Seq<char> {
    "cell content does not match its declared type"@
}

/// The reason given when the content of a cell is not a value of its
/// kind: a day or a time that does not exist, digits that write no
/// number.
pub open spec fn invalid_reason() -> Seq<char> {
    "cell content is not a valid value of its declared type"@
}

/// A shown text as a JSON string; a value that could not be shown is a
/// decode failure.
pub open spec fn shown(text: Option<Seq<char>>) -> Result<JsonModel, DbErrorView> {
    match text {
        Some(s) => Ok(JsonModel::String(s)),
        None => Err(DbErrorView::Decode(invalid_reason())),
    }
}

/// What a cell decodes to.
///
/// SQL NULL is JSON null whatever the declared type. Content that the
/// driver could not read fails with the driver's reason. Otherwise the
/// declared type decides: integers and finite floats become numbers (a
/// float that is not finite becomes null), booleans stay booleans, and
/// decimals, dates, times and all remaining types become strings.
pub open spec fn decoded(declared_type: Seq<char>, data: CellDataView) -> Result<
    JsonModel,
    DbErrorView,
> {
    match data {
        CellDataView::Null => Ok(JsonModel::Null),
        CellDataView::Undecodable(reason) => Err(DbErrorView::Decode(reason)),
        CellDataView::Value(value) => match (kind_of(declared_type), value) {
            (ColumnKind::Integer, CellValueView::Integer(i)) => Ok(
                JsonModel::Number(number_of_int(i)),
            ),
            (ColumnKind::Float, CellValueView::Float(bits)) => if finite_bits(bits) {
                Ok(JsonModel::Number(JsonNumber::Float(bits)))
            } else {
                Ok(JsonModel::Null)
            },
            (ColumnKind::Decimal, CellValueView::Decimal { unscaled, scale }) => shown(
                decimal_display(unscaled, scale as int),
            ),
            (ColumnKind::DateTime, CellValueView::DateTime(v)) => shown(
                if valid_date_time(v) {
                    Some(date_time_text(v))
                } else {
                    None
                },
            ),
            (ColumnKind::Timestamp, CellValueView::DateTime(v)) => shown(
                if valid_date_time(v) {
                    Some(timestamp_text(v))
                } else {
                    None
                },
            ),
            (ColumnKind::Date, CellValueView::Date(v)) => shown(
                if valid_date(v) {
                    Some(date_text(v))
                } else {
                    None
                },
            ),
            (ColumnKind::Time, CellValueView::Time(v)) => shown(
                if valid_time(v) {
                    Some(time_text(v))
                } else {
                    None
                },
            ),
            (ColumnKind::Boolean, CellValueView::Boolean(b)) => Ok(JsonModel::Bool(b)),
            (ColumnKind::Text, CellValueView::Text(text)) => Ok(JsonModel::String(text)),
            _ => Err(DbErrorView::Decode(mismatch_reason())),
        },
    }
}

/// The row decoded from the first `count` cells: each value stands
/// under the name of its cell, a later cell of the same name replaces
/// an earlier one, and the first cell that fails fails the row.
pub open spec fn decoded_row(cells: Seq<RawCellView>, count: nat) -> Result<RowModel, DbErrorView>
    decreases count,
{
    if count == 0 {
        Ok(Seq::empty())
    } else {
        match decoded_row(cells, (count - 1) as nat) {
            Err(error) => Err(error),
            Ok(entries) => match decoded(cells[count - 1].declared_type, cells[count - 1].data) {
                Err(error) => Err(error),
                Ok(value) => Ok(with_entry(entries, cells[count - 1].name, value)),
            },
        }
    }
}

/// What reading the first `count` rows with `read` gives: the readings
/// in row order, or the failure of the first row that fails.
pub open spec fn collected<T>(
    rows: Seq<Seq<RawCellView>>,
    read: spec_fn(Seq<RawCellView>) -> Result<T, DbErrorView>,
    count: nat,
) -> Result<Seq<T>, DbErrorView>
    decreases count,
{
    if count == 0 {
        Ok(Seq::empty())
    } else {
        match collected(rows, read, (count - 1) as nat) {
            Err(error) => Err(error),
            Ok(done) => match read(rows[count - 1]) {
                Err(error) => Err(error),
                Ok(reading) => Ok(done.push(reading)),
            },
        }
    }
}

/// A fetch that fails within its first `count` rows fails with the
/// same error however many rows follow.
pub proof fn lemma_failure_stays<T>(
    rows: Seq<Seq<RawCellView>>,
    read: spec_fn(Seq<RawCellView>) -> Result<T, DbErrorView>,
    count: nat,
    more: nat,
)
    requires
        count <= more,
        collected(rows, read, count) is Err,
    ensures
        collected(rows, read, more) == collected(rows, read, count),
    decreases more,
{
    if count < more {
        lemma_failure_stays(rows, read, count, (more - 1) as nat);
    }
}

/// A fetch that succeeds gives one reading per row, each that of its
/// row.
pub proof fn lemma_collected_rows<T>(
    rows: Seq<Seq<RawCellView>>,
    read: spec_fn(Seq<RawCellView>) -> Result<T, DbErrorView>,
    count: nat,
)
    requires
        collected(rows, read, count) is Ok,
    ensures
        collected(rows, read, count)->Ok_0.len() == count,
        forall|i: int|
            0 <= i < count ==> read(rows[i]) == Ok::<T, DbErrorView>(
                #[trigger] collected(rows, read, count)->Ok_0[i],
            ),
    decreases count,
{
    if count > 0 {
        lemma_collected_rows(rows, read, (count - 1) as nat);
    }
}

/// All rows decoded; the first row that fails fails the whole fetch.
pub open spec fn decoded_rows(rows: Seq<Seq<RawCellView>>, count: nat) -> Result<
    Seq<RowModel>,
    DbErrorView,
> {
    collected(rows, |row: Seq<RawCellView>| decoded_row(row, row.len()), count)
}

/// Picks the reading that a declared type name calls for.
pub fn column_kind(declared_type: &str) -> (kind: ColumnKind)
    ensures
        kind == kind_of(declared_type@),
{
    if same_text(declared_type, "TINYINT") || same_text(declared_type, "SMALLINT") || same_text(
        declared_type,
        "MEDIUMINT",
    ) || same_text(declared_type, "INT") || same_text(declared_type, "BIGINT") || same_text(
        declared_type,
        "YEAR",
    ) {
        ColumnKind::Integer
    } else if same_text(declared_type, "FLOAT") || same_text(declared_type, "DOUBLE") {
        ColumnKind::Float
    } else if same_text(declared_type, "DECIMAL") || same_text(declared_type, "NEWDECIMAL") {
        ColumnKind::Decimal
    } else if same_text(declared_type, "DATETIME") {
        ColumnKind::DateTime
    } else if same_text(declared_type, "TIMESTAMP") {
        ColumnKind::Timestamp
    } else if same_text(declared_type, "DATE") {
        ColumnKind::Date
    } else if same_text(declared_type, "TIME") {
        ColumnKind::Time
    } else if same_text(declared_type, "BOOLEAN") {
        ColumnKind::Boolean
    } else {
        ColumnKind::Text
    }
}

/// Turns a shown text into a JSON string; a value that could not be
/// shown is a decode failure.
pub fn shown_cell(text: Option<String>) -> (r: Result<JsonValue, DbError>)
    ensures
        match r {
            Ok(value) => text matches Some(s) && value@ == JsonModel::String(s@),
            Err(error) => text is None && error@ == DbErrorView::Decode(invalid_reason()),
        },
{
    match text {
        Some(s) => Ok(JsonValue::String(s)),
        None => Err(
            DbError::Decode(String::from_str("cell content is not a valid value of its declared type")),
        ),
    }
}

/// What a decoder hands back, in mathematical form.
pub open spec fn value_outcome(r: Result<JsonValue, DbError>) -> Result<JsonModel, DbErrorView> {
    match r {
        Ok(value) => Ok(value@),
        Err(error) => Err(error@),
    }
}

/// Decodes one cell, given its declared type name and what was read
/// from it.
pub fn decode_cell(declared_type: &str, data: &CellData) -> (r: Result<JsonValue, DbError>)
    ensures
        value_outcome(r) == decoded(declared_type@, data@),
        data@ is Null ==> (r matches Ok(value) && value@ is Null),
{
    match data {
        CellData::Null => Ok(JsonValue::Null),
        CellData::Undecodable(reason) => Err(DbError::Decode(reason.clone())),
        CellData::Value(value) => {
            let kind = column_kind(declared_type);
            match (kind, value) {
                (ColumnKind::Integer, CellValue::Integer(i)) => Ok(
                    JsonValue::Number(JsonNumber::from_i64(*i)),
                ),
                (ColumnKind::Float, CellValue::Float(bits)) => match JsonNumber::from_float_bits(
                    *bits,
                ) {
                    Some(n) => Ok(JsonValue::Number(n)),
                    None => Ok(JsonValue::Null),
                },
                (ColumnKind::Decimal, CellValue::Decimal(d)) => shown_cell(
                    show_decimal(d.unscaled.as_str(), d.scale),
                ),
                (ColumnKind::DateTime, CellValue::DateTime(v)) => shown_cell(show_date_time(*v)),
                (ColumnKind::Timestamp, CellValue::DateTime(v)) => shown_cell(show_timestamp(*v)),
                (ColumnKind::Date, CellValue::Date(v)) => shown_cell(show_date(*v)),
                (ColumnKind::Time, CellValue::Time(v)) => shown_cell(show_time(*v)),
                (ColumnKind::Boolean, CellValue::Boolean(b)) => Ok(JsonValue::Bool(*b)),
                (ColumnKind::Text, CellValue::Text(text)) => Ok(JsonValue::String(text.clone())),
                _ => Err(
                    DbError::Decode(String::from_str("cell content does not match its declared type")),
                ),
            }
        },
    }
}

/// Decodes one fetched row.
pub fn row_to_json(row: &RawRow) -> (r: Result<DecodedRow, DbError>)
    ensures
        row_outcome(r) == decoded_row(row_view(row@), row@.len()),
{
    let mut object: DecodedRow = NameMap::new();
    let mut i: usize = 0;
    while i < row.len()
        invariant
            i <= row@.len(),
            decoded_row(row_view(row@), i as nat) == Ok::<RowModel, DbErrorView>(object@),
        decreases row@.len() - i,
    {
        let cell = &row[i];
        assert(row_view(row@)[i as int] == cell@);
        match decode_cell(cell.declared_type.as_str(), &cell.data) {
            Err(error) => {
                proof {
                    lemma_row_failure_stays(row_view(row@), (i + 1) as nat, row@.len());
                }
                return Err(error);
            },
            Ok(value) => {
                object.insert(cell.name.clone(), value);
            },
        }
        i += 1;
    }
    Ok(object)
}

/// A row that fails within its first `count` cells fails with the same
/// error however many cells follow.
pub proof fn lemma_row_failure_stays(cells: Seq<RawCellView>, count: nat, more: nat)
    requires
        count <= more,
        decoded_row(cells, count) is Err,
    ensures
        decoded_row(cells, more) == decoded_row(cells, count),
    decreases more,
{
    if count < more {
        lemma_row_failure_stays(cells, count, (more - 1) as nat);
    }
}

/// Decodes fetched rows, in order. One cell that fails fails the whole
/// fetch: no partly decoded set is handed back.
pub fn rows_to_json(rows: &Vec<RawRow>) -> (r: Result<Vec<DecodedRow>, DbError>)
    ensures
        rows_outcome(r) == decoded_rows(rows_view(rows@), rows@.len()),
{
    let mut done: Vec<DecodedRow> = Vec::new();
    assert(decoded_view(done@) =~= Seq::<RowModel>::empty());
    let mut i: usize = 0;
    while i < rows.len()
        invariant
            i <= rows@.len(),
            decoded_rows(rows_view(rows@), i as nat) == Ok::<Seq<RowModel>, DbErrorView>(
                decoded_view(done@),
            ),
        decreases rows@.len() - i,
    {
        assert(rows_view(rows@)[i as int] == row_view(rows@[i as int]@));
        match row_to_json(&rows[i]) {
            Err(error) => {
                proof {
                    lemma_failure_stays(
                        rows_view(rows@),
                        |row: Seq<RawCellView>| decoded_row(row, row.len()),
                        (i + 1) as nat,
                        rows@.len(),
                    );
                }
                return Err(error);
            },
            Ok(row) => {
                let ghost before = decoded_view(done@);
                done.push(row);
                assert(decoded_view(done@) =~= before.push(row@));
            },
        }
        i += 1;
    }
    Ok(done)
}

/// SQL NULL decodes to JSON null whatever the declared type.
pub proof fn lemma_null_decodes_to_null(declared_type: Seq<char>)
    ensures
        decoded(declared_type, CellDataView::Null) == Ok::<JsonModel, DbErrorView>(JsonModel::Null),
{
}

} // verus!
