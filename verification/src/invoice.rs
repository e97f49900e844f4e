//! Reading a stored wallet transaction back from a database row. The row
//! keeps the 64-bit amounts as two 32-bit halves and the timestamps, type and
//! metadata as JSON text.

use vstd::prelude::*;
use vstd::utf8::{decode_utf8, valid_utf8};
use crate::chars::utf8_text;

verus! {

#[verifier::external_type_specification]
#[verifier::external_body]
pub struct ExJsonValue(serde_json::Value);

/// One column value of a result row, as SQLite stores it. A floating-point
/// value is only told apart: nothing here reads its number.
#[derive(Clone, Debug, PartialEq, Eq)]
pub enum SqlValue {
    Null,
    Integer(i64),
    Real,
    Text(Vec<u8>),
    Blob(Vec<u8>),
}

pub enum SqlValueView {
    Null,
    Integer(i64),
    Real,
    Text(Seq<u8>),
    Blob(Seq<u8>),
}

impl View for SqlValue {
    type V = SqlValueView;

    open spec fn view(&self) -> SqlValueView {
        match self {
            SqlValue::Null => SqlValueView::Null,
            SqlValue::Integer(i) => SqlValueView::Integer(*i),
            SqlValue::Real => SqlValueView::Real,
            SqlValue::Text(b) => SqlValueView::Text(b@),
            SqlValue::Blob(b) => SqlValueView::Blob(b@),
        }
    }
}

/// Why a column could not be read.
#[derive(Clone, Copy, Debug, PartialEq, Eq, Structural)]
pub enum RowError {
    /// The row has no column with this index.
    InvalidColumnIndex(usize),
    /// The column holds a value of another type.
    InvalidColumnType(usize),
    /// The column holds text that is not UTF-8.
    ConversionFailure(usize),
}

/// Whether a payment came in or went out.
#[derive(Clone, Copy, Debug, PartialEq, Eq, Structural)]
pub enum TransactionKind {
    Incoming,
    Outgoing,
}

/// A wallet transaction read from a row. Amounts are in millisatoshis and
/// times in seconds since the Unix epoch.
#[derive(Clone, Debug, PartialEq)]
pub struct InvoiceRecord {
    pub transaction_type: Option<TransactionKind>,
    pub invoice: Option<String>,
    pub description: Option<String>,
    pub description_hash: Option<String>,
    pub preimage: Option<String>,
    pub payment_hash: String,
    pub amount: u64,
    pub fees_paid: u64,
    pub created_at: u64,
    pub expires_at: Option<u64>,
    pub settled_at: Option<u64>,
    pub metadata: Option<serde_json::Value>,
}

/// The abstract value of an [`InvoiceRecord`].
pub struct InvoiceView {
    pub transaction_type: Option<TransactionKind>,
    pub invoice: Option<Seq<char>>,
    pub description: Option<Seq<char>>,
    pub description_hash: Option<Seq<char>>,
    pub preimage: Option<Seq<char>>,
    pub payment_hash: Seq<char>,
    pub amount: u64,
    pub fees_paid: u64,
    pub created_at: u64,
    pub expires_at: Option<u64>,
    pub settled_at: Option<u64>,
    pub metadata: Option<serde_json::Value>,
}

pub open spec fn opt_string_view(s: Option<String>) -> Option<Seq<char>> {
    match s {
        Some(t) => Some(t@),
        None => None,
    }
}

impl View for InvoiceRecord {
    type V = InvoiceView;

    open spec fn view(&self) -> InvoiceView {
        InvoiceView {
            transaction_type: self.transaction_type,
            invoice: opt_string_view(self.invoice),
            description: opt_string_view(self.description),
            description_hash: opt_string_view(self.description_hash),
            preimage: opt_string_view(self.preimage),
            payment_hash: self.payment_hash@,
            amount: self.amount,
            fees_paid: self.fees_paid,
            created_at: self.created_at,
            expires_at: self.expires_at,
            settled_at: self.settled_at,
            metadata: self.metadata,
        }
    }
}

/// What reading a row comes to: a row whose JSON columns do not parse cannot
/// be read at all; a row with a column of the wrong kind fails with that
/// column's error; any other row gives a record.
pub enum RowOutcome {
    Unreadable,
    Fails(RowError),
    Reads(InvoiceView),
}

/// What `serde_json::from_str::<Option<TransactionType>>` gives for `text`:
/// `None` when it fails.
pub uninterp spec fn json_transaction_type(text: Seq<char>) -> Option<Option<TransactionKind>>;

/// What `serde_json::from_str::<Option<Timestamp>>` gives for `text`, the
/// timestamp in seconds: `None` when it fails.
pub uninterp spec fn json_timestamp(text: Seq<char>) -> Option<Option<u64>>;

/// What `serde_json::from_str::<Option<Option<Timestamp>>>` gives for
/// `text`: `None` when it fails.
pub uninterp spec fn json_nested_timestamp(text: Seq<char>) -> Option<Option<Option<u64>>>;

/// What `serde_json::from_str::<Value>` gives for `text`: `None` when it
/// fails.
pub uninterp spec fn json_value(text: Seq<char>) -> Option<serde_json::Value>;

/// `serde_json::from_str::<Option<TransactionType>>`, with the type
/// told apart by variant; the result is named by [`json_transaction_type`].
#[verifier::external_body]
fn parse_transaction_type(text: &str) -> (r: Option<Option<TransactionKind>>)
    ensures
        r == json_transaction_type(text@),
{
    match serde_json::from_str::<Option<nwc::prelude::TransactionType>>(text) {
        Ok(Some(nwc::prelude::TransactionType::Incoming)) => Some(Some(TransactionKind::Incoming)),
        Ok(Some(nwc::prelude::TransactionType::Outgoing)) => Some(Some(TransactionKind::Outgoing)),
        Ok(None) => Some(None),
        Err(_) => None,
    }
}

/// `serde_json::from_str::<Option<Timestamp>>`, the timestamp as seconds;
/// the result is named by [`json_timestamp`].
#[verifier::external_body]
fn parse_timestamp(text: &str) -> (r: Option<Option<u64>>)
    ensures
        r == json_timestamp(text@),
{
    match serde_json::from_str::<Option<nwc::prelude::Timestamp>>(text) {
        Ok(t) => Some(t.map(|t| t.as_secs())),
        Err(_) => None,
    }
}

/// `serde_json::from_str::<Option<Option<Timestamp>>>`, the timestamp as
/// seconds; the result is named by [`json_nested_timestamp`].
#[verifier::external_body]
fn parse_nested_timestamp(text: &str) -> (r: Option<Option<Option<u64>>>)
    ensures
        r == json_nested_timestamp(text@),
{
    match serde_json::from_str::<Option<Option<nwc::prelude::Timestamp>>>(text) {
        Ok(t) => Some(t.map(|t| t.map(|t| t.as_secs()))),
        Err(_) => None,
    }
}

/// `serde_json::from_str::<Value>`; the result is named by [`json_value`].
#[verifier::external_body]
fn parse_json_value(text: &str) -> (r: Option<serde_json::Value>)
    ensures
        r == json_value(text@),
{
    serde_json::from_str::<serde_json::Value>(text).ok()
}

/// The 64-bit number whose high half is `high` and whose low half is `low`,
/// as `((high as u64) << 32) | (low as u64)` computes it.
pub open spec fn join_halves(high: i64, low: i64) -> u64 {
    ((high as u64) << 32u64) | (low as u64)
}

/// Joins a 64-bit amount from its two stored halves.
pub fn join_amount_halves(high: i64, low: i64) -> (r: u64)
    ensures
        r == join_halves(high, low),
{
    ((high as u64) << 32u64) | (low as u64)
}

proof fn lemma_split_join(a: u64)
    by (bit_vector)
    ensures
        ((((a >> 32u64) as i64) as u64) << 32u64) | (((a & 0xffff_ffffu64) as i64) as u64) == a,
{
}

/// An amount stored as its two 32-bit halves reads back whole: joining
/// `a >> 32` and `a & 0xffff_ffff` gives `a`.
pub proof fn law_join_split_halves(a: u64)
    ensures
        join_halves((a >> 32u64) as i64, (a & 0xffff_ffffu64) as i64) == a,
{
    lemma_split_join(a);
}

/// Reading column `i` as text (`Row::get::<String>`).
pub open spec fn column_text(row: Seq<SqlValueView>, i: int) -> Result<Seq<char>, RowError> {
    if i < 0 || i >= row.len() {
        Err(RowError::InvalidColumnIndex(i as usize))
    } else {
        match row[i] {
            SqlValueView::Text(b) => if valid_utf8(b) {
                Ok(decode_utf8(b))
            } else {
                Err(RowError::ConversionFailure(i as usize))
            },
            _ => Err(RowError::InvalidColumnType(i as usize)),
        }
    }
}

/// Reading column `i` as optional text (`Row::get::<Option<String>>`).
pub open spec fn column_optional_text(row: Seq<SqlValueView>, i: int) -> Result<Option<Seq<char>>, RowError> {
    if 0 <= i < row.len() && row[i] is Null {
        Ok(None)
    } else {
        match column_text(row, i) {
            Ok(t) => Ok(Some(t)),
            Err(e) => Err(e),
        }
    }
}

/// Reading column `i` as an integer (`Row::get::<i64>`).
pub open spec fn column_integer(row: Seq<SqlValueView>, i: int) -> Result<i64, RowError> {
    if i < 0 || i >= row.len() {
        Err(RowError::InvalidColumnIndex(i as usize))
    } else {
        match row[i] {
            SqlValueView::Integer(v) => Ok(v),
            _ => Err(RowError::InvalidColumnType(i as usize)),
        }
    }
}

/// The text of column `i`, or nothing when it cannot be read as text
/// (`row.get(i).ok()`).
pub open spec fn text_or_none(row: Seq<SqlValueView>, i: int) -> Option<Seq<char>> {
    match column_text(row, i) {
        Ok(t) => Some(t),
        Err(_) => None,
    }
}

/// What parsing the JSON columns of a row gave. Each field is the parse of
/// that column's text (`None` where the text does not parse) and is consulted
/// only where the column holds text: the transaction type (column 0), the
/// creation time (column 10), the expiry (column 11), the settlement time
/// (column 12) and the metadata (column 13).
#[derive(Clone, Debug, PartialEq)]
pub struct JsonColumns {
    pub transaction_type: Option<Option<TransactionKind>>,
    pub created_at: Option<Option<u64>>,
    pub expires_at: Option<Option<u64>>,
    pub settled_at: Option<Option<Option<u64>>>,
    pub metadata: Option<serde_json::Value>,
}

/// The JSON columns of `row` as serde_json parses their texts.
pub open spec fn json_columns_of(row: Seq<SqlValueView>) -> JsonColumns {
    JsonColumns {
        transaction_type: match text_or_none(row, 0) {
            Some(t) => json_transaction_type(t),
            None => None,
        },
        created_at: match text_or_none(row, 10) {
            Some(t) => json_timestamp(t),
            None => None,
        },
        expires_at: match text_or_none(row, 11) {
            Some(t) => json_timestamp(t),
            None => None,
        },
        settled_at: match text_or_none(row, 12) {
            Some(t) => json_nested_timestamp(t),
            None => None,
        },
        metadata: match column_optional_text(row, 13) {
            Ok(Some(t)) => json_value(t),
            _ => None,
        },
    }
}

/// Whether column 0, when it holds text, parsed as an optional transaction
/// type.
pub open spec fn type_column_ok(row: Seq<SqlValueView>, j: JsonColumns) -> bool {
    text_or_none(row, 0) is Some ==> j.transaction_type is Some
}

/// The transaction type that column 0 gives.
pub open spec fn type_of_row(row: Seq<SqlValueView>, j: JsonColumns) -> Option<TransactionKind> {
    match text_or_none(row, 0) {
        Some(_) => j.transaction_type->Some_0,
        None => None,
    }
}

/// Whether the creation time (column 10) holds text that parsed as a
/// timestamp.
pub open spec fn created_column_ok(row: Seq<SqlValueView>, j: JsonColumns) -> bool {
    text_or_none(row, 10) is Some && j.created_at matches Some(Some(_))
}

/// Whether the expiry (column 11), when it holds text, parsed as an optional
/// timestamp.
pub open spec fn expires_column_ok(row: Seq<SqlValueView>, j: JsonColumns) -> bool {
    text_or_none(row, 11) is Some ==> j.expires_at is Some
}

/// The expiry that column 11 gives.
pub open spec fn expires_of_row(row: Seq<SqlValueView>, j: JsonColumns) -> Option<u64> {
    match text_or_none(row, 11) {
        Some(_) => j.expires_at->Some_0,
        None => None,
    }
}

/// Whether the settlement time (column 12) holds text that parsed as a JSON
/// value that is not `null`.
pub open spec fn settled_column_ok(row: Seq<SqlValueView>, j: JsonColumns) -> bool {
    text_or_none(row, 12) is Some && j.settled_at matches Some(Some(_))
}

/// Whether the metadata (column 13), when it holds text, parsed as JSON.
pub open spec fn metadata_ok(meta: Option<Seq<char>>, j: JsonColumns) -> bool {
    meta is Some ==> j.metadata is Some
}

/// What reading a stored transaction from a row gives, taking the columns in
/// order, where parsing its JSON columns gave `j`.
pub open spec fn read_row_with(row: Seq<SqlValueView>, j: JsonColumns) -> RowOutcome {
    if !type_column_ok(row, j) {
        RowOutcome::Unreadable
    } else if column_text(row, 5) is Err {
        RowOutcome::Fails(column_text(row, 5)->Err_0)
    } else if column_integer(row, 6) is Err {
        RowOutcome::Fails(column_integer(row, 6)->Err_0)
    } else if column_integer(row, 7) is Err {
        RowOutcome::Fails(column_integer(row, 7)->Err_0)
    } else if column_integer(row, 8) is Err {
        RowOutcome::Fails(column_integer(row, 8)->Err_0)
    } else if column_integer(row, 9) is Err {
        RowOutcome::Fails(column_integer(row, 9)->Err_0)
    } else if !created_column_ok(row, j) || !expires_column_ok(row, j) || !settled_column_ok(row, j) {
        RowOutcome::Unreadable
    } else if column_optional_text(row, 13) is Err {
        RowOutcome::Fails(column_optional_text(row, 13)->Err_0)
    } else if !metadata_ok(column_optional_text(row, 13)->Ok_0, j) {
        RowOutcome::Unreadable
    } else {
        RowOutcome::Reads(InvoiceView {
            transaction_type: type_of_row(row, j),
            invoice: text_or_none(row, 1),
            description: text_or_none(row, 2),
            description_hash: text_or_none(row, 3),
            preimage: text_or_none(row, 4),
            payment_hash: column_text(row, 5)->Ok_0,
            amount: join_halves(column_integer(row, 6)->Ok_0, column_integer(row, 7)->Ok_0),
            fees_paid: join_halves(column_integer(row, 8)->Ok_0, column_integer(row, 9)->Ok_0),
            created_at: j.created_at->Some_0->Some_0,
            expires_at: expires_of_row(row, j),
            settled_at: j.settled_at->Some_0->Some_0,
            metadata: match column_optional_text(row, 13)->Ok_0 {
                Some(_) => j.metadata,
                None => None,
            },
        })
    }
}

/// What reading a stored transaction from a row gives, its JSON columns
/// parsed by serde_json.
pub open spec fn read_invoice_row(row: Seq<SqlValueView>) -> RowOutcome {
    read_row_with(row, json_columns_of(row))
}

pub open spec fn row_view(row: Seq<SqlValue>) -> Seq<SqlValueView> {
    row.map_values(|v: SqlValue| v@)
}

fn get_text(row: &Vec<SqlValue>, i: usize) -> (r: Result<String, RowError>)
    ensures
        match r {
            Ok(s) => column_text(row_view(row@), i as int) == Ok::<Seq<char>, RowError>(s@),
            Err(e) => column_text(row_view(row@), i as int) == Err::<Seq<char>, RowError>(e),
        },
{
    if i >= row.len() {
        return Err(RowError::InvalidColumnIndex(i));
    }
    match &row[i] {
        SqlValue::Text(bytes) => match utf8_text(bytes.as_slice()) {
            Some(s) => Ok(s.to_string()),
            None => Err(RowError::ConversionFailure(i)),
        },
        _ => Err(RowError::InvalidColumnType(i)),
    }
}

fn get_optional_text(row: &Vec<SqlValue>, i: usize) -> (r: Result<Option<String>, RowError>)
    ensures
        match r {
            Ok(s) => column_optional_text(row_view(row@), i as int) == Ok::<Option<Seq<char>>, RowError>(opt_string_view(s)),
            Err(e) => column_optional_text(row_view(row@), i as int) == Err::<Option<Seq<char>>, RowError>(e),
        },
{
    if i < row.len() {
        if let SqlValue::Null = &row[i] {
            return Ok(None);
        }
    }
    match get_text(row, i) {
        Ok(s) => Ok(Some(s)),
        Err(e) => Err(e),
    }
}

fn get_integer(row: &Vec<SqlValue>, i: usize) -> (r: Result<i64, RowError>)
    ensures
        r == column_integer(row_view(row@), i as int),
{
    if i >= row.len() {
        return Err(RowError::InvalidColumnIndex(i));
    }
    match &row[i] {
        SqlValue::Integer(v) => Ok(*v),
        _ => Err(RowError::InvalidColumnType(i)),
    }
}

fn text_or_nothing(row: &Vec<SqlValue>, i: usize) -> (r: Option<String>)
    ensures
        opt_string_view(r) == text_or_none(row_view(row@), i as int),
{
    match get_text(row, i) {
        Ok(s) => Some(s),
        Err(_) => None,
    }
}

/// Parses the JSON columns of `row` that hold text.
pub fn parse_json_columns(row: &Vec<SqlValue>) -> (r: JsonColumns)
    ensures
        r == json_columns_of(row_view(row@)),
{
    let transaction_type = match text_or_nothing(row, 0) {
        Some(t) => parse_transaction_type(t.as_str()),
        None => None,
    };
    let created_at = match text_or_nothing(row, 10) {
        Some(t) => parse_timestamp(t.as_str()),
        None => None,
    };
    let expires_at = match text_or_nothing(row, 11) {
        Some(t) => parse_timestamp(t.as_str()),
        None => None,
    };
    let settled_at = match text_or_nothing(row, 12) {
        Some(t) => parse_nested_timestamp(t.as_str()),
        None => None,
    };
    let metadata = match get_optional_text(row, 13) {
        Ok(Some(t)) => parse_json_value(t.as_str()),
        _ => None,
    };
    JsonColumns { transaction_type, created_at, expires_at, settled_at, metadata }
}

/// Reads a stored transaction from the columns of a row, where parsing its
/// JSON columns gave `j` and the row is not unreadable.
pub fn invoice_from_columns(row: &Vec<SqlValue>, j: JsonColumns) -> (r: Result<InvoiceRecord, RowError>)
    requires
        !(read_row_with(row_view(row@), j) is Unreadable),
    ensures
        match r {
            Ok(rec) => read_row_with(row_view(row@), j) == RowOutcome::Reads(rec@),
            Err(e) => read_row_with(row_view(row@), j) == RowOutcome::Fails(e),
        },
{
    let transaction_type = match text_or_nothing(row, 0) {
        Some(_) => match j.transaction_type {
            Some(k) => k,
            None => None,
        },
        None => None,
    };
    let invoice = text_or_nothing(row, 1);
    let description = text_or_nothing(row, 2);
    let description_hash = text_or_nothing(row, 3);
    let preimage = text_or_nothing(row, 4);
    let payment_hash = match get_text(row, 5) {
        Ok(s) => s,
        Err(e) => return Err(e),
    };
    let amount_high = match get_integer(row, 6) {
        Ok(v) => v,
        Err(e) => return Err(e),
    };
    let amount_low = match get_integer(row, 7) {
        Ok(v) => v,
        Err(e) => return Err(e),
    };
    let amount = join_amount_halves(amount_high, amount_low);
    let fees_high = match get_integer(row, 8) {
        Ok(v) => v,
        Err(e) => return Err(e),
    };
    let fees_low = match get_integer(row, 9) {
        Ok(v) => v,
        Err(e) => return Err(e),
    };
    let fees_paid = join_amount_halves(fees_high, fees_low);
    let created_at = match j.created_at {
        Some(Some(ts)) => ts,
        _ => 0,
    };
    let expires_at = match text_or_nothing(row, 11) {
        Some(_) => match j.expires_at {
            Some(ts) => ts,
            None => None,
        },
        None => None,
    };
    let settled_at = match j.settled_at {
        Some(Some(ts)) => ts,
        _ => None,
    };
    let metadata_text = match get_optional_text(row, 13) {
        Ok(m) => m,
        Err(e) => return Err(e),
    };
    let metadata = match metadata_text {
        Some(_) => j.metadata,
        None => None,
    };
    let rec = InvoiceRecord {
        transaction_type,
        invoice,
        description,
        description_hash,
        preimage,
        payment_hash,
        amount,
        fees_paid,
        created_at,
        expires_at,
        settled_at,
        metadata,
    };
    Ok(rec)
}

/// Whether a row cannot be read at all, where parsing its JSON columns gave
/// `j`: one of them does not parse as it must.
pub fn columns_unreadable(row: &Vec<SqlValue>, j: &JsonColumns) -> (b: bool)
    ensures
        b == (read_row_with(row_view(row@), *j) is Unreadable),
{
    let type_ok = match text_or_nothing(row, 0) {
        Some(_) => j.transaction_type.is_some(),
        None => true,
    };
    if !type_ok {
        return true;
    }
    if get_text(row, 5).is_err() || get_integer(row, 6).is_err() || get_integer(row, 7).is_err()
        || get_integer(row, 8).is_err() || get_integer(row, 9).is_err() {
        return false;
    }
    let created_ok = match text_or_nothing(row, 10) {
        Some(_) => match j.created_at {
            Some(Some(_)) => true,
            _ => false,
        },
        None => false,
    };
    let expires_ok = match text_or_nothing(row, 11) {
        Some(_) => j.expires_at.is_some(),
        None => true,
    };
    let settled_ok = match text_or_nothing(row, 12) {
        Some(_) => match j.settled_at {
            Some(Some(_)) => true,
            _ => false,
        },
        None => false,
    };
    if !created_ok || !expires_ok || !settled_ok {
        return true;
    }
    match get_optional_text(row, 13) {
        Err(_) => false,
        Ok(None) => false,
        Ok(Some(_)) => j.metadata.is_none(),
    }
}

/// Reads a stored transaction from the columns of a row that is not
/// unreadable.
pub fn invoice_from_row(row: &Vec<SqlValue>) -> (r: Result<InvoiceRecord, RowError>)
    requires
        !(read_invoice_row(row_view(row@)) is Unreadable),
    ensures
        match r {
            Ok(rec) => read_invoice_row(row_view(row@)) == RowOutcome::Reads(rec@),
            Err(e) => read_invoice_row(row_view(row@)) == RowOutcome::Fails(e),
        },
{
    let j = parse_json_columns(row);
    invoice_from_columns(row, j)
}

/// Reads a stored transaction from a row: `None` on a row that cannot be read
/// at all, otherwise what [`invoice_from_row`] reads.
pub fn try_invoice_from_row(row: &Vec<SqlValue>) -> (r: Option<Result<InvoiceRecord, RowError>>)
    ensures
        r is None <==> read_invoice_row(row_view(row@)) is Unreadable,
        r matches Some(Ok(rec)) ==> read_invoice_row(row_view(row@)) == RowOutcome::Reads(rec@),
        r matches Some(Err(e)) ==> read_invoice_row(row_view(row@)) == RowOutcome::Fails(e),
{
    let j = parse_json_columns(row);
    if columns_unreadable(row, &j) {
        None
    } else {
        Some(invoice_from_columns(row, j))
    }
}

/// Whether the row cannot be read at all: one of its JSON columns does not
/// parse as it must.
pub fn invoice_row_unreadable(row: &Vec<SqlValue>) -> (b: bool)
    ensures
        b == (read_invoice_row(row_view(row@)) is Unreadable),
{
    let j = parse_json_columns(row);
    columns_unreadable(row, &j)
}

/// What a column read gives: text that is UTF-8 reads as its characters and
/// other text fails to convert; `NULL` reads as no text where the column is
/// optional; an integer reads as itself; any other value, and a column past
/// the end of the row, fails with an error that names the column.
pub proof fn law_column_reads(row: Seq<SqlValueView>, i: int)
    ensures
        i < 0 || i >= row.len() ==> column_text(row, i) == Err::<Seq<char>, RowError>(RowError::InvalidColumnIndex(i as usize))
            && column_integer(row, i) == Err::<i64, RowError>(RowError::InvalidColumnIndex(i as usize)),
        0 <= i < row.len() ==> match row[i] {
            SqlValueView::Text(b) => column_text(row, i) == (if valid_utf8(b) {
                Ok::<Seq<char>, RowError>(decode_utf8(b))
            } else {
                Err::<Seq<char>, RowError>(RowError::ConversionFailure(i as usize))
            }) && column_integer(row, i) == Err::<i64, RowError>(RowError::InvalidColumnType(i as usize)),
            SqlValueView::Integer(v) => column_integer(row, i) == Ok::<i64, RowError>(v)
                && column_text(row, i) == Err::<Seq<char>, RowError>(RowError::InvalidColumnType(i as usize)),
            SqlValueView::Null => column_optional_text(row, i) == Ok::<Option<Seq<char>>, RowError>(None)
                && column_text(row, i) == Err::<Seq<char>, RowError>(RowError::InvalidColumnType(i as usize)),
            _ => column_text(row, i) == Err::<Seq<char>, RowError>(RowError::InvalidColumnType(i as usize))
                && column_integer(row, i) == Err::<i64, RowError>(RowError::InvalidColumnType(i as usize)),
        },
        column_text(row, i) matches Ok(t) ==> column_optional_text(row, i) == Ok::<Option<Seq<char>>, RowError>(Some(t))
            && text_or_none(row, i) == Some(t),
        column_text(row, i) is Err ==> text_or_none(row, i) is None,
{
}

/// A record read from a row holds what its columns hold, whatever the
/// transaction type: the texts of columns 1 to 4 where they read as text,
/// the payment hash of column 5, the amount and the fees joined from columns
/// 6 and 7 and from columns 8 and 9, the parsed creation time and
/// settlement time, the parsed expiry where column 11 holds text, and the
/// parsed metadata where column 13 holds text.
pub proof fn law_read_row_fields(row: Seq<SqlValueView>, j: JsonColumns)
    ensures
        read_row_with(row, j) matches RowOutcome::Reads(v) ==> {
            &&& v.transaction_type == (if text_or_none(row, 0) is Some { j.transaction_type->Some_0 } else { None })
            &&& v.invoice == text_or_none(row, 1)
            &&& v.description == text_or_none(row, 2)
            &&& v.description_hash == text_or_none(row, 3)
            &&& v.preimage == text_or_none(row, 4)
            &&& column_text(row, 5) == Ok::<Seq<char>, RowError>(v.payment_hash)
            &&& v.amount == join_halves(column_integer(row, 6)->Ok_0, column_integer(row, 7)->Ok_0)
            &&& v.fees_paid == join_halves(column_integer(row, 8)->Ok_0, column_integer(row, 9)->Ok_0)
            &&& j.created_at == Some(Some(v.created_at))
            &&& j.settled_at == Some(Some(v.settled_at))
            &&& (text_or_none(row, 11) is Some ==> j.expires_at == Some(v.expires_at))
            &&& (text_or_none(row, 11) is None ==> v.expires_at is None)
            &&& (column_optional_text(row, 13) matches Ok(Some(_)) ==> j.metadata == v.metadata && v.metadata is Some)
            &&& (column_optional_text(row, 13) == Ok::<Option<Seq<char>>, RowError>(None) ==> v.metadata is None)
        },
{
}

/// Which error reading a row fails with: the columns are read in order, so
/// the first of columns 5 to 9 that cannot be read decides, once the type
/// column parsed; after them, the metadata column decides, once the
/// timestamps parsed. A JSON column whose text did not parse makes the row
/// unreadable.
pub proof fn law_read_row_errors(row: Seq<SqlValueView>, j: JsonColumns)
    ensures
        text_or_none(row, 0) is Some && j.transaction_type is None ==> read_row_with(row, j) is Unreadable,
        text_or_none(row, 0) is None || j.transaction_type is Some ==> {
            &&& (column_text(row, 5) matches Err(e) ==> read_row_with(row, j) == RowOutcome::Fails(e))
            &&& (column_text(row, 5) is Ok ==> (column_integer(row, 6) matches Err(e) ==> read_row_with(row, j) == RowOutcome::Fails(e)))
            &&& (column_text(row, 5) is Ok && column_integer(row, 6) is Ok
                ==> (column_integer(row, 7) matches Err(e) ==> read_row_with(row, j) == RowOutcome::Fails(e)))
            &&& (column_text(row, 5) is Ok && column_integer(row, 6) is Ok && column_integer(row, 7) is Ok
                ==> (column_integer(row, 8) matches Err(e) ==> read_row_with(row, j) == RowOutcome::Fails(e)))
            &&& (column_text(row, 5) is Ok && column_integer(row, 6) is Ok && column_integer(row, 7) is Ok
                && column_integer(row, 8) is Ok ==> (column_integer(row, 9) matches Err(e) ==> read_row_with(row, j) == RowOutcome::Fails(e)))
        },
        read_row_with(row, j) is Reads ==> text_or_none(row, 10) is Some && text_or_none(row, 12) is Some,
        read_row_with(row, j) matches RowOutcome::Fails(e) ==> e != RowError::InvalidColumnIndex(0)
            && (column_optional_text(row, 13) == Err::<Option<Seq<char>>, RowError>(e)
                || column_text(row, 5) == Err::<Seq<char>, RowError>(e)
                || column_integer(row, 6) == Err::<i64, RowError>(e)
                || column_integer(row, 7) == Err::<i64, RowError>(e)
                || column_integer(row, 8) == Err::<i64, RowError>(e)
                || column_integer(row, 9) == Err::<i64, RowError>(e)),
{
}

/// Reading a row parses its JSON columns with serde_json: each of the
/// columns 0, 10, 11, 12 and 13 that holds text is parsed, and the row is
/// read with those results.
pub proof fn law_read_invoice_row(row: Seq<SqlValueView>)
    ensures
        read_invoice_row(row) == read_row_with(row, json_columns_of(row)),
        text_or_none(row, 0) matches Some(t) ==> json_columns_of(row).transaction_type == json_transaction_type(t),
        text_or_none(row, 10) matches Some(t) ==> json_columns_of(row).created_at == json_timestamp(t),
        text_or_none(row, 11) matches Some(t) ==> json_columns_of(row).expires_at == json_timestamp(t),
        text_or_none(row, 12) matches Some(t) ==> json_columns_of(row).settled_at == json_nested_timestamp(t),
        column_optional_text(row, 13) matches Ok(Some(t)) ==> json_columns_of(row).metadata == json_value(t),
{
}

} // verus!
