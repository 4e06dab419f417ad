//! The telemetry client without its transport: the request that asks for
//! the recent exceptions, and what each answer of the backend comes to.

use crate::models::{Cell, CellView, Exception, ExceptionView, QueryResponse, TableView};
use crate::query::{build_query, filter_view, query_text};
use crate::text::{decimal, push_decimal};
use vstd::prelude::*;

verus! {

/// The text of a cell that holds one; `fallback` for a cell of any other kind.
pub open spec fn text_or(cell: CellView, fallback: Seq<char>) -> Seq<char> {
    match cell {
        CellView::Text(text) => text,
        _ => fallback,
    }
}

/// The record that a row stands for. A row of at least four cells gives
/// timestamp, type, message and operation name by position; a cell that holds
/// no text gives the empty text, and `Unknown` for the type. A shorter row
/// gives no record.
pub open spec fn record_of(row: Seq<CellView>) -> Option<ExceptionView> {
    if row.len() >= 4 {
        Some(
            ExceptionView {
                timestamp: text_or(row[0], Seq::empty()),
                exception_type: text_or(row[1], "Unknown"@),
                message: text_or(row[2], Seq::empty()),
                operation_name: text_or(row[3], Seq::empty()),
            },
        )
    } else {
        None
    }
}

/// The records of the rows that stand for one, in the order of the rows.
pub open spec fn records_of_rows(rows: Seq<Seq<CellView>>) -> Seq<ExceptionView> {
    rows.filter_map(|row: Seq<CellView>| record_of(row))
}

/// The records of a response: those of its first table, none where it has no table.
pub open spec fn records_of(tables: Seq<TableView>) -> Seq<ExceptionView> {
    if tables.len() == 0 {
        Seq::empty()
    } else {
        records_of_rows(tables[0].rows)
    }
}

/// Rows are read one by one: the records of two runs of rows, one after the
/// other, are the records of the first run followed by those of the second.
pub proof fn lemma_records_of_rows_concat(first: Seq<Seq<CellView>>, second: Seq<Seq<CellView>>)
    ensures
        records_of_rows(first + second) == records_of_rows(first) + records_of_rows(second),
    decreases second.len(),
{
    let decode = |row: Seq<CellView>| record_of(row);
    if second.len() == 0 {
        assert(first + second =~= first);
        assert(records_of_rows(first) + records_of_rows(second) =~= records_of_rows(first));
    } else {
        let all = first + second;
        assert(all.drop_last() =~= first + second.drop_last());
        assert(all.last() == second.last());
        lemma_records_of_rows_concat(first, second.drop_last());
        assert(all.filter_map(decode) =~= first.filter_map(decode) + second.filter_map(decode));
    }
}

/// A row with fewer than four cells leaves no trace: wherever it stands among
/// the rows, the records are those of the rows without it.
pub proof fn lemma_short_row_is_skipped(rows: Seq<Seq<CellView>>, at: int, short: Seq<CellView>)
    requires
        0 <= at <= rows.len(),
        short.len() < 4,
    ensures
        records_of_rows(rows.insert(at, short)) == records_of_rows(rows),
{
    let decode = |row: Seq<CellView>| record_of(row);
    let before = rows.take(at);
    let after = rows.skip(at);
    assert(rows.insert(at, short) =~= (before + seq![short]) + after);
    assert(rows =~= before + after);
    Seq::lemma_filter_map_singleton(short, decode);
    lemma_records_of_rows_concat(before, seq![short]);
    lemma_records_of_rows_concat(before + seq![short], after);
    lemma_records_of_rows_concat(before, after);
    assert(records_of_rows(before) + Seq::<ExceptionView>::empty() =~= records_of_rows(before));
}

/// A row of at least four cells always gives a record, whatever its cells
/// hold: each field is the text of its cell where the cell holds text, and
/// otherwise the empty text, or `Unknown` for the type.
pub proof fn lemma_record_fields(row: Seq<CellView>)
    requires
        row.len() >= 4,
    ensures
        record_of(row) is Some,
        row[0] is Text ==> record_of(row)->0.timestamp == row[0]->Text_0,
        row[0] !is Text ==> record_of(row)->0.timestamp == Seq::<char>::empty(),
        row[1] is Text ==> record_of(row)->0.exception_type == row[1]->Text_0,
        row[1] !is Text ==> record_of(row)->0.exception_type == "Unknown"@,
        row[2] is Text ==> record_of(row)->0.message == row[2]->Text_0,
        row[2] !is Text ==> record_of(row)->0.message == Seq::<char>::empty(),
        row[3] is Text ==> record_of(row)->0.operation_name == row[3]->Text_0,
        row[3] !is Text ==> record_of(row)->0.operation_name == Seq::<char>::empty(),
{
}

fn cell_text(cell: &Cell, fallback: &str) -> (text: String)
    ensures
        text@ == text_or(cell@, fallback@),
{
    match cell {
        Cell::Text(text) => text.clone(),
        _ => fallback.to_owned(),
    }
}

fn exception_of_row(row: &Vec<Cell>) -> (exception: Exception)
    requires
        row.len() >= 4,
    ensures
        record_of(row.deep_view()) == Some(exception@),
{
    proof {
        reveal_strlit("");
        assert(""@ =~= Seq::<char>::empty());
        let cells = row.deep_view();
        assert(cells[0] == row[0]@ && cells[1] == row[1]@ && cells[2] == row[2]@ && cells[3]
            == row[3]@);
    }
    Exception {
        timestamp: cell_text(&row[0], ""),
        exception_type: cell_text(&row[1], "Unknown"),
        message: cell_text(&row[2], ""),
        operation_name: cell_text(&row[3], ""),
    }
}

/// Draws the exceptions from a response: one for each row of the first table
/// that has at least four cells, in the order of the rows. A shorter row is
/// passed over; a response without a table gives no exception.
pub fn exceptions_of(response: &QueryResponse) -> (exceptions: Vec<Exception>)
    ensures
        exceptions.deep_view() == records_of(response@),
{
    let mut exceptions: Vec<Exception> = Vec::new();
    if response.tables.len() == 0 {
        assert(exceptions.deep_view() =~= Seq::<ExceptionView>::empty());
        return exceptions;
    }
    let table = &response.tables[0];
    let ghost rows = table.rows.deep_view();
    assert(response@[0].rows == rows);
    let mut i: usize = 0;
    assert(rows.take(0) =~= Seq::<Seq<CellView>>::empty());
    assert(exceptions.deep_view() =~= records_of_rows(rows.take(0)));
    while i < table.rows.len()
        invariant
            i <= table.rows.len(),
            rows == table.rows.deep_view(),
            exceptions.deep_view() == records_of_rows(rows.take(i as int)),
        decreases table.rows.len() - i,
    {
        let row = &table.rows[i];
        proof {
            rows.lemma_filter_map_take_succ(|row: Seq<CellView>| record_of(row), i as int);
            assert(rows[i as int] == row.deep_view());
        }
        if row.len() >= 4 {
            let ghost before = exceptions.deep_view();
            let exception = exception_of_row(row);
            exceptions.push(exception);
            assert(exceptions.deep_view() =~= before + seq![exception@]);
        }
        i = i + 1;
    }
    assert(rows.take(i as int) =~= rows);
    exceptions
}

/// One HTTP GET, described so that any transport can perform it: the
/// address without its query string, the one header and the one query
/// parameter, whose value is given as it is, not yet encoded for an address.
#[derive(Debug, PartialEq, Eq)]
pub struct Request {
    pub url: String,
    pub header_name: String,
    pub header_value: String,
    pub parameter_name: String,
    pub parameter_value: String,
}

/// A request as contracts see it.
pub struct RequestView {
    pub url: Seq<char>,
    pub header_name: Seq<char>,
    pub header_value: Seq<char>,
    pub parameter_name: Seq<char>,
    pub parameter_value: Seq<char>,
}

impl View for Request {
    type V = RequestView;

    open spec fn view(&self) -> RequestView {
        RequestView {
            url: self.url@,
            header_name: self.header_name@,
            header_value: self.header_value@,
            parameter_name: self.parameter_name@,
            parameter_value: self.parameter_value@,
        }
    }
}

/// The request that puts `query` to the application `app_id` under `api_key`.
pub open spec fn request_for(app_id: Seq<char>, api_key: Seq<char>, query: Seq<char>)
    -> RequestView {
    RequestView {
        url: "https://api.applicationinsights.io/v1/apps/"@ + app_id + "/query"@,
        header_name: "x-api-key"@,
        header_value: api_key,
        parameter_name: "query"@,
        parameter_value: query,
    }
}

/// Why a fetch gave no exceptions.
#[derive(Debug, PartialEq, Eq)]
pub enum FetchError {
    /// The request could not be sent, or no response came back.
    Transport { detail: String },
    /// The backend answered with a status outside the success range.
    Api { status: u16, body: String },
    /// The body of a successful response is not a table response.
    Decode { detail: String },
}

/// A fetch error as contracts see it.
pub enum FetchErrorView {
    Transport { detail: Seq<char> },
    Api { status: u16, body: Seq<char> },
    Decode { detail: Seq<char> },
}

impl View for FetchError {
    type V = FetchErrorView;

    open spec fn view(&self) -> FetchErrorView {
        match *self {
            FetchError::Transport { detail } => FetchErrorView::Transport { detail: detail@ },
            FetchError::Api { status, body } => FetchErrorView::Api { status, body: body@ },
            FetchError::Decode { detail } => FetchErrorView::Decode { detail: detail@ },
        }
    }
}

/// The line that reports a fetch error.
pub open spec fn error_text(error: FetchErrorView) -> Seq<char> {
    match error {
        FetchErrorView::Transport { detail } => "Failed to send request: "@ + detail,
        FetchErrorView::Api { status, body } => "API request failed with status "@ + decimal(
            status as nat,
        ) + ": "@ + body,
        FetchErrorView::Decode { detail } => "Failed to parse response: "@ + detail,
    }
}

impl FetchError {
    /// Renders the error as one line of text.
    pub fn message(&self) -> (text: String)
        ensures
            text@ == error_text(self@),
    {
        let mut text = String::new();
        match self {
            FetchError::Transport { detail } => {
                text.append("Failed to send request: ");
                text.append(detail.as_str());
            },
            FetchError::Api { status, body } => {
                text.append("API request failed with status ");
                push_decimal(&mut text, *status as u64);
                text.append(": ");
                text.append(body.as_str());
            },
            FetchError::Decode { detail } => {
                text.append("Failed to parse response: ");
                text.append(detail.as_str());
            },
        }
        assert(text@ =~= error_text(self@));
        text
    }
}

/// Whether a status code is one of success: 200 to 299.
pub open spec fn status_is_success(status: u16) -> bool {
    200 <= status < 300
}

/// Whether a response with this status carries a result.
pub fn is_success(status: u16) -> (ok: bool)
    ensures
        ok == status_is_success(status),
{
    200 <= status && status < 300
}

/// How the attempt to send the request ended.
#[derive(Debug, PartialEq, Eq)]
pub enum Delivery {
    /// It could not be sent, or no response came back.
    Failed { detail: String },
    /// A response came back with this status.
    Answered { status: u16 },
}

/// What is to be done once the fate of the request is known.
#[derive(Debug, PartialEq, Eq)]
pub enum Reading {
    /// Nothing: the fetch has failed.
    Fail(FetchError),
    /// Read the body of the response as text, for `on_error_body`.
    ErrorBody { status: u16 },
    /// Parse the body of the response as tables, for `on_tables`.
    Tables,
}

/// How the attempt to parse the body of a successful response ended.
#[derive(Debug, PartialEq, Eq)]
pub enum Parse {
    /// The body is not a table response.
    Malformed { detail: String },
    Tables { response: QueryResponse },
}

/// Decides what follows the sending of the request. A failure to send ends
/// the fetch with a transport error. A response with a success status has
/// its body parsed; the body of any other response is read as text, to be
/// reported.
pub fn on_delivery(delivery: Delivery) -> (next: Reading)
    ensures
        match delivery {
            Delivery::Failed { detail } => next matches Reading::Fail(error) && error@
                == (FetchErrorView::Transport { detail: detail@ }),
            Delivery::Answered { status } => if status_is_success(status) {
                next == Reading::Tables
            } else {
                next == (Reading::ErrorBody { status })
            },
        },
{
    match delivery {
        Delivery::Failed { detail } => Reading::Fail(FetchError::Transport { detail }),
        Delivery::Answered { status } => {
            if is_success(status) {
                Reading::Tables
            } else {
                Reading::ErrorBody { status }
            }
        },
    }
}

/// The error that a response with a status outside the success range ends
/// the fetch with: it carries the status and the text of the body, the empty
/// text where the body could not be read.
pub fn on_error_body(status: u16, body: Option<String>) -> (error: FetchError)
    ensures
        error@ == (FetchErrorView::Api {
            status,
            body: match body {
                Some(text) => text@,
                None => Seq::empty(),
            },
        }),
{
    match body {
        Some(text) => FetchError::Api { status, body: text },
        None => FetchError::Api { status, body: String::new() },
    }
}

/// What a successful response comes to: the exceptions of its tables, or a
/// decode error where its body is not a table response.
pub fn on_tables(parse: Parse) -> (outcome: Result<Vec<Exception>, FetchError>)
    ensures
        match parse {
            Parse::Malformed { detail } => outcome matches Err(error) && error@
                == (FetchErrorView::Decode { detail: detail@ }),
            Parse::Tables { response } => outcome matches Ok(exceptions)
                && exceptions.deep_view() == records_of(response@),
        },
{
    match parse {
        Parse::Malformed { detail } => Err(FetchError::Decode { detail }),
        Parse::Tables { response } => Ok(exceptions_of(&response)),
    }
}

/// A client of the telemetry backend: an application and the key that
/// opens it. It sends nothing itself: it says which request is to be sent.
#[derive(Debug)]
pub struct AppInsightsClient {
    app_id: String,
    api_key: String,
}

impl AppInsightsClient {
    /// The identifier of the application that is queried.
    pub closed spec fn app_id(&self) -> Seq<char> {
        self.app_id@
    }

    /// The key that is sent with each request.
    pub closed spec fn api_key(&self) -> Seq<char> {
        self.api_key@
    }

    /// A client for the application `app_id`, with the key `api_key`.
    pub fn new(app_id: String, api_key: String) -> (client: Self)
        ensures
            client.app_id() == app_id@,
            client.api_key() == api_key@,
    {
        AppInsightsClient { app_id, api_key }
    }

    /// The request that puts a query to the backend.
    pub fn query(&self, kusto_query: &str) -> (request: Request)
        ensures
            request@ == request_for(self.app_id(), self.api_key(), kusto_query@),
    {
        let mut url = String::new();
        url.append("https://api.applicationinsights.io/v1/apps/");
        url.append(self.app_id.as_str());
        url.append("/query");
        let request = Request {
            url,
            header_name: "x-api-key".to_owned(),
            header_value: self.api_key.clone(),
            parameter_name: "query".to_owned(),
            parameter_value: kusto_query.to_owned(),
        };
        assert(request@.url =~= request_for(self.app_id(), self.api_key(), kusto_query@).url);
        request
    }

    /// The request that asks for the exceptions of the last `hours` hours,
    /// at most `limit` of them, newest first, of the given type and with the
    /// given text in their message where these are asked for. What comes
    /// back is handed to `on_delivery`.
    pub fn get_recent_exceptions(
        &self,
        hours: u32,
        limit: u32,
        exception_type: Option<&str>,
        exception_message: Option<&str>,
    ) -> (request: Request)
        ensures
            request@ == request_for(
                self.app_id(),
                self.api_key(),
                query_text(
                    hours as nat,
                    limit as nat,
                    filter_view(exception_type),
                    filter_view(exception_message),
                ),
            ),
    {
        let query = build_query(hours, limit, exception_type, exception_message);
        self.query(query.as_str())
    }
}

} // verus!
