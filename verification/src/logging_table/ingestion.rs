//! From the remote log source to rows: which streams are fetched, how the
//! events of one stream become rows, and how the rows of all streams become
//! one table.
//!
//! The remote calls themselves are made by the caller. It lists the streams of
//! the group, asks [`plan_requests`] what to fetch, runs one fetch per request,
//! turns each stream's events into rows with [`process_log`], and hands every
//! outcome, in the order of the requests, to [`process_logging_table`].

use super::error::LoggingTableError;
use super::logging_table::{LogRow, LoggingTable};
use vstd::prelude::*;

verus! {

/// A log stream as the remote source describes it.
#[derive(Debug)]
pub struct LogStream {
    pub log_stream_name: Option<String>,
    pub creation_time: Option<i64>,
    pub first_event_timestamp: Option<i64>,
    pub last_event_timestamp: Option<i64>,
    pub last_ingestion_time: Option<i64>,
}

/// What a [`LogStream`] says.
pub struct LogStreamView {
    pub log_stream_name: Option<Seq<char>>,
    pub creation_time: Option<i64>,
    pub first_event_timestamp: Option<i64>,
    pub last_event_timestamp: Option<i64>,
    pub last_ingestion_time: Option<i64>,
}

impl View for LogStream {
    type V = LogStreamView;

    open spec fn view(&self) -> LogStreamView {
        LogStreamView {
            log_stream_name: self.log_stream_name.deep_view(),
            creation_time: self.creation_time,
            first_event_timestamp: self.first_event_timestamp,
            last_event_timestamp: self.last_event_timestamp,
            last_ingestion_time: self.last_ingestion_time,
        }
    }
}

impl DeepView for LogStream {
    type V = LogStreamView;

    open spec fn deep_view(&self) -> LogStreamView {
        self@
    }
}

/// One event of a log stream as the remote source returns it.
#[derive(Debug)]
pub struct OutputLogEvent {
    pub timestamp: Option<i64>,
    pub message: Option<String>,
    pub ingestion_time: Option<i64>,
}

/// What an [`OutputLogEvent`] says.
pub struct OutputLogEventView {
    pub timestamp: Option<i64>,
    pub message: Option<Seq<char>>,
    pub ingestion_time: Option<i64>,
}

impl View for OutputLogEvent {
    type V = OutputLogEventView;

    open spec fn view(&self) -> OutputLogEventView {
        OutputLogEventView {
            timestamp: self.timestamp,
            message: self.message.deep_view(),
            ingestion_time: self.ingestion_time,
        }
    }
}

impl DeepView for OutputLogEvent {
    type V = OutputLogEventView;

    open spec fn deep_view(&self) -> OutputLogEventView {
        self@
    }
}

/// Everything one fetch needs: where to read, and the fields of the stream
/// that every row of it will carry.
#[derive(Debug)]
pub struct StreamRequest {
    pub log_group_name: String,
    pub log_stream_name: String,
    pub log_creation_time: Option<i64>,
    pub first_event_timestamp: Option<i64>,
    pub last_event_timestamp: Option<i64>,
    pub last_ingestion_time: Option<i64>,
    pub start_from_head: bool,
}

/// What a [`StreamRequest`] says.
pub struct StreamRequestView {
    pub log_group_name: Seq<char>,
    pub log_stream_name: Seq<char>,
    pub log_creation_time: Option<i64>,
    pub first_event_timestamp: Option<i64>,
    pub last_event_timestamp: Option<i64>,
    pub last_ingestion_time: Option<i64>,
    pub start_from_head: bool,
}

impl View for StreamRequest {
    type V = StreamRequestView;

    open spec fn view(&self) -> StreamRequestView {
        StreamRequestView {
            log_group_name: self.log_group_name@,
            log_stream_name: self.log_stream_name@,
            log_creation_time: self.log_creation_time,
            first_event_timestamp: self.first_event_timestamp,
            last_event_timestamp: self.last_event_timestamp,
            last_ingestion_time: self.last_ingestion_time,
            start_from_head: self.start_from_head,
        }
    }
}

impl DeepView for StreamRequest {
    type V = StreamRequestView;

    open spec fn deep_view(&self) -> StreamRequestView {
        self@
    }
}

/// The request for a stream of the given name. Reading always starts from the
/// earliest event.
pub open spec fn request_for(
    log_group_name: Seq<char>,
    log_stream_name: Seq<char>,
    log_stream: LogStreamView,
) -> StreamRequestView {
    StreamRequestView {
        log_group_name,
        log_stream_name,
        log_creation_time: log_stream.creation_time,
        first_event_timestamp: log_stream.first_event_timestamp,
        last_event_timestamp: log_stream.last_event_timestamp,
        last_ingestion_time: log_stream.last_ingestion_time,
        start_from_head: true,
    }
}

/// The requests for a group's streams: one for every stream that has a name,
/// in the order of the listing. Streams without a name are passed over.
pub open spec fn planned_requests(
    log_group_name: Seq<char>,
    log_streams: Seq<LogStreamView>,
) -> Seq<StreamRequestView>
    decreases log_streams.len(),
{
    if log_streams.len() == 0 {
        Seq::empty()
    } else {
        let before = planned_requests(log_group_name, log_streams.drop_last());
        match log_streams.last().log_stream_name {
            Some(name) => before.push(request_for(log_group_name, name, log_streams.last())),
            None => before,
        }
    }
}

/// Every request reads its stream from the earliest event, in the group that
/// was asked for, and belongs to a listed stream of that name. There are no
/// more requests than streams, and as many where every stream has a name.
pub proof fn lemma_planned_requests(log_group_name: Seq<char>, log_streams: Seq<LogStreamView>)
    ensures
        planned_requests(log_group_name, log_streams).len() <= log_streams.len(),
        (forall|j: int| 0 <= j < log_streams.len() ==> (#[trigger] log_streams[j]).log_stream_name
            is Some) ==> planned_requests(log_group_name, log_streams).len() == log_streams.len(),
        forall|i: int|
            0 <= i < planned_requests(log_group_name, log_streams).len() ==> {
                let request = #[trigger] planned_requests(log_group_name, log_streams)[i];
                &&& request.start_from_head
                &&& request.log_group_name == log_group_name
                &&& exists|j: int|
                    0 <= j < log_streams.len() && request == request_for(
                        log_group_name,
                        request.log_stream_name,
                        #[trigger] log_streams[j],
                    ) && log_streams[j].log_stream_name == Some(request.log_stream_name)
            },
    decreases log_streams.len(),
{
    if log_streams.len() > 0 {
        let before = log_streams.drop_last();
        lemma_planned_requests(log_group_name, before);
        let planned = planned_requests(log_group_name, log_streams);
        assert forall|i: int| 0 <= i < planned.len() implies {
            let request = #[trigger] planned[i];
            exists|j: int|
                0 <= j < log_streams.len() && request == request_for(
                    log_group_name,
                    request.log_stream_name,
                    #[trigger] log_streams[j],
                ) && log_streams[j].log_stream_name == Some(request.log_stream_name)
        } by {
            let request = planned[i];
            if i < planned_requests(log_group_name, before).len() {
                let j = choose|j: int|
                    0 <= j < before.len() && request == request_for(
                        log_group_name,
                        request.log_stream_name,
                        #[trigger] before[j],
                    ) && before[j].log_stream_name == Some(request.log_stream_name);
                assert(log_streams[j] == before[j]);
            } else {
                assert(log_streams[log_streams.len() - 1] == log_streams.last());
            }
        }
        assert forall|j: int| 0 <= j < before.len() implies #[trigger] before[j]
            == log_streams[j] by {}
    }
}

/// Decides what to fetch for the streams that the remote source listed.
pub fn plan_requests(log_group_name: &str, log_streams: &Vec<LogStream>) -> (requests: Vec<
    StreamRequest,
>)
    ensures
        requests.deep_view() == planned_requests(log_group_name@, log_streams.deep_view()),
{
    let ghost streams = log_streams.deep_view();
    let mut requests: Vec<StreamRequest> = Vec::new();
    let mut i: usize = 0;
    while i < log_streams.len()
        invariant
            i <= log_streams.len(),
            streams == log_streams.deep_view(),
            requests.deep_view() == planned_requests(log_group_name@, streams.take(i as int)),
        decreases log_streams.len() - i,
    {
        let log_stream = &log_streams[i];
        proof {
            assert(streams.take(i + 1).drop_last() =~= streams.take(i as int));
        }
        if let Some(name) = &log_stream.log_stream_name {
            let request = StreamRequest {
                log_group_name: log_group_name.to_owned(),
                log_stream_name: name.clone(),
                log_creation_time: log_stream.creation_time,
                first_event_timestamp: log_stream.first_event_timestamp,
                last_event_timestamp: log_stream.last_event_timestamp,
                last_ingestion_time: log_stream.last_ingestion_time,
                start_from_head: true,
            };
            requests.push(request);
        }
        i += 1;
    }
    proof {
        assert(streams.take(i as int) =~= streams);
    }
    requests
}

/// The row of one event of a stream: the stream's four fields from the
/// request, the event's three fields as they are. Nothing is filled in; what
/// is absent stays absent.
pub open spec fn normalized_row(request: StreamRequestView, event: OutputLogEventView) -> LogRow {
    LogRow {
        log_stream_name: Some(request.log_stream_name),
        log_creation_time: request.log_creation_time,
        first_event_timestamp: request.first_event_timestamp,
        last_event_timestamp: request.last_event_timestamp,
        last_ingestion_time: request.last_ingestion_time,
        timestamp: event.timestamp,
        message: event.message,
        ingestion_time: event.ingestion_time,
    }
}

/// The rows of a stream: one per event, in the order of the events.
pub open spec fn normalized_rows(
    request: StreamRequestView,
    events: Seq<OutputLogEventView>,
) -> Seq<LogRow> {
    events.map_values(|event: OutputLogEventView| normalized_row(request, event))
}

/// A stream with N events gives exactly N rows. Every row carries the same
/// four fields of the stream, and row `i` carries the three fields of event
/// `i` exactly, absent where the event's field is absent.
pub proof fn lemma_normalized_rows(request: StreamRequestView, events: Seq<OutputLogEventView>)
    ensures
        normalized_rows(request, events).len() == events.len(),
        forall|i: int|
            0 <= i < events.len() ==> {
                let row = #[trigger] normalized_rows(request, events)[i];
                &&& row.log_stream_name == Some(request.log_stream_name)
                &&& row.log_creation_time == request.log_creation_time
                &&& row.first_event_timestamp == request.first_event_timestamp
                &&& row.last_event_timestamp == request.last_event_timestamp
                &&& row.last_ingestion_time == request.last_ingestion_time
                &&& row.timestamp == events[i].timestamp
                &&& row.message == events[i].message
                &&& row.ingestion_time == events[i].ingestion_time
            },
{
}

/// Turns the events of one stream into rows.
pub fn process_log(request: &StreamRequest, events: &Vec<OutputLogEvent>) -> (records: Vec<
    LoggingTable,
>)
    ensures
        records.deep_view() == normalized_rows(request@, events.deep_view()),
{
    let mut records: Vec<LoggingTable> = Vec::new();
    let mut i: usize = 0;
    while i < events.len()
        invariant
            i <= events.len(),
            records.len() == i,
            forall|j: int|
                0 <= j < i ==> (#[trigger] records[j])@ == normalized_row(request@, events[j]@),
        decreases events.len() - i,
    {
        let event = &events[i];
        let message = match &event.message {
            Some(text) => Some(text.clone()),
            None => None,
        };
        let record = LoggingTable::new(
            Some(request.log_stream_name.clone()),
            request.log_creation_time,
            request.first_event_timestamp,
            request.last_event_timestamp,
            request.last_ingestion_time,
            event.timestamp,
            message,
            event.ingestion_time,
        );
        records.push(record);
        i += 1;
    }
    records
}

/// What one stream's task ended with: its rows, or why it failed.
pub type StreamOutcome = Result<Vec<LoggingTable>, LoggingTableError>;

/// What a stream's outcome says.
pub open spec fn outcome_view(outcome: StreamOutcome) -> Result<Seq<LogRow>, LoggingTableError> {
    match outcome {
        Ok(records) => Ok(records.deep_view()),
        Err(error) => Err(error),
    }
}

/// What each outcome of a sequence says.
pub open spec fn outcome_views(outcomes: Seq<StreamOutcome>) -> Seq<
    Result<Seq<LogRow>, LoggingTableError>,
> {
    outcomes.map_values(|outcome: StreamOutcome| outcome_view(outcome))
}

/// The table of a pass over the streams. Where every stream succeeded, the
/// rows of the first stream, then those of the second, and so on. Where some
/// stream failed, the failure of the first such stream, and no rows at all.
pub open spec fn aggregated(outcomes: Seq<Result<Seq<LogRow>, LoggingTableError>>) -> Result<
    Seq<LogRow>,
    LoggingTableError,
>
    decreases outcomes.len(),
{
    if outcomes.len() == 0 {
        Ok(Seq::empty())
    } else {
        match aggregated(outcomes.drop_last()) {
            Ok(before) => match outcomes.last() {
                Ok(rows) => Ok(before + rows),
                Err(error) => Err(error),
            },
            Err(error) => Err(error),
        }
    }
}

/// Where a prefix of the outcomes fails, the whole fails in the same way.
pub proof fn lemma_aggregated_prefix(
    outcomes: Seq<Result<Seq<LogRow>, LoggingTableError>>,
    n: int,
)
    requires
        0 <= n <= outcomes.len(),
        aggregated(outcomes.take(n)) is Err,
    ensures
        aggregated(outcomes) == aggregated(outcomes.take(n)),
    decreases outcomes.len(),
{
    if n == outcomes.len() {
        assert(outcomes.take(n) =~= outcomes);
    } else {
        assert(outcomes.drop_last().take(n) =~= outcomes.take(n));
        lemma_aggregated_prefix(outcomes.drop_last(), n);
    }
}

/// A pass succeeds exactly when every stream succeeded.
pub proof fn lemma_aggregated_ok_iff(outcomes: Seq<Result<Seq<LogRow>, LoggingTableError>>)
    ensures
        aggregated(outcomes) is Ok <==> forall|i: int|
            0 <= i < outcomes.len() ==> (#[trigger] outcomes[i]) is Ok,
    decreases outcomes.len(),
{
    if outcomes.len() > 0 {
        let before = outcomes.drop_last();
        lemma_aggregated_ok_iff(before);
        if aggregated(outcomes) is Ok {
            assert forall|i: int| 0 <= i < outcomes.len() implies (#[trigger] outcomes[i]) is Ok by {
                if i < before.len() {
                    assert(before[i] == outcomes[i]);
                }
            }
        } else if aggregated(before) is Err {
            let i = choose|i: int| 0 <= i < before.len() && !((#[trigger] before[i]) is Ok);
            assert(outcomes[i] is Err);
        } else {
            assert(outcomes.last() is Err);
        }
    }
}

/// Where any one stream fails, the pass fails, and it fails with the failure
/// of the first stream that failed. No rows of the other streams are kept.
pub proof fn lemma_aggregated_first_failure(
    outcomes: Seq<Result<Seq<LogRow>, LoggingTableError>>,
    i: int,
)
    requires
        0 <= i < outcomes.len(),
        outcomes[i] is Err,
        forall|j: int| 0 <= j < i ==> (#[trigger] outcomes[j]) is Ok,
    ensures
        aggregated(outcomes) == Err::<Seq<LogRow>, LoggingTableError>(outcomes[i]->Err_0),
{
    let prefix = outcomes.take(i + 1);
    assert(prefix.drop_last() =~= outcomes.take(i));
    lemma_aggregated_ok_iff(outcomes.take(i));
    lemma_aggregated_prefix(outcomes, i + 1);
}

/// Two streams that both succeed, with `n1` and `n2` rows, give `n1 + n2`
/// rows: those of the first stream in their order, then those of the second in
/// theirs. As a set, the table is the union of the two streams' rows.
pub proof fn lemma_aggregated_two_streams(first: Seq<LogRow>, second: Seq<LogRow>)
    ensures
        aggregated(seq![Ok(first), Ok(second)]) == Ok::<Seq<LogRow>, LoggingTableError>(
            first + second,
        ),
        (first + second).len() == first.len() + second.len(),
        (first + second).subrange(0, first.len() as int) == first,
        (first + second).subrange(first.len() as int, (first + second).len() as int) == second,
        (first + second).to_set() == first.to_set().union(second.to_set()),
{
    let outcomes: Seq<Result<Seq<LogRow>, LoggingTableError>> = seq![Ok(first), Ok(second)];
    assert(outcomes.drop_last() =~= seq![Ok(first)]);
    assert(outcomes.drop_last().drop_last() =~= Seq::empty());
    assert(aggregated(outcomes.drop_last().drop_last()) == Ok::<Seq<LogRow>, LoggingTableError>(
        Seq::empty(),
    ));
    assert(Seq::<LogRow>::empty() + first =~= first);
    assert(aggregated(outcomes.drop_last()) == Ok::<Seq<LogRow>, LoggingTableError>(first));
    assert forall|row: LogRow|
        (first + second).to_set().contains(row) <==> first.to_set().union(
            second.to_set(),
        ).contains(row) by {
        if (first + second).contains(row) {
            let i = choose|i: int| 0 <= i < (first + second).len() && (first + second)[i] == row;
            if i < first.len() {
                assert(first[i] == row);
            } else {
                assert(second[i - first.len()] == row);
            }
        }
        if first.contains(row) {
            let i = choose|i: int| 0 <= i < first.len() && first[i] == row;
            assert((first + second)[i] == row);
        }
        if second.contains(row) {
            let i = choose|i: int| 0 <= i < second.len() && second[i] == row;
            assert((first + second)[first.len() + i] == row);
        }
    }
}

/// Merges the outcomes of all streams of one pass into one table, or into the
/// first failure.
pub fn process_logging_table(outcomes: Vec<StreamOutcome>) -> (made: Result<
    Vec<LoggingTable>,
    LoggingTableError,
>)
    ensures
        outcome_view(made) == aggregated(outcome_views(outcomes@)),
{
    let ghost all = outcome_views(outcomes@);
    let mut records: Vec<LoggingTable> = Vec::new();
    proof {
        assert(records.deep_view() =~= Seq::empty());
    }
    for outcome in iter: outcomes
        invariant
            all == outcome_views(outcomes@),
            aggregated(all.take(iter.index() as int)) == Ok::<Seq<LogRow>, LoggingTableError>(
                records.deep_view(),
            ),
    {
        proof {
            let i = iter.index() as int;
            assert(all.take(i + 1).drop_last() =~= all.take(i));
        }
        match outcome {
            Ok(mut more) => {
                let ghost before = records.deep_view();
                let ghost added = more.deep_view();
                records.append(&mut more);
                assert(records.deep_view() =~= before + added);
            },
            Err(error) => {
                proof {
                    lemma_aggregated_prefix(all, iter.index() as int + 1);
                }
                return Err(error);
            },
        }
    }
    proof {
        assert(all.take(all.len() as int) =~= all);
    }
    Ok(records)
}

} // verus!
