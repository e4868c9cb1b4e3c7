//! Pinging through relays: what each event from a relay's stream means,
//! the table of results shown while the streams run, and the results kept
//! per relay.

use vstd::prelude::*;
use crate::model::{status_rtt, PingStatus, RemoteServer};
use crate::text::{pad_right, pad_right_spec};

verus! {

/// One event read from a relay's stream of server-sent events.
#[derive(Debug, Clone, PartialEq, Eq)]
pub enum RelayEvent {
    /// A message; its payload read as a status (`Some`) or did not (`None`).
    Message(Option<PingStatus>),
    /// The stream was opened.
    Open,
    /// The relay ended the stream.
    Ended,
    /// The connection to the relay failed.
    Failed,
    /// The stream has no more events.
    Closed,
}

/// The cell shown for one relay in one row of the results table.
#[derive(Debug, Clone, Copy, PartialEq, Eq, Structural)]
pub enum Cell {
    /// A round-trip time, in nanoseconds.
    Rtt(u128),
    Timeout,
    Error,
    ParseErr,
    Connected,
    Ended,
    ConnErr,
    Closed,
}

/// What one event from a relay leads to.
#[derive(Debug, Clone, PartialEq, Eq)]
pub struct EventOutcome {
    /// The cell for the results table (only when several relays are used).
    pub cell: Option<Cell>,
    /// The result to keep for the relay: a round-trip time or a lost probe.
    pub record: Option<Option<u128>>,
    /// The relay's stream is over.
    pub closed: bool,
    /// With a single relay, the response to show.
    pub single_response: Option<PingStatus>,
    /// With a single relay, whether to report a connection error.
    pub single_failure: bool,
}

/// The cell that shows a status.
pub open spec fn status_cell(status: PingStatus) -> Cell {
    match status {
        PingStatus::Success { elapsed_ns } => Cell::Rtt(elapsed_ns),
        PingStatus::Timeout => Cell::Timeout,
        PingStatus::Error(_) => Cell::Error,
    }
}

/// What an event leads to, with one relay (`single`) or several.
pub open spec fn event_outcome_spec(event: RelayEvent, single: bool) -> EventOutcome {
    match event {
        RelayEvent::Message(Some(status)) => EventOutcome {
            cell: if single { None } else { Some(status_cell(status)) },
            record: Some(status_rtt(status)),
            closed: false,
            single_response: if single { Some(status) } else { None },
            single_failure: false,
        },
        RelayEvent::Message(None) => EventOutcome {
            cell: if single { None } else { Some(Cell::ParseErr) },
            record: None,
            closed: false,
            single_response: None,
            single_failure: false,
        },
        RelayEvent::Open => EventOutcome {
            cell: if single { None } else { Some(Cell::Connected) },
            record: None,
            closed: false,
            single_response: None,
            single_failure: false,
        },
        RelayEvent::Ended => EventOutcome {
            cell: if single { None } else { Some(Cell::Ended) },
            record: None,
            closed: true,
            single_response: None,
            single_failure: false,
        },
        RelayEvent::Failed => EventOutcome {
            cell: if single { None } else { Some(Cell::ConnErr) },
            record: Some(None),
            closed: true,
            single_response: None,
            single_failure: single,
        },
        RelayEvent::Closed => EventOutcome {
            cell: if single { None } else { Some(Cell::Closed) },
            record: None,
            closed: true,
            single_response: None,
            single_failure: false,
        },
    }
}

/// Decides what an event from a relay's stream leads to.
///
/// A status is kept as the relay's result; a failed connection is kept as
/// a lost probe and closes the stream, as the end of the stream does. With
/// several relays every event fills a table cell; with one, a status is
/// shown as a response and a failure is reported.
pub fn process_sse_event(event: RelayEvent, single: bool) -> (res: EventOutcome)
    ensures
        res == event_outcome_spec(event, single),
{
    match event {
        RelayEvent::Message(Some(status)) => {
            let rtt = status.rtt();
            let cell = match &status {
                PingStatus::Success { elapsed_ns } => Cell::Rtt(*elapsed_ns),
                PingStatus::Timeout => Cell::Timeout,
                PingStatus::Error(_) => Cell::Error,
            };
            EventOutcome {
                cell: if single { None } else { Some(cell) },
                record: Some(rtt),
                closed: false,
                single_response: if single { Some(status) } else { None },
                single_failure: false,
            }
        },
        RelayEvent::Message(None) => EventOutcome {
            cell: if single { None } else { Some(Cell::ParseErr) },
            record: None,
            closed: false,
            single_response: None,
            single_failure: false,
        },
        RelayEvent::Open => EventOutcome {
            cell: if single { None } else { Some(Cell::Connected) },
            record: None,
            closed: false,
            single_response: None,
            single_failure: false,
        },
        RelayEvent::Ended => EventOutcome {
            cell: if single { None } else { Some(Cell::Ended) },
            record: None,
            closed: true,
            single_response: None,
            single_failure: false,
        },
        RelayEvent::Failed => EventOutcome {
            cell: if single { None } else { Some(Cell::ConnErr) },
            record: Some(None),
            closed: true,
            single_response: None,
            single_failure: single,
        },
        RelayEvent::Closed => EventOutcome {
            cell: if single { None } else { Some(Cell::Closed) },
            record: None,
            closed: true,
            single_response: None,
            single_failure: false,
        },
    }
}

/// The fixed label of a cell; a round-trip time has none, it is written
/// from its value.
pub open spec fn cell_label_spec(cell: Cell) -> Option<Seq<char>> {
    match cell {
        Cell::Rtt(_) => None,
        Cell::Timeout => Some("Timeout"@),
        Cell::Error => Some("Error"@),
        Cell::ParseErr => Some("ParseErr"@),
        Cell::Connected => Some("Connected"@),
        Cell::Ended => Some("Ended"@),
        Cell::ConnErr => Some("ConnErr"@),
        Cell::Closed => Some("Closed"@),
    }
}

/// The fixed label of a cell (none for a round-trip time).
pub fn cell_label(cell: Cell) -> (res: Option<&'static str>)
    ensures
        match (res, cell_label_spec(cell)) {
            (Some(l), Some(m)) => l@ == m,
            (None, None) => true,
            _ => false,
        },
{
    match cell {
        Cell::Rtt(_) => None,
        Cell::Timeout => Some("Timeout"),
        Cell::Error => Some("Error"),
        Cell::ParseErr => Some("ParseErr"),
        Cell::Connected => Some("Connected"),
        Cell::Ended => Some("Ended"),
        Cell::ConnErr => Some("ConnErr"),
        Cell::Closed => Some("Closed"),
    }
}

/// The width of a column of the results table.
pub const COLUMN_WIDTH: usize = 15;

/// A cell of the results table: the text padded to the column width,
/// then ` | `.
pub open spec fn table_cell_spec(text: Seq<char>) -> Seq<char> {
    pad_right_spec(text, COLUMN_WIDTH as nat) + " | "@
}

/// Lays out one cell of the results table.
pub fn table_cell(text: &str) -> (res: String)
    ensures
        res@ == table_cell_spec(text@),
{
    let padded = pad_right(text, COLUMN_WIDTH);
    padded.concat(" | ")
}

/// The results kept for each relay, one list per relay.
pub struct RelayBoard {
    results: Vec<Vec<Option<u128>>>,
}

/// The stream of every relay is over.
pub open spec fn all_closed_spec(outcomes: Seq<EventOutcome>) -> bool {
    forall|i: int| 0 <= i < outcomes.len() ==> (#[trigger] outcomes[i]).closed
}

/// A relay's results after one more outcome.
pub open spec fn kept_after(results: Seq<Option<u128>>, outcome: EventOutcome) -> Seq<Option<u128>> {
    match outcome.record {
        Some(r) => results.push(r),
        None => results,
    }
}

impl RelayBoard {
    /// The results kept for each relay.
    pub closed spec fn results_spec(self) -> Seq<Seq<Option<u128>>> {
        Seq::new(self.results@.len(), |i: int| self.results@[i]@)
    }

    /// A board for `relays` relays, with nothing kept yet.
    pub fn new(relays: usize) -> (res: RelayBoard)
        ensures
            res.results_spec().len() == relays,
            forall|i: int| 0 <= i < relays ==> (#[trigger] res.results_spec()[i]).len() == 0,
    {
        let mut results: Vec<Vec<Option<u128>>> = Vec::new();
        let mut k: usize = 0;
        while k < relays
            invariant
                k <= relays,
                results@.len() == k,
                forall|i: int| 0 <= i < k ==> (#[trigger] results@[i])@.len() == 0,
            decreases relays - k,
        {
            results.push(Vec::new());
            k = k + 1;
        }
        RelayBoard { results }
    }

    /// Takes in one round of outcomes, one per relay in order, and tells
    /// whether every relay's stream is over.
    pub fn apply_round(&mut self, outcomes: &Vec<EventOutcome>) -> (all_closed: bool)
        requires
            outcomes@.len() == old(self).results_spec().len(),
        ensures
            all_closed == all_closed_spec(outcomes@),
            final(self).results_spec().len() == old(self).results_spec().len(),
            forall|i: int| 0 <= i < outcomes@.len() ==> #[trigger] final(self).results_spec()[i]
                == kept_after(old(self).results_spec()[i], outcomes@[i]),
    {
        let ghost old_results = self.results_spec();
        let mut all_closed = true;
        let mut next: Vec<Vec<Option<u128>>> = Vec::new();
        let mut i: usize = 0;
        let n = outcomes.len();
        while i < n
            invariant
                n == outcomes@.len(),
                n == self.results@.len(),
                old_results == self.results_spec(),
                0 <= i <= n,
                next@.len() == i,
                forall|k: int| 0 <= k < i ==> (#[trigger] next@[k])@ == kept_after(old_results[k], outcomes@[k]),
                all_closed == (forall|k: int| 0 <= k < i ==> (#[trigger] outcomes@[k]).closed),
            decreases n - i,
        {
            let outcome = &outcomes[i];
            let mut kept = self.results[i].clone();
            assert(kept@ == old_results[i as int]);
            match outcome.record {
                Some(r) => kept.push(r),
                None => {},
            }
            if !outcome.closed {
                all_closed = false;
            }
            next.push(kept);
            i = i + 1;
        }
        self.results = next;
        proof {
            assert(self.results_spec().len() == old_results.len());
        }
        all_closed
    }

    /// The results kept for the relay at `index`.
    pub fn results_of(&self, index: usize) -> (res: &Vec<Option<u128>>)
        requires
            index < self.results_spec().len(),
        ensures
            res@ == self.results_spec()[index as int],
    {
        &self.results[index]
    }
}

/// The relays listed in a configuration file: the first list of relays it
/// holds, which must not be empty.
#[derive(Debug, Clone, Copy, PartialEq, Eq, Structural)]
pub enum ConfigError {
    /// The file lists no relay.
    NoRemotes,
}

/// Takes the first list of relays of a configuration file, refusing an
/// empty one (or a file without any list).
pub fn first_remotes(lists: Vec<Vec<RemoteServer>>) -> (res: Result<Vec<RemoteServer>, ConfigError>)
    ensures
        lists@.len() == 0 || lists@[0]@.len() == 0 ==> res == Err::<Vec<RemoteServer>, ConfigError>(ConfigError::NoRemotes),
        lists@.len() > 0 && lists@[0]@.len() > 0 ==> (res matches Ok(r) && r@ == lists@[0]@),
{
    let mut lists = lists;
    if lists.len() == 0 {
        return Err(ConfigError::NoRemotes);
    }
    let first = lists.swap_remove(0);
    if first.len() == 0 {
        Err(ConfigError::NoRemotes)
    } else {
        Ok(first)
    }
}

/// A status received from a relay is always kept as that relay's result:
/// the round-trip time of a success, a lost probe otherwise, whether one
/// relay is used or several.
pub proof fn law_status_always_kept(status: PingStatus, single: bool)
    ensures
        event_outcome_spec(RelayEvent::Message(Some(status)), single).record == Some(
            match status {
                PingStatus::Success { elapsed_ns } => Some(elapsed_ns),
                _ => None::<u128>,
            },
        ),
        event_outcome_spec(RelayEvent::Message(Some(status)), single).record
            == event_outcome_spec(RelayEvent::Message(Some(status)), !single).record,
        !event_outcome_spec(RelayEvent::Message(Some(status)), single).closed,
{
}

/// A round ends the remote ping exactly when no relay's stream is still
/// open: one open stream, at any position, keeps the loop going.
pub proof fn law_round_ends_only_when_all_closed(outcomes: Seq<EventOutcome>)
    ensures
        (exists|i: int| 0 <= i < outcomes.len() && !outcomes[i].closed) ==> !all_closed_spec(outcomes),
        (forall|i: int| 0 <= i < outcomes.len() ==> outcomes[i].closed) ==> all_closed_spec(outcomes),
{
    if exists|i: int| 0 <= i < outcomes.len() && !outcomes[i].closed {
        let i = choose|i: int| 0 <= i < outcomes.len() && !outcomes[i].closed;
        assert(!outcomes[i].closed);
    }
}

/// What each kind of event does, with one relay or several: only statuses
/// and failures leave a result (a failure a lost probe); the end of the
/// stream, its failure and its closing end it; a table cell is made for
/// every event exactly when several relays are used; a single relay shows
/// each status it sends and reports a failure.
pub proof fn law_event_effects(event: RelayEvent, single: bool)
    ensures
        (event_outcome_spec(event, single).cell is Some) == !single,
        event_outcome_spec(event, single).closed == (event is Ended || event is Failed || event is Closed),
        event is Failed ==> event_outcome_spec(event, single).record == Some(None::<u128>),
        (event is Open || event is Ended || event is Closed || event == RelayEvent::Message(None))
            ==> event_outcome_spec(event, single).record is None,
        event_outcome_spec(event, single).single_failure == (single && event is Failed),
        forall|st: PingStatus| event == RelayEvent::Message(Some(st))
            ==> event_outcome_spec(event, single).single_response == (if single { Some(st) } else { None }),
        !(event is Message) ==> event_outcome_spec(event, single).single_response is None,
{
}

} // verus!
