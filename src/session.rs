//! One recording session: each line of the stream is checked for rotation,
//! decoded, and turned into the line to write, if any.

use vstd::prelude::*;

verus! {

use crate::protocol::{parse, parse_spec, record_text, MessageView, ParseError, StreamMessage};
use crate::sink::{observe_spec, rotation_view, Rotation, RotatingSink};

/// What a line of the stream asks of the caller, in order: perform the
/// rotation, if any; then end the session on a decoding error, or append
/// the record, if any, followed by a newline.
pub struct LineOutcome {
    pub rotation: Option<Rotation>,
    pub record: Result<Option<String>, ParseError>,
}

/// The record that a line asks to be written: `Some(None)` for a line that
/// writes nothing, `None` for a line that ends the session.
pub open spec fn record_spec(line: Seq<char>) -> Option<Option<Seq<char>>> {
    match parse_spec(line) {
        Some(MessageView::Heartbeat { .. }) => Some(None),
        Some(MessageView::Price(p)) => Some(Some(record_text(p))),
        None => None,
    }
}

pub open spec fn written_view(w: Option<String>) -> Option<Seq<char>> {
    match w {
        Some(s) => Some(s@),
        None => None,
    }
}

/// The state of one session: the sink that owns the active path.
pub struct Session {
    pub sink: RotatingSink,
}

impl Session {
    /// A session whose first active file is `path`.
    pub fn new(path: String) -> (r: Session)
        ensures
            r.sink.current@ == path@,
    {
        Session { sink: RotatingSink::new(path) }
    }

    /// Handles one line, given the path for the current instant. The
    /// rotation is decided before the line is decoded, so it stands even
    /// where the line then ends the session.
    pub fn handle_line(&mut self, path_now: String, line: &str) -> (r: LineOutcome)
        ensures
            (final(self).sink.current@, rotation_view(r.rotation)) == observe_spec(
                old(self).sink.current@,
                path_now@,
            ),
            match r.record {
                Ok(w) => record_spec(line@) == Some(written_view(w)),
                Err(_) => record_spec(line@).is_none(),
            },
    {
        let rotation = self.sink.observe(path_now);
        let record = match parse(line) {
            Ok(StreamMessage::Heartbeat { .. }) => Ok(None),
            Ok(StreamMessage::Price(p)) => Ok(Some(p.record_line())),
            Err(e) => Err(e),
        };
        LineOutcome { rotation, record }
    }
}

/// A heartbeat line never asks for a write.
pub proof fn lemma_heartbeat_writes_nothing(line: Seq<char>)
    requires
        parse_spec(line) matches Some(MessageView::Heartbeat { .. }),
    ensures
        record_spec(line) == Some(None::<Seq<char>>),
{
}

} // verus!
