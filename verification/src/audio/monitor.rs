//! Events of `pactl subscribe`: which lines mean that a source or a sink
//! changed.
use vstd::prelude::*;
use crate::text::{contains, str_contains};

verus! {

/// A change of audio device state.
#[derive(Clone, Copy, Debug, PartialEq, Eq, Structural)]
pub enum AudioEvent {
    SourceChanged,
    SinkChanged,
}

/// The events one `pactl subscribe` line stands for: a source change for
/// a line about a source (` on source`) or a source output
/// (`source-output`), then a sink change for a line about a sink
/// (` on sink`) or a sink input (`sink-input`).
pub open spec fn line_events(line: Seq<char>) -> Seq<AudioEvent> {
    let source: Seq<AudioEvent> = if contains(line, " on source"@) || contains(line, "source-output"@) {
        seq![AudioEvent::SourceChanged]
    } else {
        seq![]
    };
    let sink: Seq<AudioEvent> = if contains(line, " on sink"@) || contains(line, "sink-input"@) {
        seq![AudioEvent::SinkChanged]
    } else {
        seq![]
    };
    source + sink
}

/// The events to broadcast for one line of `pactl subscribe` output, in
/// the order source, sink.
pub fn line_events_of(line: &str) -> (r: Vec<AudioEvent>)
    ensures
        r@ == line_events(line@),
{
    let mut out: Vec<AudioEvent> = Vec::new();
    if str_contains(line, " on source") || str_contains(line, "source-output") {
        out.push(AudioEvent::SourceChanged);
    }
    if str_contains(line, " on sink") || str_contains(line, "sink-input") {
        out.push(AudioEvent::SinkChanged);
    }
    assert(out@ =~= line_events(line@));
    out
}

} // verus!
