use vstd::prelude::*;

use crate::playlist::{annotated_program, is_filler, offsets_fit, program_fits, Playlist};

verus! {

/// What reading a playlist's source gave back.
pub enum SourceOutcome {
    /// The local path is not a regular file.
    Missing,
    /// The remote request failed before any answer came.
    Unreachable,
    /// The remote server answered with this status, which is not a success.
    Rejected(u16),
    /// The content did not decode as a playlist.
    Malformed,
    /// The content decoded as `playlist`; `modified` is the source's
    /// provenance timestamp, where one was obtained.
    Parsed { playlist: Playlist, modified: Option<String> },
}

/// Why a load stopped without a playlist.
#[derive(Debug, Clone, Copy, PartialEq, Eq, Structural)]
pub enum LoadError {
    /// The source's content is not a playlist.
    Malformed,
    /// The clips' times, laid end to end, leave the range of an `i64`.
    OutOfRange,
}

/// The result of a load.
pub enum Loaded {
    /// The source's playlist, annotated.
    Ready(Playlist),
    /// The source was absent or unreachable: a filler playlist stands in.
    Degraded(Playlist),
    /// The source's content cannot be played.
    Fatal(LoadError),
}

/// The source gave nothing to decode: no file, no answer, or no success.
pub open spec fn unavailable(o: SourceOutcome) -> bool {
    matches!(o, SourceOutcome::Missing | SourceOutcome::Unreachable | SourceOutcome::Rejected(_))
}

/// `r` is what a load of `source` for `date`, starting at `start`, yields
/// when the source gave back `o`.
pub open spec fn loaded_as(
    o: SourceOutcome,
    source: String,
    date: String,
    start: i64,
    r: Loaded,
) -> bool {
    match o {
        SourceOutcome::Parsed { playlist, modified } => if offsets_fit(
            start as int,
            playlist.program@,
        ) {
            match r {
                Loaded::Ready(p) => {
                    &&& p.date == playlist.date
                    &&& p.start_sec == Some(start)
                    &&& p.current_file == Some(source)
                    &&& p.modified == modified
                    &&& annotated_program(p.program@, playlist.program@, start as int)
                },
                _ => false,
            }
        } else {
            r == Loaded::Fatal(LoadError::OutOfRange)
        },
        SourceOutcome::Malformed => r == Loaded::Fatal(LoadError::Malformed),
        _ => match r {
            Loaded::Degraded(p) => is_filler(p, date@, start) && p.current_file == Some(source),
            _ => false,
        },
    }
}

/// Turns what the source `source` gave back into the day's playlist. A
/// source that gave nothing yields the filler playlist of `date`; content
/// that did not decode, or whose times overflow, stops the load; a decoded
/// playlist is stamped with its source and start and annotated from `start`.
pub fn finish_load(outcome: SourceOutcome, source: String, date: String, start: i64) -> (r: Loaded)
    ensures
        loaded_as(outcome, source, date, start, r),
{
    match outcome {
        SourceOutcome::Parsed { playlist, modified } => {
            let mut playlist = playlist;
            if !program_fits(start, &playlist.program) {
                return Loaded::Fatal(LoadError::OutOfRange);
            }
            playlist.current_file = Some(source);
            playlist.start_sec = Some(start);
            playlist.modified = modified;
            playlist.annotate(start);
            Loaded::Ready(playlist)
        },
        SourceOutcome::Malformed => Loaded::Fatal(LoadError::Malformed),
        _ => {
            let mut p = Playlist::new(date, start);
            p.current_file = Some(source);
            Loaded::Degraded(p)
        },
    }
}

/// Every source that gave nothing to decode (a missing local file, a failed
/// request, a server that answers with an error status) yields the same
/// filler playlist.
pub proof fn lemma_unavailable_sources_degrade_alike(
    o1: SourceOutcome,
    o2: SourceOutcome,
    source: String,
    date: String,
    start: i64,
    r1: Loaded,
    r2: Loaded,
)
    requires
        unavailable(o1),
        unavailable(o2),
        loaded_as(o1, source, date, start, r1),
        loaded_as(o2, source, date, start, r2),
    ensures
        r1 matches Loaded::Degraded(_),
        r2 matches Loaded::Degraded(_),
        ({
            let (p1, p2) = (r1->Degraded_0, r2->Degraded_0);
            &&& is_filler(p1, date@, start)
            &&& is_filler(p2, date@, start)
            &&& p1.current_file == p2.current_file
        }),
{
}

} // verus!
