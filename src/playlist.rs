use vstd::prelude::*;

use crate::media::{played, same_media, Media};

verus! {

/// Length of the placeholder clip of a filler playlist, in milliseconds.
pub const DUMMY_LEN: i64 = 60000;

/// One broadcast day's ordered program.
pub struct Playlist {
    /// The day, as `YYYY-MM-DD`.
    pub date: String,
    /// Time of day at which the first clip begins, in milliseconds.
    pub start_sec: Option<i64>,
    /// The path or URL the playlist was loaded from.
    pub current_file: Option<String>,
    /// Provenance timestamp of the source, where one was obtained.
    pub modified: Option<String>,
    /// The clips, in broadcast order.
    pub program: Vec<Media>,
}

/// Start of clip `i` when `items` are laid end to end from `start`; for
/// `i == items.len()` it is the end of the last clip.
pub open spec fn begin_at(start: int, items: Seq<Media>, i: int) -> int
    decreases i,
{
    if i <= 0 {
        start
    } else {
        begin_at(start, items, i - 1) + played(items[i - 1])
    }
}

/// Every start, and the end of the last clip, fits in an `i64`.
pub open spec fn offsets_fit(start: int, items: Seq<Media>) -> bool {
    forall|i: int|
        0 <= i <= items.len() ==> i64::MIN <= #[trigger] begin_at(start, items, i) <= i64::MAX
}

/// `m` is the clip `old` at position `i`, annotated to begin at `begin`.
pub open spec fn annotated(m: Media, old: Media, i: int, begin: int) -> bool {
    &&& m.begin == Some(begin as i64)
    &&& m.index == Some(i as usize)
    &&& m.last_ad == Some(false)
    &&& m.next_ad == Some(false)
    &&& m.process == Some(true)
    &&& m.filter.is_some() && m.filter.unwrap()@.len() == 0
    &&& m.seek == old.seek
    &&& m.out == old.out
    &&& m.duration == old.duration
    &&& m.source == old.source
}

/// `items` is `old` with every clip annotated in place, clip `i` beginning
/// where the clips before it, laid end to end from `start`, end.
pub open spec fn annotated_program(items: Seq<Media>, old: Seq<Media>, start: int) -> bool {
    &&& items.len() == old.len()
    &&& forall|i: int|
        0 <= i < items.len() ==> annotated(#[trigger] items[i], old[i], i, begin_at(start, old, i))
}

/// `p` is the filler playlist of `date`: one placeholder clip of
/// `DUMMY_LEN` that begins at `start`.
pub open spec fn is_filler(p: Playlist, date: Seq<char>, start: i64) -> bool {
    &&& p.date@ == date
    &&& p.start_sec == Some(start)
    &&& p.modified.is_some() && p.modified.unwrap()@.len() == 0
    &&& p.program@.len() == 1
    &&& p.program@[0].begin == Some(start)
    &&& p.program@[0].index == Some(0usize)
    &&& p.program@[0].seek == 0
    &&& p.program@[0].out == DUMMY_LEN
    &&& p.program@[0].duration == DUMMY_LEN
    &&& p.program@[0].source@.len() == 0
}

/// `a` and `b` hold the same playlist, field by field.
pub open spec fn same_playlist(a: Playlist, b: Playlist) -> bool {
    &&& a.date@ == b.date@
    &&& a.start_sec == b.start_sec
    &&& match (a.current_file, b.current_file) {
        (None, None) => true,
        (Some(x), Some(y)) => x@ == y@,
        _ => false,
    }
    &&& match (a.modified, b.modified) {
        (None, None) => true,
        (Some(x), Some(y)) => x@ == y@,
        _ => false,
    }
    &&& a.program@.len() == b.program@.len()
    &&& forall|i: int|
        0 <= i < a.program@.len() ==> same_media(#[trigger] a.program@[i], b.program@[i])
}

fn copy_text(s: &Option<String>) -> (r: Option<String>)
    ensures
        r == *s,
{
    match s {
        None => None,
        Some(t) => Some(t.clone()),
    }
}

/// Whether every start of `items` laid end to end from `start`, and the end
/// of the last one, fits in an `i64`.
pub fn program_fits(start: i64, items: &Vec<Media>) -> (r: bool)
    ensures
        r == offsets_fit(start as int, items@),
{
    let n = items.len();
    let mut running: i64 = start;
    let mut i: usize = 0;
    while i < n
        invariant
            n == items@.len(),
            0 <= i <= n,
            running as int == begin_at(start as int, items@, i as int),
            forall|j: int|
                0 <= j <= i ==> i64::MIN <= #[trigger] begin_at(start as int, items@, j)
                    <= i64::MAX,
        decreases n - i,
    {
        let next: i128 = running as i128 + items[i].out as i128 - items[i].seek as i128;
        if next < i64::MIN as i128 || next > i64::MAX as i128 {
            assert(begin_at(start as int, items@, i + 1) == next);
            return false;
        }
        running = next as i64;
        i = i + 1;
    }
    true
}

impl Playlist {
    /// The filler playlist of `date`: one placeholder clip of `DUMMY_LEN`
    /// that begins at `start`, with no source.
    pub fn new(date: String, start: i64) -> (r: Playlist)
        ensures
            is_filler(r, date@, start),
            r.date == date,
            r.current_file.is_none(),
    {
        let mut media = Media::new(0, String::new());
        media.begin = Some(start);
        media.duration = DUMMY_LEN;
        media.out = DUMMY_LEN;
        Playlist {
            date,
            start_sec: Some(start),
            current_file: None,
            modified: Some(String::new()),
            program: vec![media],
        }
    }

    /// Walks the program once, in order: each clip begins where the one before
    /// it ends, the first at `start`; each learns its position, is marked for
    /// playing with both advertisement marks cleared, and gets an empty filter
    /// list. Nothing else changes.
    pub fn annotate(&mut self, start: i64)
        requires
            offsets_fit(start as int, old(self).program@),
        ensures
            annotated_program(final(self).program@, old(self).program@, start as int),
            final(self).date == old(self).date,
            final(self).start_sec == old(self).start_sec,
            final(self).current_file == old(self).current_file,
            final(self).modified == old(self).modified,
    {
        let ghost items = self.program@;
        let n = self.program.len();
        let mut running: i64 = start;
        let mut i: usize = 0;
        while i < n
            invariant
                n == items.len(),
                self.program@.len() == n,
                0 <= i <= n,
                offsets_fit(start as int, items),
                running as int == begin_at(start as int, items, i as int),
                forall|j: int|
                    0 <= j < i ==> annotated(
                        #[trigger] self.program@[j],
                        items[j],
                        j,
                        begin_at(start as int, items, j),
                    ),
                forall|j: int| i <= j < n ==> #[trigger] self.program@[j] == items[j],
                self.date == old(self).date,
                self.start_sec == old(self).start_sec,
                self.current_file == old(self).current_file,
                self.modified == old(self).modified,
            decreases n - i,
        {
            assert(i64::MIN <= begin_at(start as int, items, i + 1) <= i64::MAX);
            let item = &mut self.program[i];
            item.begin = Some(running);
            item.index = Some(i);
            item.last_ad = Some(false);
            item.next_ad = Some(false);
            item.process = Some(true);
            item.filter = Some(Vec::new());
            running = (running as i128 + item.out as i128 - item.seek as i128) as i64;
            i = i + 1;
        }
    }

    /// A full, independent copy of the playlist, as handed to a background
    /// validation: it holds what `self` holds, and nothing done to it reaches
    /// `self`.
    pub fn snapshot(&self) -> (r: Playlist)
        ensures
            same_playlist(*self, r),
    {
        let mut program: Vec<Media> = Vec::new();
        let mut i: usize = 0;
        while i < self.program.len()
            invariant
                0 <= i <= self.program@.len(),
                program@.len() == i,
                forall|j: int| 0 <= j < i ==> same_media(self.program@[j], #[trigger] program@[j]),
            decreases self.program@.len() - i,
        {
            program.push(self.program[i].copy());
            i = i + 1;
        }
        Playlist {
            date: self.date.clone(),
            start_sec: self.start_sec,
            current_file: copy_text(&self.current_file),
            modified: copy_text(&self.modified),
            program,
        }
    }
}

/// After annotation from `start`, the first clip begins at `start`, each
/// clip knows its position, and each later clip begins where the one before
/// it ends.
pub proof fn lemma_annotated_offsets(items: Seq<Media>, old: Seq<Media>, start: int)
    requires
        annotated_program(items, old, start),
        offsets_fit(start, old),
    ensures
        items.len() > 0 ==> items[0].begin == Some(start as i64),
        forall|i: int| 0 <= i < items.len() ==> (#[trigger] items[i]).index == Some(i as usize),
        forall|i: int|
            0 < i < items.len() ==> (#[trigger] items[i]).begin.unwrap() as int == items[i
                - 1].begin.unwrap() + items[i - 1].out - items[i - 1].seek,
{
    assert forall|i: int| 0 < i < items.len() implies (#[trigger] items[i]).begin.unwrap() as int
        == items[i - 1].begin.unwrap() + items[i - 1].out - items[i - 1].seek by {
        assert(i64::MIN <= begin_at(start, old, i) <= i64::MAX);
        assert(i64::MIN <= begin_at(start, old, i - 1) <= i64::MAX);
    }
}

/// After annotation every clip is marked for playing, carries neither
/// advertisement mark, and has an empty filter list, whatever it held before.
pub proof fn lemma_annotated_flags(items: Seq<Media>, old: Seq<Media>, start: int)
    requires
        annotated_program(items, old, start),
    ensures
        forall|i: int|
            0 <= i < items.len() ==> {
                let m = #[trigger] items[i];
                &&& m.process == Some(true)
                &&& m.last_ad == Some(false)
                &&& m.next_ad == Some(false)
                &&& m.filter.is_some() && m.filter.unwrap()@.len() == 0
            },
{
}

} // verus!
