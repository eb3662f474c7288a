use vstd::prelude::*;

verus! {

/// One clip of a playlist.
///
/// `seek` is the in-point and `out` the exit point of the clip, so that
/// `out - seek` is the time it plays. All times are in milliseconds.
pub struct Media {
    /// Absolute start of the clip within the day.
    pub begin: Option<i64>,
    /// Position of the clip in its playlist.
    pub index: Option<usize>,
    pub seek: i64,
    pub out: i64,
    pub duration: i64,
    pub source: String,
    /// Filter descriptors, filled in by later stages.
    pub filter: Option<Vec<String>>,
    pub last_ad: Option<bool>,
    pub next_ad: Option<bool>,
    /// Whether the clip is eligible to be played.
    pub process: Option<bool>,
}

/// The time a clip plays: from its in-point to its exit point.
pub open spec fn played(m: Media) -> int {
    m.out - m.seek
}

/// `a` and `b` hold the same filter descriptors.
pub open spec fn same_filter(a: Option<Vec<String>>, b: Option<Vec<String>>) -> bool {
    match (a, b) {
        (None, None) => true,
        (Some(x), Some(y)) => x@.len() == y@.len() && forall|i: int|
            0 <= i < x@.len() ==> (#[trigger] x@[i])@ == y@[i]@,
        _ => false,
    }
}

/// `a` and `b` describe the same clip, field by field.
pub open spec fn same_media(a: Media, b: Media) -> bool {
    &&& a.begin == b.begin
    &&& a.index == b.index
    &&& a.seek == b.seek
    &&& a.out == b.out
    &&& a.duration == b.duration
    &&& a.source@ == b.source@
    &&& same_filter(a.filter, b.filter)
    &&& a.last_ad == b.last_ad
    &&& a.next_ad == b.next_ad
    &&& a.process == b.process
}

fn copy_filter(f: &Option<Vec<String>>) -> (r: Option<Vec<String>>)
    ensures
        same_filter(*f, r),
{
    match f {
        None => None,
        Some(v) => {
            let mut out: Vec<String> = Vec::new();
            let mut i: usize = 0;
            while i < v.len()
                invariant
                    0 <= i <= v@.len(),
                    out@.len() == i,
                    forall|j: int| 0 <= j < i ==> (#[trigger] out@[j])@ == v@[j]@,
                decreases v@.len() - i,
            {
                out.push(v[i].clone());
                i = i + 1;
            }
            Some(out)
        },
    }
}

impl Media {
    /// A clip at position `index` that plays `source` from nothing to nothing:
    /// every time is zero and no scheduling field is set but the index.
    pub fn new(index: usize, source: String) -> (r: Media)
        ensures
            r.begin.is_none(),
            r.index == Some(index),
            r.seek == 0,
            r.out == 0,
            r.duration == 0,
            r.source == source,
            r.filter.is_none(),
            r.last_ad.is_none(),
            r.next_ad.is_none(),
            r.process.is_none(),
    {
        Media {
            begin: None,
            index: Some(index),
            seek: 0,
            out: 0,
            duration: 0,
            source,
            filter: None,
            last_ad: None,
            next_ad: None,
            process: None,
        }
    }

    /// An independent copy of the clip.
    pub fn copy(&self) -> (r: Media)
        ensures
            same_media(*self, r),
    {
        Media {
            begin: self.begin,
            index: self.index,
            seek: self.seek,
            out: self.out,
            duration: self.duration,
            source: self.source.clone(),
            filter: copy_filter(&self.filter),
            last_ad: self.last_ad,
            next_ad: self.next_ad,
            process: self.process,
        }
    }
}

} // verus!
