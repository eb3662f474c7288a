use vstd::prelude::*;

verus! {

pub open spec fn is_digit(c: char) -> bool {
    '0' <= c <= '9'
}

/// `d` is a date written `YYYY-MM-DD`.
pub open spec fn well_formed_date(d: Seq<char>) -> bool {
    &&& d.len() == 10
    &&& d[4] == '-'
    &&& d[7] == '-'
    &&& forall|i: int| 0 <= i < 10 && i != 4 && i != 7 ==> is_digit(#[trigger] d[i])
}

/// `root` with `part` appended as a further path component: a separator
/// goes between them unless `root` is empty or already ends in one.
pub open spec fn joined(root: Seq<char>, part: Seq<char>) -> Seq<char> {
    if root.len() == 0 || root.last() == '/' {
        root + part
    } else {
        root + seq!['/'] + part
    }
}

/// Where the playlist of `date` lies below the storage directory `root`:
/// `root/YYYY/MM/YYYY-MM-DD.json`.
pub open spec fn dated_path(root: Seq<char>, date: Seq<char>) -> Seq<char> {
    joined(joined(joined(root, date.subrange(0, 4)), date.subrange(5, 7)), date) + seq![
        '.',
        'j',
        's',
        'o',
        'n',
    ]
}

/// `s` names a remote source: it begins with `http://` or `https://`.
pub open spec fn remote(s: Seq<char>) -> bool {
    ||| (s.len() >= 7 && s.subrange(0, 7) == seq!['h', 't', 't', 'p', ':', '/', '/'])
    ||| (s.len() >= 8 && s.subrange(0, 8) == seq!['h', 't', 't', 'p', 's', ':', '/', '/'])
}

fn has_prefix(s: &str, p: &str) -> (r: bool)
    ensures
        r == (p@.len() <= s@.len() && s@.subrange(0, p@.len() as int) == p@),
{
    let n = p.unicode_len();
    if n > s.unicode_len() {
        return false;
    }
    let mut i: usize = 0;
    while i < n
        invariant
            n == p@.len(),
            n <= s@.len(),
            0 <= i <= n,
            forall|j: int| 0 <= j < i ==> s@[j] == p@[j],
        decreases n - i,
    {
        if s.get_char(i) != p.get_char(i) {
            assert(s@.subrange(0, n as int)[i as int] != p@[i as int]);
            return false;
        }
        i = i + 1;
    }
    assert(s@.subrange(0, n as int) =~= p@);
    true
}

/// Whether `s` names a remote source rather than a local path.
pub fn is_remote(s: &str) -> (r: bool)
    ensures
        r == remote(s@),
{
    proof {
        reveal_strlit("http://");
        reveal_strlit("https://");
    }
    let a = has_prefix(s, "http://");
    let b = has_prefix(s, "https://");
    assert("http://"@ =~= seq!['h', 't', 't', 'p', ':', '/', '/']);
    assert("https://"@ =~= seq!['h', 't', 't', 'p', 's', ':', '/', '/']);
    a || b
}

/// Whether `d` is a date written `YYYY-MM-DD`.
pub fn is_well_formed_date(d: &str) -> (r: bool)
    ensures
        r == well_formed_date(d@),
{
    if d.unicode_len() != 10 {
        return false;
    }
    let mut i: usize = 0;
    while i < 10
        invariant
            d@.len() == 10,
            0 <= i <= 10,
            forall|j: int| 0 <= j < i ==> if j == 4 || j == 7 {
                #[trigger] d@[j] == '-'
            } else {
                is_digit(d@[j])
            },
        decreases 10 - i,
    {
        let c = d.get_char(i);
        if i == 4 || i == 7 {
            if c != '-' {
                return false;
            }
        } else if !('0' <= c && c <= '9') {
            return false;
        }
        i = i + 1;
    }
    assert(d@[4] == '-');
    assert(d@[7] == '-');
    true
}

fn join(root: String, part: &str) -> (r: String)
    ensures
        r@ == joined(root@, part@),
{
    proof {
        reveal_strlit("/");
    }
    let n = root.as_str().unicode_len();
    if n == 0 || root.as_str().get_char(n - 1) == '/' {
        root.concat(part)
    } else {
        let r = root.concat("/");
        assert("/"@ =~= seq!['/']);
        r.concat(part)
    }
}

/// The source of a day's playlist. A source chosen by the caller comes
/// first; otherwise a storage root that is a directory gives
/// `root/YYYY/MM/YYYY-MM-DD.json`, and one that is not is the source itself.
pub fn source_path(root: &str, root_is_dir: bool, date: &str, chosen: Option<String>) -> (r: String)
    requires
        chosen.is_none() && root_is_dir ==> well_formed_date(date@),
    ensures
        r@ == match chosen {
            Some(p) => p@,
            None => if root_is_dir {
                dated_path(root@, date@)
            } else {
                root@
            },
        },
{
    match chosen {
        Some(p) => p,
        None => {
            if root_is_dir {
                proof {
                    reveal_strlit(".json");
                }
                let year = date.substring_char(0, 4);
                let month = date.substring_char(5, 7);
                let path = join(join(join(String::from_str(root), year), month), date);
                assert(".json"@ =~= seq!['.', 'j', 's', 'o', 'n']);
                path.concat(".json")
            } else {
                String::from_str(root)
            }
        },
    }
}

} // verus!
