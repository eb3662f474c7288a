use playlist_loader::{
    finish_load, is_remote, is_well_formed_date, program_fits, source_path, LoadError, Loaded,
    Media, Playlist, SourceOutcome, DUMMY_LEN,
};

fn clip(out: i64, seek: i64) -> Media {
    let mut m = Media::new(99, String::from("clip.mp4"));
    m.out = out;
    m.seek = seek;
    m.duration = out;
    m
}

fn parsed(items: Vec<Media>) -> SourceOutcome {
    SourceOutcome::Parsed {
        playlist: Playlist {
            date: String::from("2024-01-01"),
            start_sec: None,
            current_file: None,
            modified: None,
            program: items,
        },
        modified: Some(String::from("Mon, 01 Jan 2024 00:00:00 GMT")),
    }
}

fn ready(r: Loaded) -> Playlist {
    match r {
        Loaded::Ready(p) => p,
        Loaded::Degraded(_) => panic!("degraded"),
        Loaded::Fatal(e) => panic!("fatal: {:?}", e),
    }
}

fn degraded(r: Loaded) -> Playlist {
    match r {
        Loaded::Degraded(p) => p,
        Loaded::Ready(_) => panic!("ready"),
        Loaded::Fatal(e) => panic!("fatal: {:?}", e),
    }
}

fn assert_filler(p: &Playlist, date: &str, start: i64) {
    assert_eq!(p.date, date);
    assert_eq!(p.start_sec, Some(start));
    assert_eq!(p.modified, Some(String::new()));
    assert_eq!(p.program.len(), 1);
    let m = &p.program[0];
    assert_eq!(m.begin, Some(start));
    assert_eq!(m.index, Some(0));
    assert_eq!(m.out, 60000);
    assert_eq!(m.duration, 60000);
    assert_eq!(m.seek, 0);
    assert_eq!(m.source, "");
}

#[test]
fn dated_path_below_directory_root() {
    let p = source_path("/playlists", true, "2024-03-07", None);
    assert_eq!(p, "/playlists/2024/03/2024-03-07.json");
}

#[test]
fn dated_path_root_with_trailing_separator() {
    let p = source_path("/playlists/", true, "2023-12-31", None);
    assert_eq!(p, "/playlists/2023/12/2023-12-31.json");
}

#[test]
fn dated_path_relative_and_empty_root() {
    assert_eq!(source_path("lists", true, "2024-01-01", None), "lists/2024/01/2024-01-01.json");
    assert_eq!(source_path("", true, "2024-01-01", None), "2024/01/2024-01-01.json");
}

#[test]
fn file_root_is_the_source() {
    let p = source_path("/playlists/today.json", false, "2024-03-07", None);
    assert_eq!(p, "/playlists/today.json");
}

#[test]
fn chosen_source_takes_precedence() {
    let chosen = Some(String::from("http://example.org/list.json"));
    assert_eq!(source_path("/playlists", true, "2024-03-07", chosen), "http://example.org/list.json");
    let chosen = Some(String::from("/tmp/other.json"));
    assert_eq!(source_path("/playlists", false, "not a date", chosen), "/tmp/other.json");
}

#[test]
fn date_shape() {
    assert!(is_well_formed_date("2024-01-01"));
    assert!(!is_well_formed_date("2024-1-01"));
    assert!(!is_well_formed_date("2024/01/01"));
    assert!(!is_well_formed_date("2024-01-0a"));
    assert!(!is_well_formed_date(""));
}

#[test]
fn remote_sources() {
    assert!(is_remote("http://example.org/list.json"));
    assert!(is_remote("https://example.org/list.json"));
    assert!(!is_remote("/var/lib/list.json"));
    assert!(!is_remote("ftp://example.org/list.json"));
    assert!(!is_remote("http:/example.org"));
    assert!(!is_remote(""));
}

#[test]
fn filler_playlist_shape() {
    assert_eq!(DUMMY_LEN, 60000);
    let p = Playlist::new(String::from("2024-05-05"), 3600000);
    assert_filler(&p, "2024-05-05", 3600000);
    assert_eq!(p.current_file, None);
}

#[test]
fn missing_local_file_degrades_to_filler() {
    let r = finish_load(
        SourceOutcome::Missing,
        String::from("/playlists/2024/01/2024-01-01.json"),
        String::from("2024-01-01"),
        21600000,
    );
    let p = degraded(r);
    assert_filler(&p, "2024-01-01", 21600000);
    assert_eq!(p.current_file, Some(String::from("/playlists/2024/01/2024-01-01.json")));
}

#[test]
fn remote_server_error_degrades_to_filler() {
    let source = String::from("http://example.org/2024-01-01.json");
    let a = degraded(finish_load(SourceOutcome::Rejected(500), source.clone(), String::from("2024-01-01"), 5));
    let b = degraded(finish_load(SourceOutcome::Missing, source.clone(), String::from("2024-01-01"), 5));
    assert_filler(&a, "2024-01-01", 5);
    assert_filler(&b, "2024-01-01", 5);
    assert_eq!(a.current_file, b.current_file);
}

#[test]
fn unreachable_remote_degrades_to_filler() {
    let p = degraded(finish_load(
        SourceOutcome::Unreachable,
        String::from("http://example.org/x.json"),
        String::from("2024-02-29"),
        0,
    ));
    assert_filler(&p, "2024-02-29", 0);
}

#[test]
fn malformed_content_is_fatal() {
    let r = finish_load(SourceOutcome::Malformed, String::from("list.json"), String::from("2024-01-01"), 0);
    match r {
        Loaded::Fatal(e) => assert_eq!(e, LoadError::Malformed),
        _ => panic!("expected a fatal load"),
    }
}

#[test]
fn overflowing_times_are_fatal() {
    let items = vec![clip(i64::MAX, 0), clip(10, 0)];
    assert!(!program_fits(1, &items));
    let r = finish_load(parsed(items), String::from("list.json"), String::from("2024-01-01"), 1);
    match r {
        Loaded::Fatal(e) => assert_eq!(e, LoadError::OutOfRange),
        _ => panic!("expected a fatal load"),
    }
}

#[test]
fn fitting_times() {
    assert!(program_fits(0, &vec![]));
    assert!(program_fits(i64::MAX, &vec![clip(5, 5)]));
    assert!(!program_fits(i64::MAX, &vec![clip(6, 5)]));
    assert!(program_fits(0, &vec![clip(0, i64::MAX), clip(i64::MAX, 0)]));
}

#[test]
fn offsets_accumulate_played_time() {
    let items = vec![clip(10000, 2000), clip(5000, 0), clip(7000, 1000), clip(3000, 3000), clip(1000, 0)];
    let p = ready(finish_load(parsed(items), String::from("list.json"), String::from("2024-01-01"), 100));
    let begins: Vec<i64> = p.program.iter().map(|m| m.begin.unwrap()).collect();
    assert_eq!(begins, vec![100, 8100, 13100, 19100, 19100]);
    for (i, m) in p.program.iter().enumerate() {
        assert_eq!(m.index, Some(i));
    }
    for i in 1..p.program.len() {
        let prev = &p.program[i - 1];
        assert_eq!(p.program[i].begin.unwrap(), prev.begin.unwrap() + prev.out - prev.seek);
    }
}

#[test]
fn annotation_resets_flags() {
    let mut m = clip(4000, 0);
    m.begin = Some(77);
    m.last_ad = Some(true);
    m.next_ad = Some(true);
    m.process = Some(false);
    m.filter = Some(vec![String::from("scale=640:360")]);
    let mut p = Playlist::new(String::from("2024-01-01"), 0);
    p.program = vec![m, clip(1000, 0)];
    p.annotate(500);
    for m in &p.program {
        assert_eq!(m.process, Some(true));
        assert_eq!(m.last_ad, Some(false));
        assert_eq!(m.next_ad, Some(false));
        assert_eq!(m.filter.as_ref().map(|f| f.len()), Some(0));
    }
    assert_eq!(p.program[0].begin, Some(500));
    assert_eq!(p.program[1].begin, Some(4500));
    assert_eq!(p.program[0].source, "clip.mp4");
}

#[test]
fn ready_playlist_carries_source_and_start() {
    let p = ready(finish_load(parsed(vec![clip(1000, 0)]), String::from("/x/list.json"), String::from("1999-09-09"), 42));
    assert_eq!(p.date, "2024-01-01");
    assert_eq!(p.start_sec, Some(42));
    assert_eq!(p.current_file, Some(String::from("/x/list.json")));
    assert_eq!(p.modified, Some(String::from("Mon, 01 Jan 2024 00:00:00 GMT")));
}

#[test]
fn empty_program_loads_empty() {
    let p = ready(finish_load(parsed(vec![]), String::from("list.json"), String::from("2024-01-01"), 0));
    assert!(p.program.is_empty());
}

fn dispatch<F: FnOnce(Playlist)>(p: &Playlist, validate: F) {
    validate(p.snapshot());
}

#[test]
fn dispatched_copy_is_independent() {
    let p = ready(finish_load(parsed(vec![clip(30000, 0), clip(50000, 5000)]), String::from("list.json"), String::from("2024-01-01"), 0));
    dispatch(&p, |mut copy| {
        assert_eq!(copy.program.len(), 2);
        assert_eq!(copy.program[1].begin, Some(30000));
        copy.program[0].begin = Some(-1);
        copy.program[1].filter.as_mut().unwrap().push(String::from("null"));
        copy.program.clear();
        copy.date.push_str("x");
    });
    assert_eq!(p.date, "2024-01-01");
    assert_eq!(p.program.len(), 2);
    assert_eq!(p.program[0].begin, Some(0));
    assert_eq!(p.program[1].filter, Some(vec![]));
}

#[test]
fn end_to_end_two_clips() {
    let items = vec![clip(30000, 0), clip(50000, 5000)];
    let p = ready(finish_load(parsed(items), String::from("list.json"), String::from("2024-01-01"), 0));
    assert_eq!(p.program[0].begin, Some(0));
    assert_eq!(p.program[1].begin, Some(30000));
}
