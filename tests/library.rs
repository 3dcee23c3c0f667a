use lrcfetch::filter::Filter;
use lrcfetch::input::{binding, Fields, Func, Key, Screens};
use lrcfetch::limiter::Limiter;
use lrcfetch::musicdata::{Lyrics, MusicData, SidecarKind, TagError};
use lrcfetch::progress::Progress;
use lrcfetch::session::{default_concurrent, PoolKind, State};

fn track(title: &str, artist: &str, album: &str, path: &str) -> MusicData {
    MusicData {
        title: title.to_string(),
        artist: artist.to_string(),
        album: album.to_string(),
        duration: 200,
        path: path.to_string(),
    }
}

fn library(n: usize) -> (Vec<MusicData>, Vec<Option<Lyrics>>) {
    let mut music = Vec::new();
    let mut lyrics = Vec::new();
    for i in 0..n {
        music.push(track(&format!("Song {}", i), "Artist", "Album", &format!("/m/{}.flac", i)));
        lyrics.push(Some(Lyrics::Absent));
    }
    (music, lyrics)
}

fn queued_paths(st: &State) -> Vec<String> {
    st.fetch_queue.iter().map(|t| t.path.clone()).collect()
}

fn synced_text(l: &Option<Lyrics>) -> Option<String> {
    match l {
        Some(Lyrics::Synced(t)) => Some(t.clone()),
        _ => None,
    }
}

#[test]
fn artist_filter_is_case_insensitive_substring() {
    let tracks = vec![
        track("a", "Brian Eno", "x", "/1"),
        track("b", "Devo", "x", "/2"),
        track("c", "eno-core", "x", "/3"),
    ];
    let mut f = Filter::new();
    f.artist = Some("eno".to_string());
    assert_eq!(f.visible_rows(&tracks), vec![0, 2]);
    f.artist = Some("ENO".to_string());
    assert_eq!(f.visible_rows(&tracks), vec![0, 2]);
}

#[test]
fn filter_checks_every_field() {
    let t = track("Here Come The Warm Jets", "Brian Eno", "Here Come", "/1");
    let mut f = Filter::new();
    assert!(f.apply(&t));
    f.title = Some("warm".to_string());
    assert!(f.apply(&t));
    f.album = Some("nope".to_string());
    assert!(!f.apply(&t));
    f.album = Some("COME".to_string());
    f.artist = Some("brian".to_string());
    assert!(f.apply(&t));
    f.artist = Some("devo".to_string());
    assert!(!f.apply(&t));
}

#[test]
fn filtering_twice_gives_the_same_rows() {
    let tracks = vec![
        track("one", "Brian Eno", "x", "/1"),
        track("two", "Devo", "x", "/2"),
        track("three", "eno-core", "y", "/3"),
        track("four", "Eno", "y", "/4"),
    ];
    let mut f = Filter::new();
    f.artist = Some("eno".to_string());
    f.album = Some("Y".to_string());
    let once = f.visible_rows(&tracks);
    let kept: Vec<MusicData> = once.iter().map(|&i| tracks[i].duplicate()).collect();
    let twice = f.visible_rows(&kept);
    assert_eq!(once, vec![2, 3]);
    assert_eq!(twice, vec![0, 1]);
}

#[test]
fn progress_resets_only_when_idle() {
    let mut p = Progress::new();
    assert!(p.idle_reset());
    assert!(p.issue(2));
    assert!(!p.idle_reset());
    p.complete();
    assert!(!p.idle_reset());
    assert_eq!((p.total, p.done), (2, 1));
    p.complete();
    assert!(p.is_idle());
    assert!(p.idle_reset());
    assert_eq!((p.total, p.done), (0, 0));
}

#[test]
fn progress_refuses_overflow() {
    let mut p = Progress::new();
    assert!(p.issue(usize::MAX));
    assert!(!p.issue(1));
    assert_eq!(p.total, usize::MAX);
}

#[test]
fn limiter_never_admits_more_than_its_limit() {
    let mut l = Limiter::new(2);
    assert!(l.try_acquire());
    assert!(l.try_acquire());
    assert!(!l.try_acquire());
    assert_eq!(l.in_flight, 2);
    l.release();
    assert!(l.try_acquire());
    assert!(!l.try_acquire());
    l.set_limit(1);
    assert_eq!(l.in_flight, 2);
    l.release();
    assert!(!l.try_acquire());
    l.release();
    assert!(l.try_acquire());
}

#[test]
fn sidecar_round_trip() {
    let l = Lyrics::Synced("abc".to_string());
    assert_eq!(l.sidecar(), Some(SidecarKind::Synced));
    assert_eq!(l.sidecar().unwrap().extension(), "lrc");
    let written = l.text().cloned();
    match Lyrics::from_sidecars(written, Some("old".to_string())) {
        Lyrics::Synced(t) => assert_eq!(t, "abc"),
        _ => panic!("expected synced lyrics"),
    }
    let p = Lyrics::Plain("words".to_string());
    assert_eq!(p.sidecar().unwrap().extension(), "txt");
    match Lyrics::from_sidecars(None, p.text().cloned()) {
        Lyrics::Plain(t) => assert_eq!(t, "words"),
        _ => panic!("expected plain lyrics"),
    }
    assert!(matches!(Lyrics::from_sidecars(None, None), Lyrics::Absent));
    assert_eq!(Lyrics::Absent.sidecar(), None);
    assert_eq!(Lyrics::Instrumental.sidecar(), None);
}

#[test]
fn api_answer_prefers_synced_then_plain_then_instrumental() {
    let r = Lyrics::from_api(true, Some("p".to_string()), Some("s".to_string()));
    assert!(matches!(r, Lyrics::Synced(ref t) if t == "s"));
    let r = Lyrics::from_api(true, Some("p".to_string()), None);
    assert!(matches!(r, Lyrics::Plain(ref t) if t == "p"));
    assert!(matches!(Lyrics::from_api(true, None, None), Lyrics::Instrumental));
    assert!(matches!(Lyrics::from_api(false, None, None), Lyrics::Absent));
}

#[test]
fn tags_build_a_track_or_name_what_is_missing() {
    let some = |s: &str| Some(s.to_string());
    let t = MusicData::from_tags(some("t"), some("a"), some("b"), 441000, 44100, "/x.flac".to_string())
        .unwrap();
    assert_eq!(t.duration, 10);
    assert_eq!(t.title, "t");
    assert_eq!(t.path, "/x.flac");
    let e = |r: Result<MusicData, TagError>| r.err().unwrap();
    assert_eq!(e(MusicData::from_tags(None, some("a"), some("b"), 1, 1, String::new())), TagError::NoTitle);
    assert_eq!(e(MusicData::from_tags(some("t"), None, some("b"), 1, 1, String::new())), TagError::NoArtist);
    assert_eq!(e(MusicData::from_tags(some("t"), some("a"), None, 1, 1, String::new())), TagError::NoAlbum);
    assert_eq!(e(MusicData::from_tags(some("t"), some("a"), some("b"), 1, 0, String::new())), TagError::NoSampleRate);
}

#[test]
fn retry_candidates_and_ranks() {
    assert!(Lyrics::Absent.is_retry_candidate());
    assert!(Lyrics::Plain("x".to_string()).is_retry_candidate());
    assert!(!Lyrics::Synced("x".to_string()).is_retry_candidate());
    assert!(!Lyrics::Instrumental.is_retry_candidate());
    assert!(!Lyrics::Absent.replaces(&Lyrics::Plain("x".to_string())));
    assert!(Lyrics::Synced("x".to_string()).replaces(&Lyrics::Plain("x".to_string())));
    assert!(Lyrics::Plain("y".to_string()).replaces(&Lyrics::Plain("x".to_string())));
}

#[test]
fn scan_all_skips_final_results() {
    let (music, mut lyrics) = library(5);
    lyrics[1] = Some(Lyrics::Synced("s".to_string()));
    lyrics[2] = Some(Lyrics::Instrumental);
    lyrics[3] = Some(Lyrics::Plain("p".to_string()));
    lyrics[4] = None;
    let mut st = State::new(default_concurrent());
    st.set_library(music, lyrics);
    st.scan_all();
    assert_eq!(queued_paths(&st), vec!["/m/0.flac", "/m/3.flac"]);
    assert_eq!(st.progress.total, 2);
}

#[test]
fn scan_all_only_picks_visible_tracks() {
    let (mut music, lyrics) = library(3);
    music[1].artist = "Devo".to_string();
    let mut st = State::new(4);
    st.set_library(music, lyrics);
    st.filter.artist = Some("devo".to_string());
    st.scan_all();
    assert_eq!(queued_paths(&st), vec!["/m/1.flac"]);
}

#[test]
fn three_tracks_one_network_slot() {
    let (music, lyrics) = library(3);
    let mut st = State::new(1);
    st.set_library(music, lyrics);
    assert!(st.idle_reset());
    st.event_handler(Key::Char('a'));
    assert_eq!(st.progress.total, 3);
    assert_eq!(st.progress.done, 0);
    for i in 0..3 {
        assert!(!st.idle_reset());
        let job = st.next_fetch().expect("a permit is free");
        assert_eq!(job.path, format!("/m/{}.flac", i));
        assert!(st.next_fetch().is_none());
        assert_eq!(st.network.in_flight, 1);
        let path = job.path.clone();
        assert!(st.complete_fetch(&path, Lyrics::Synced(format!("lrc {}", i))));
        assert_eq!(st.network.in_flight, 0);
        assert_eq!(st.progress.done, i + 1);
    }
    assert_eq!((st.progress.done, st.progress.total), (3, 3));
    assert!(st.idle_reset());
    assert_eq!((st.progress.done, st.progress.total), (0, 0));
    assert_eq!(synced_text(&st.lyrics[2]), Some("lrc 2".to_string()));
    assert_eq!(st.write_queue.len(), 3);
}

#[test]
fn writes_wait_for_a_disk_permit() {
    let (music, lyrics) = library(2);
    let mut st = State::new(2);
    st.set_library(music, lyrics);
    st.set_concurrency(PoolKind::Disk, 1);
    st.scan_all();
    let a = st.next_fetch().unwrap();
    let b = st.next_fetch().unwrap();
    assert!(st.complete_fetch(&a.path, Lyrics::Plain("a".to_string())));
    assert!(st.complete_fetch(&b.path, Lyrics::Absent));
    assert_eq!(st.write_queue.len(), 1);
    let w = st.next_write().unwrap();
    assert_eq!(w.path, "/m/0.flac");
    assert!(st.next_write().is_none());
    st.finish_write();
    assert_eq!(st.disk.in_flight, 0);
}

#[test]
fn worse_late_result_does_not_overwrite_better_one() {
    let (music, lyrics) = library(1);
    let mut st = State::new(4);
    st.set_library(music, lyrics);
    assert!(st.scan_music(0));
    assert!(st.scan_music(0));
    let first = st.next_fetch().unwrap();
    let second = st.next_fetch().unwrap();
    assert!(st.complete_fetch(&second.path, Lyrics::Synced("good".to_string())));
    assert!(!st.complete_fetch(&first.path, Lyrics::Absent));
    assert_eq!(synced_text(&st.lyrics[0]), Some("good".to_string()));
    assert_eq!((st.progress.done, st.progress.total), (2, 2));
}

#[test]
fn completion_for_another_track_is_counted_but_not_stored() {
    let (music, lyrics) = library(1);
    let mut st = State::new(4);
    st.set_library(music, lyrics);
    assert!(!st.complete_fetch(&"/m/0.flac".to_string(), Lyrics::Instrumental));
    st.scan_music(0);
    st.next_fetch().unwrap();
    assert!(!st.complete_fetch(&"/elsewhere.flac".to_string(), Lyrics::Instrumental));
    assert!(matches!(st.lyrics[0], Some(Lyrics::Absent)));
    assert_eq!(st.progress.done, 1);
}

#[test]
fn text_entry_backspace_then_commit() {
    let (music, lyrics) = library(2);
    let mut st = State::new(4);
    st.set_library(music, lyrics);
    st.event_handler(Key::Char('f'));
    assert_eq!(st.screen, Screens::Filters);
    st.event_handler(Key::Char('j'));
    st.event_handler(Key::Char('j'));
    assert_eq!(st.filters_selected, Some(1));
    st.event_handler(Key::Enter);
    assert_eq!(st.field, Some(Fields::Artist));
    st.event_handler(Key::Char('A'));
    st.event_handler(Key::Char('b'));
    assert_eq!(st.current_string, "Ab");
    st.event_handler(Key::Backspace);
    st.event_handler(Key::Char('c'));
    assert_eq!(st.current_string, "Ac");
    st.event_handler(Key::Enter);
    assert_eq!(st.filter.artist, Some("Ac".to_string()));
    assert_eq!(st.field, None);
    assert_eq!(st.current_string, "");
    st.event_handler(Key::Enter);
    assert_eq!(st.field, Some(Fields::Artist));
    assert_eq!(st.current_string, "Ac");
    st.event_handler(Key::Backspace);
    st.event_handler(Key::Backspace);
    st.event_handler(Key::Backspace);
    st.event_handler(Key::Enter);
    assert_eq!(st.filter.artist, None);
}

#[test]
fn selection_stays_within_visible_rows() {
    let (mut music, lyrics) = library(3);
    music[2].artist = "Devo".to_string();
    let mut st = State::new(4);
    st.set_library(music, lyrics);
    st.event_handler(Key::Char('j'));
    st.event_handler(Key::Char('j'));
    st.event_handler(Key::Char('j'));
    assert_eq!(st.selected, 2);
    assert_eq!(st.selected_track(), Some(2));
    st.event_handler(Key::Char('f'));
    st.event_handler(Key::Char('j'));
    st.event_handler(Key::Char('j'));
    st.event_handler(Key::Enter);
    st.event_handler(Key::Char('d'));
    st.event_handler(Key::Enter);
    assert_eq!(st.selected, 0);
    assert_eq!(st.selected_track(), Some(2));
    st.event_handler(Key::Char('q'));
    assert_eq!(st.screen, Screens::Main);
    st.event_handler(Key::Char('k'));
    assert_eq!(st.selected, 0);
    assert!(!st.will_quit);
    st.event_handler(Key::Char('q'));
    assert!(st.will_quit);
}

#[test]
fn scan_selected_queues_the_selected_visible_track() {
    let (music, lyrics) = library(3);
    let mut st = State::new(4);
    st.set_library(music, lyrics);
    st.event_handler(Key::Char('j'));
    st.event_handler(Key::Enter);
    assert_eq!(queued_paths(&st), vec!["/m/1.flac"]);
    assert_eq!(st.selected, 2);
}

#[test]
fn key_map() {
    assert_eq!(binding(Screens::Main, Key::Char('a')), Some(Func::ScanAll));
    assert_eq!(binding(Screens::Main, Key::Enter), Some(Func::ScanSelected));
    assert_eq!(binding(Screens::Filters, Key::Enter), Some(Func::OpenSelectedFilter));
    assert_eq!(binding(Screens::Filters, Key::Char('q')), Some(Func::CloseFiltersPopup));
    assert_eq!(binding(Screens::Filters, Key::Char('a')), None);
    assert_eq!(binding(Screens::Main, Key::Backspace), None);
}

#[test]
fn filters_popup_selection_stops_at_the_ends() {
    let mut st = State::new(4);
    st.event_handler(Key::Char('f'));
    st.event_handler(Key::Char('k'));
    assert_eq!(st.filters_selected, Some(2));
    st.event_handler(Key::Char('j'));
    assert_eq!(st.filters_selected, Some(2));
    st.event_handler(Key::Char('k'));
    st.event_handler(Key::Char('k'));
    st.event_handler(Key::Char('k'));
    assert_eq!(st.filters_selected, Some(0));
}

#[test]
fn rescan_keeps_requested_fetches_and_counters() {
    let (music, lyrics) = library(3);
    let mut st = State::new(1);
    st.set_library(music, lyrics);
    st.scan_all();
    let running = st.next_fetch().unwrap();
    let (mut music, lyrics) = library(3);
    music.reverse();
    st.set_library(music, lyrics);
    assert_eq!(queued_paths(&st), vec!["/m/1.flac", "/m/2.flac"]);
    assert_eq!((st.progress.done, st.progress.total), (0, 3));
    assert!(st.complete_fetch(&running.path, Lyrics::Instrumental));
    assert!(matches!(st.lyrics[2], Some(Lyrics::Instrumental)));
    assert!(matches!(st.lyrics[0], Some(Lyrics::Absent)));
    assert_eq!(st.next_fetch().unwrap().path, "/m/1.flac");
    assert_eq!(default_concurrent(), 50);
}

#[test]
fn new_work_after_a_finished_batch_starts_a_new_batch() {
    let (music, lyrics) = library(3);
    let mut st = State::new(4);
    st.set_library(music, lyrics);
    st.scan_all();
    for _ in 0..3 {
        let t = st.next_fetch().unwrap();
        st.complete_fetch(&t.path, Lyrics::Plain("p".to_string()));
    }
    assert_eq!((st.progress.done, st.progress.total), (3, 3));
    assert!(st.scan_music(0));
    assert_eq!((st.progress.done, st.progress.total), (0, 1));
    let t = st.next_fetch().unwrap();
    st.complete_fetch(&t.path, Lyrics::Plain("q".to_string()));
    assert_eq!((st.progress.done, st.progress.total), (1, 1));
    st.scan_all();
    assert_eq!((st.progress.done, st.progress.total), (0, 3));
}

#[test]
fn detail_text_of_the_selected_row() {
    let (music, mut lyrics) = library(4);
    lyrics[1] = Some(Lyrics::Instrumental);
    lyrics[2] = Some(Lyrics::Synced("[00:01] la".to_string()));
    lyrics[3] = None;
    let mut st = State::new(4);
    st.set_library(music, lyrics);
    assert_eq!(st.detail_text(), Some("Not found".to_string()));
    st.select_next();
    assert_eq!(st.detail_text(), Some("Instrumental".to_string()));
    st.select_next();
    assert_eq!(st.detail_text(), Some("[00:01] la".to_string()));
    st.select_next();
    assert_eq!(st.detail_text(), Some("Not found".to_string()));
    let empty = State::new(4);
    assert_eq!(empty.detail_text(), None);
}
