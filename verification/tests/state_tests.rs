use std::collections::{HashSet, VecDeque};
use velocity::menu::{
    clamp_selection, free_row, item_at_slot, item_at_slot_pinned, slot_gap, CURSOR_SLOT, NUM_SLOTS,
};
use velocity::navigation::{middle_of, Action, AppState, Key, Navigation};
use velocity::recent::{same_text, text_extension, RecentFileEntry, RecentFiles};
use velocity::stars::{scatter_stars, star_count, star_glyph, star_position, StarSeed};
use velocity::stats::{
    memory_details, primary_interface, push_sample, uptime_text, InterfaceTotals,
};

#[test]
fn navigation_starts_at_home_in_the_middle_of_the_menu() {
    let nav = Navigation::new(18, 3);
    assert_eq!(nav.state, AppState::Home);
    assert_eq!(nav.app_selection, 8);
    assert_eq!(nav.recent_selection, Some(0));
    assert_eq!(nav.settings_selection, Some(0));
    assert!(!nav.should_quit);
    let empty = Navigation::new(0, 0);
    assert_eq!(empty.app_selection, 0);
    assert_eq!(empty.recent_selection, None);
    assert_eq!(middle_of(1), 0);
    assert_eq!(middle_of(2), 0);
    assert_eq!(middle_of(3), 1);
}

#[test]
fn keys_open_views_and_lead_home() {
    let mut nav = Navigation::new(5, 2);
    assert_eq!(nav.handle_key(Key::Char('a'), 5, 2), Action::Nothing);
    assert_eq!(nav.state, AppState::Apps);
    assert_eq!(nav.app_selection, 2);
    nav.handle_key(Key::Esc, 5, 2);
    assert_eq!(nav.state, AppState::Home);
    assert!(!nav.should_quit);
    nav.handle_key(Key::Char('r'), 5, 0);
    assert_eq!(nav.state, AppState::RecentFiles);
    assert_eq!(nav.recent_selection, None);
    nav.handle_key(Key::Char('h'), 5, 2);
    assert_eq!(nav.state, AppState::Home);
    nav.handle_key(Key::Char('s'), 5, 2);
    assert_eq!(nav.state, AppState::Settings);
    nav.handle_key(Key::Other, 5, 2);
    nav.handle_key(Key::Char('x'), 5, 2);
    assert_eq!(nav.state, AppState::Settings);
    nav.handle_key(Key::Esc, 5, 2);
    nav.handle_key(Key::Esc, 5, 2);
    assert!(nav.should_quit);
    let mut other = Navigation::new(1, 1);
    other.handle_key(Key::Char('Q'), 1, 1);
    assert!(other.should_quit);
    other.handle_key(Key::Char('a'), 1, 1);
    assert!(other.should_quit);
}

#[test]
fn selection_moves_inside_the_list() {
    let mut nav = Navigation::new(3, 2);
    nav.handle_key(Key::Char('a'), 3, 2);
    assert_eq!(nav.app_selection, 1);
    nav.handle_key(Key::Down, 3, 2);
    assert_eq!(nav.app_selection, 2);
    nav.handle_key(Key::Char('j'), 3, 2);
    assert_eq!(nav.app_selection, 2);
    nav.handle_key(Key::Up, 3, 2);
    nav.handle_key(Key::Char('k'), 3, 2);
    nav.handle_key(Key::Up, 3, 2);
    assert_eq!(nav.app_selection, 0);
    nav.handle_key(Key::Char('r'), 3, 2);
    nav.handle_key(Key::Down, 3, 2);
    nav.handle_key(Key::Down, 3, 2);
    assert_eq!(nav.recent_selection, Some(1));
    nav.handle_key(Key::Char('s'), 3, 2);
    for _ in 0..9 {
        nav.handle_key(Key::Down, 3, 2);
    }
    assert_eq!(nav.settings_selection, Some(4));
    nav.handle_key(Key::Up, 3, 2);
    assert_eq!(nav.settings_selection, Some(3));
    nav.handle_key(Key::Char('h'), 3, 2);
    nav.handle_key(Key::Down, 3, 2);
    assert_eq!(nav.app_selection, 0);
}

#[test]
fn choosing_asks_for_the_selected_item() {
    let mut nav = Navigation::new(3, 2);
    assert_eq!(nav.handle_key(Key::Enter, 3, 2), Action::LaunchTerminal);
    assert_eq!(nav.handle_key(Key::Char('l'), 3, 2), Action::Nothing);
    assert_eq!(nav.handle_key(Key::Char('n'), 3, 2), Action::NewFile);
    nav.handle_key(Key::Char('a'), 3, 2);
    assert_eq!(nav.handle_key(Key::Enter, 3, 2), Action::LaunchApp(1));
    assert_eq!(nav.handle_key(Key::Char('l'), 3, 2), Action::LaunchApp(1));
    assert_eq!(nav.handle_key(Key::Char('l'), 1, 2), Action::Nothing);
    assert_eq!(nav.handle_key(Key::Char('n'), 3, 2), Action::Nothing);
    nav.handle_key(Key::Char('r'), 3, 2);
    assert_eq!(nav.handle_key(Key::Enter, 3, 2), Action::OpenRecent(0));
    assert_eq!(nav.handle_key(Key::Enter, 3, 0), Action::Nothing);
    nav.handle_key(Key::Char('s'), 3, 2);
    assert_eq!(nav.handle_key(Key::Enter, 3, 2), Action::Nothing);
    assert_eq!(nav.handle_key(Key::Char('l'), 3, 2), Action::Nothing);
}

#[test]
fn slots_show_the_neighbours_of_the_selection() {
    assert_eq!(NUM_SLOTS, 19);
    assert_eq!(CURSOR_SLOT, 9);
    assert_eq!(item_at_slot(9, 4, 10), Some(4));
    assert_eq!(item_at_slot(8, 4, 10), Some(3));
    assert_eq!(item_at_slot(5, 4, 10), Some(0));
    assert_eq!(item_at_slot(4, 4, 10), None);
    assert_eq!(item_at_slot(14, 4, 10), Some(9));
    assert_eq!(item_at_slot(15, 4, 10), None);
    assert_eq!(item_at_slot(9, 0, 0), None);
    assert_eq!(item_at_slot(18, usize::MAX, usize::MAX), None);
    assert_eq!(clamp_selection(3, 10), 3);
    assert_eq!(clamp_selection(10, 10), 9);
    assert_eq!(clamp_selection(7, 0), 0);
}

fn paths(list: &RecentFiles) -> Vec<String> {
    list.get_files()
}

#[test]
fn recent_files_keep_the_latest_first_and_each_once() {
    let mut list = RecentFiles::new();
    assert_eq!(list.max_files, 20);
    list.add_file("/tmp/a.txt", 1);
    list.add_file("/tmp/b.md", 2);
    list.add_file("/tmp/picture.png", 3);
    list.add_file("/tmp/noext", 4);
    list.add_file("/tmp/a.txt", 5);
    assert_eq!(paths(&list), vec!["/tmp/a.txt", "/tmp/b.md"]);
    assert_eq!(list.entries[0].opened_at, 5);
    assert_eq!(list.entries[1].opened_at, 2);
    list.add_file("/tmp/C.RS", 6);
    assert_eq!(paths(&list), vec!["/tmp/C.RS", "/tmp/a.txt", "/tmp/b.md"]);
}

#[test]
fn recent_files_are_cut_to_their_size() {
    let mut list = RecentFiles::new();
    for i in 0..25u64 {
        list.add_file(&format!("/f/{}.txt", i), i);
    }
    assert_eq!(list.entries.len(), 20);
    assert_eq!(list.entries[0].path, "/f/24.txt");
    assert_eq!(list.entries[19].path, "/f/5.txt");
    let mut small = RecentFiles::from_entries(vec![
        RecentFileEntry { path: "x.rs".to_string(), opened_at: 1 },
        RecentFileEntry { path: "y.rs".to_string(), opened_at: 2 },
        RecentFileEntry { path: "x.rs".to_string(), opened_at: 3 },
    ]);
    small.max_files = 2;
    small.add_entry(RecentFileEntry { path: "z.rs".to_string(), opened_at: 9 });
    assert_eq!(paths(&small), vec!["z.rs", "x.rs"]);
    small.max_files = 0;
    small.add_file("w.rs", 10);
    assert!(small.entries.is_empty());
}

#[test]
fn text_files_are_known_by_their_extension() {
    for ext in [
        "txt", "md", "rs", "py", "js", "ts", "json", "toml", "yaml", "yml", "xml", "html", "css",
        "sh", "zsh", "bash", "c", "cpp", "h", "hpp", "java", "go", "rb", "php", "swift", "kt",
        "scala", "clj", "lua", "vim", "conf", "config", "ini", "log", "csv", "tsv",
    ] {
        assert!(text_extension(ext));
        assert!(RecentFiles::is_text_file(&format!("dir.d/name.{}", ext)));
        assert!(RecentFiles::is_text_file(&format!("NAME.{}", ext.to_uppercase())));
    }
    for ext in ["", "png", "TXT", "tx", "txtx", "rs ", "exe"] {
        assert!(!text_extension(ext));
    }
    assert!(!RecentFiles::is_text_file("archive.tar.gz"));
    assert!(RecentFiles::is_text_file("archive.tar.log"));
    assert!(!RecentFiles::is_text_file(".txt"));
    assert!(!RecentFiles::is_text_file("txt"));
    assert!(!RecentFiles::is_text_file("dir.txt/file"));
    assert!(!RecentFiles::is_text_file(""));
    assert!(same_text("abc", "abc"));
    assert!(!same_text("abc", "abd"));
    assert!(!same_text("abc", "ab"));
    assert!(same_text("", ""));
}

#[test]
fn stars_are_counted_by_area_and_stand_inside_the_sky() {
    assert_eq!(star_count(0, 0), 0);
    assert_eq!(star_count(19, 1), 0);
    assert_eq!(star_count(20, 1), 1);
    assert_eq!(star_count(80, 24), 96);
    assert_eq!(star_count(100, 100), 500);
    assert_eq!(star_count(u16::MAX, u16::MAX), 500);
    let stars = scatter_stars(80, 24);
    assert_eq!(stars.len(), 96);
    for star in &stars {
        assert!(star.x < 80 && star.y < 24);
        assert!((1..=5).contains(&star.brightness));
    }
    assert!(scatter_stars(0, 50).is_empty());
    assert!(scatter_stars(3, 3).is_empty());
    let many = scatter_stars(200, 200);
    assert!(many.iter().any(|s| s.x != many[0].x || s.y != many[0].y));
}

#[test]
fn stars_are_drawn_inside_the_screen_only() {
    assert_eq!(star_glyph(0), "·");
    assert_eq!(star_glyph(1), "·");
    assert_eq!(star_glyph(2), "•");
    assert_eq!(star_glyph(3), "•");
    assert_eq!(star_glyph(4), "✦");
    assert_eq!(star_glyph(6), "✦");
    let star = StarSeed { x: 3, y: 4, brightness: 2 };
    assert_eq!(star_position(&star, 10, 20, 5, 5), Some((13, 24)));
    assert_eq!(star_position(&star, 10, 20, 3, 5), None);
    assert_eq!(star_position(&star, 10, 20, 5, 4), None);
    assert_eq!(star_position(&star, 65534, 0, 5, 5), None);
    assert_eq!(star_position(&star, 65530, 0, 5, 5), Some((65533, 4)));
}

fn interface(name: &str, received: u64, transmitted: u64) -> InterfaceTotals {
    InterfaceTotals { name: name.to_string(), received, transmitted }
}

#[test]
fn the_primary_interface_has_the_most_traffic() {
    assert_eq!(primary_interface(&vec![]), None);
    assert_eq!(primary_interface(&vec![interface("lo", 0, 0)]), Some(0));
    let list = vec![
        interface("lo", 5, 5),
        interface("eth0", 100, 20),
        interface("wlan0", 60, 60),
        interface("tun", 1, 0),
    ];
    assert_eq!(primary_interface(&list), Some(1));
    let huge = vec![interface("a", u64::MAX, 0), interface("b", u64::MAX, 1)];
    assert_eq!(primary_interface(&huge), Some(1));
    let idle = vec![interface("a", 0, 0), interface("b", 0, 0)];
    assert_eq!(primary_interface(&idle), Some(0));
}

#[test]
fn a_history_drops_its_oldest_sample() {
    let mut samples: VecDeque<f64> = VecDeque::new();
    for i in 0..5 {
        push_sample(&mut samples, i as f64, 3);
    }
    assert_eq!(samples, VecDeque::from(vec![2.0, 3.0, 4.0]));
    let mut none: VecDeque<u8> = VecDeque::new();
    push_sample(&mut none, 1, 0);
    assert!(none.is_empty());
}

#[test]
fn uptime_is_written_in_days_hours_and_minutes() {
    assert_eq!(uptime_text(0), "N/A");
    assert_eq!(uptime_text(59), "0m");
    assert_eq!(uptime_text(60), "1m");
    assert_eq!(uptime_text(3600), "1h 0m");
    assert_eq!(uptime_text(3600 + 125), "1h 2m");
    assert_eq!(uptime_text(86400), "1d 0h 0m");
    assert_eq!(uptime_text(3 * 86400 + 5 * 3600 + 7 * 60 + 9), "3d 5h 7m");
    let m = memory_details(8, 2, 16, 1, 4);
    assert_eq!((m.used, m.free, m.total, m.cached, m.buffers, m.swap_used, m.swap_total), (8, 2, 16, 0, 0, 1, 4));
}

#[test]
fn pinned_slots_repeat_the_first_item_above_the_list() {
    assert_eq!(item_at_slot_pinned(9, 2, 5), Some(2));
    assert_eq!(item_at_slot_pinned(7, 2, 5), Some(0));
    assert_eq!(item_at_slot_pinned(0, 2, 5), Some(0));
    assert_eq!(item_at_slot_pinned(11, 2, 5), Some(4));
    assert_eq!(item_at_slot_pinned(12, 2, 5), None);
    assert_eq!(item_at_slot_pinned(3, 0, 0), None);
    assert_eq!(item_at_slot_pinned(18, usize::MAX, usize::MAX), None);
}

#[test]
fn a_used_row_is_left_for_the_nearest_free_one() {
    let used: HashSet<u16> = [5, 6, 7].into_iter().collect();
    assert_eq!(free_row(&used, 4, false, 20), 4);
    assert_eq!(free_row(&used, 5, false, 20), 8);
    assert_eq!(free_row(&used, 6, true, 20), 4);
    assert_eq!(free_row(&used, 7, true, 20), 4);
    let top: HashSet<u16> = [0, 1].into_iter().collect();
    assert_eq!(free_row(&top, 1, true, 10), 0);
    let bottom: HashSet<u16> = [8, 9].into_iter().collect();
    assert_eq!(free_row(&bottom, 8, false, 10), 9);
    assert_eq!(free_row(&bottom, 8, false, 0), 8);
    let far: HashSet<u16> = [65535].into_iter().collect();
    assert_eq!(free_row(&far, 65535, false, 65535), 65534);
}

#[test]
fn outer_slots_stand_closer_to_the_globe() {
    let gaps: Vec<u16> = (0..NUM_SLOTS).map(slot_gap).collect();
    assert_eq!(gaps, vec![4, 4, 5, 5, 6, 6, 6, 6, 6, 6, 6, 6, 6, 6, 6, 5, 5, 4, 4]);
    assert_eq!(slot_gap(19), 6);
}

#[test]
fn interfaces_are_listed_by_traffic() {
    use_traffic_order();
}

fn use_traffic_order() {
    let list = vec![
        interface("lo", 5, 5),
        interface("eth0", 100, 20),
        interface("wlan0", 60, 60),
        interface("tun", 1, 0),
        interface("br0", 10, 0),
    ];
    assert_eq!(velocity::stats::traffic_order(&list), vec![1, 2, 0, 4, 3]);
    assert_eq!(velocity::stats::traffic_order(&vec![]), Vec::<usize>::new());
    let huge = vec![interface("a", u64::MAX, 0), interface("b", u64::MAX, 1), interface("c", 0, 0)];
    assert_eq!(velocity::stats::traffic_order(&huge), vec![1, 0, 2]);
    assert_eq!(velocity::recent::new_file_name("20240131_235959"), "new_file_20240131_235959.txt");
}
