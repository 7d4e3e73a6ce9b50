use image_viewer::args::{Args, WRONG_ARG_COUNT};
use image_viewer::config::{Config, InvocationMode, PathKind, NEITHER_FILE_NOR_DIR, NO_METADATA};
use image_viewer::controls::{command_for, handle_event, Command, InputEvent, Key, Reaction};
use image_viewer::fit::fit_within;
use image_viewer::folder::{is_supported_extension, Entry, FolderView, NO_SUPPORTED_FILES};
use image_viewer::paths::same_text;

fn argv(items: &[&str]) -> Vec<String> {
    items.iter().map(|s| s.to_string()).collect()
}

fn entry(path: &str, is_file: bool) -> Entry {
    let name = path.rsplit('/').next().unwrap().to_string();
    Entry { path: path.to_string(), name, is_file }
}

fn config(path: &str, mode: InvocationMode) -> Config {
    Config { args: Args { path: path.to_string() }, invoked_as: mode }
}

fn listing() -> Vec<Entry> {
    vec![
        entry("/pics/notes.txt", true),
        entry("/pics/a.jpg", true),
        entry("/pics/folder.png", false),
        entry("/pics/b.PNG", true),
        entry("/pics/c.webp", true),
        entry("/pics/d.gif", true),
    ]
}

fn paths(view: &mut FolderView, steps: usize, forward: bool) -> Vec<String> {
    let mut out = Vec::new();
    for _ in 0..steps {
        let e = if forward { view.next() } else { view.prev() };
        out.push(e.path.clone());
    }
    out
}

#[test]
fn parse_takes_the_single_path() {
    let a = Args::parse(&argv(&["viewer", "/pics/a.jpg"])).unwrap();
    assert_eq!(a.path, "/pics/a.jpg");
}

#[test]
fn parse_rejects_missing_path() {
    assert_eq!(Args::parse(&argv(&["viewer"])).unwrap_err(), WRONG_ARG_COUNT);
}

#[test]
fn parse_rejects_extra_arguments() {
    assert_eq!(Args::parse(&argv(&["viewer", "a", "b"])).unwrap_err(), WRONG_ARG_COUNT);
}

#[test]
fn config_classifies_directory_and_file() {
    let d = Config::from(Args { path: "/pics".to_string() }, Some(PathKind::Directory)).unwrap();
    assert_eq!(d.invoked_as, InvocationMode::Directory);
    assert_eq!(d.args.path, "/pics");
    let f = Config::from(Args { path: "/pics/a.jpg".to_string() }, Some(PathKind::File)).unwrap();
    assert_eq!(f.invoked_as, InvocationMode::File);
}

#[test]
fn config_rejects_other_and_missing() {
    let other = Config::from(Args { path: "/dev/null".to_string() }, Some(PathKind::Other));
    assert_eq!(other.unwrap_err(), NEITHER_FILE_NOR_DIR);
    let missing = Config::from(Args { path: "/nope".to_string() }, None);
    assert_eq!(missing.unwrap_err(), NO_METADATA);
}

#[test]
fn fit_keeps_small_image() {
    assert_eq!(fit_within(800, 600, 1920, 1080), (800, 600));
    assert_eq!(fit_within(1920, 1080, 1920, 1080), (1920, 1080));
}

#[test]
fn fit_scales_wide_image_by_width() {
    assert_eq!(fit_within(4000, 1000, 1920, 1080), (1920, 480));
    assert_eq!(fit_within(3840, 2160, 1920, 1080), (1920, 1080));
}

#[test]
fn fit_scales_tall_image_by_height() {
    assert_eq!(fit_within(1000, 3000, 1920, 1080), (360, 1080));
    assert_eq!(fit_within(1000, 1100, 1920, 1080), (981, 1080));
}

#[test]
fn fit_handles_degenerate_sizes() {
    assert_eq!(fit_within(0, 2000, 1920, 1080), (0, 1080));
    assert_eq!(fit_within(3000, 0, 1920, 1080), (1920, 0));
    assert_eq!(fit_within(5, 5, 0, 0), (0, 0));
    assert_eq!(fit_within(u32::MAX, u32::MAX, 1, 1), (1, 1));
}

#[test]
fn supported_extensions_are_lowercase_names() {
    assert!(is_supported_extension("jpeg"));
    assert!(is_supported_extension("jpg"));
    assert!(is_supported_extension("png"));
    assert!(is_supported_extension("webp"));
    assert!(!is_supported_extension("JPG"));
    assert!(!is_supported_extension("gif"));
    assert!(!is_supported_extension(""));
}

#[test]
fn file_format_ignores_case_of_extension() {
    assert!(FolderView::is_supported_file_format("/pics/a.JPG"));
    assert!(FolderView::is_supported_file_format("/pics/a.Jpeg"));
    assert!(FolderView::is_supported_file_format("archive.tar.webp"));
    assert!(!FolderView::is_supported_file_format("/pics/a.gif"));
    assert!(!FolderView::is_supported_file_format("/pics/readme"));
    assert!(!FolderView::is_supported_file_format("/pics/.png"));
}

#[test]
fn same_text_compares_characters() {
    assert!(same_text("äb", "äb"));
    assert!(!same_text("ab", "abc"));
    assert!(!same_text("ab", "aB"));
}

#[test]
fn folder_keeps_supported_files_in_order() {
    let mut v = FolderView::from(&config("/pics", InvocationMode::Directory), &listing()).unwrap();
    assert_eq!(v.cur().path, "/pics/a.jpg");
    assert_eq!(paths(&mut v, 3, true), vec!["/pics/b.PNG", "/pics/c.webp", "/pics/a.jpg"]);
}

#[test]
fn folder_starts_at_given_file() {
    let v = FolderView::from(&config("/pics/c.webp", InvocationMode::File), &listing()).unwrap();
    assert_eq!(v.cur().path, "/pics/c.webp");
    assert_eq!(v.cur().name, "c.webp");
}

#[test]
fn folder_matches_file_by_path_components() {
    let v = FolderView::from(&config("/pics//b.PNG", InvocationMode::File), &listing()).unwrap();
    assert_eq!(v.cur().path, "/pics/b.PNG");
}

#[test]
fn folder_starts_at_first_when_file_not_found() {
    let v = FolderView::from(&config("pics/c.webp", InvocationMode::File), &listing()).unwrap();
    assert_eq!(v.cur().path, "/pics/a.jpg");
}

#[test]
fn folder_without_images_is_an_error() {
    let only_other = vec![entry("/pics/notes.txt", true), entry("/pics/dir.jpg", false)];
    let r = FolderView::from(&config("/pics", InvocationMode::Directory), &only_other);
    assert_eq!(r.err(), Some(NO_SUPPORTED_FILES));
    let empty: Vec<Entry> = Vec::new();
    let r = FolderView::from(&config("/pics", InvocationMode::Directory), &empty);
    assert_eq!(r.err(), Some(NO_SUPPORTED_FILES));
}

#[test]
fn prev_wraps_to_last() {
    let mut v = FolderView::from(&config("/pics", InvocationMode::Directory), &listing()).unwrap();
    assert_eq!(paths(&mut v, 3, false), vec!["/pics/c.webp", "/pics/b.PNG", "/pics/a.jpg"]);
}

#[test]
fn single_image_stays_put() {
    let one = vec![entry("/pics/a.jpg", true)];
    let mut v = FolderView::from(&config("/pics", InvocationMode::Directory), &one).unwrap();
    assert_eq!(v.next().path, "/pics/a.jpg");
    assert_eq!(v.prev().path, "/pics/a.jpg");
}

#[test]
fn commands_for_events() {
    assert_eq!(command_for(InputEvent::Quit), Command::Quit);
    assert_eq!(command_for(InputEvent::KeyDown(Key::Q)), Command::Quit);
    assert_eq!(command_for(InputEvent::KeyDown(Key::Left)), Command::ShowNext);
    assert_eq!(command_for(InputEvent::KeyDown(Key::Right)), Command::ShowPrev);
    assert_eq!(command_for(InputEvent::KeyDown(Key::Other)), Command::Nothing);
    assert_eq!(command_for(InputEvent::Other), Command::Nothing);
}

#[test]
fn events_move_the_cursor() {
    let mut v = FolderView::from(&config("/pics", InvocationMode::Directory), &listing()).unwrap();
    assert_eq!(handle_event(&mut v, InputEvent::KeyDown(Key::Left)), Reaction::Show);
    assert_eq!(v.cur().path, "/pics/b.PNG");
    assert_eq!(handle_event(&mut v, InputEvent::KeyDown(Key::Right)), Reaction::Show);
    assert_eq!(handle_event(&mut v, InputEvent::KeyDown(Key::Right)), Reaction::Show);
    assert_eq!(v.cur().path, "/pics/c.webp");
    assert_eq!(handle_event(&mut v, InputEvent::Other), Reaction::Wait);
    assert_eq!(handle_event(&mut v, InputEvent::Quit), Reaction::Quit);
    assert_eq!(v.cur().path, "/pics/c.webp");
}

#[test]
fn next_then_prev_returns_to_start() {
    let mut v = FolderView::from(&config("/pics/b.PNG", InvocationMode::File), &listing()).unwrap();
    let start = v.cur().path.clone();
    v.next();
    assert_eq!(v.prev().path, start);
    v.prev();
    assert_eq!(v.next().path, start);
    let mut w = FolderView::from(&config("/pics/c.webp", InvocationMode::File), &listing()).unwrap();
    w.next();
    assert_eq!(w.prev().path, "/pics/c.webp");
}
