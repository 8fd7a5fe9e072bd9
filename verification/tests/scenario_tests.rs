use std::collections::HashMap;

use gopher_server::connection::{Action, ConnState, Event};
use gopher_server::menu::ItemType;
use gopher_server::server::{DirItem, GopherServer};

/// A file system in memory: directories with their listings, files with
/// their content, and the menu files by the directory they belong to.
struct Disk {
    dirs: HashMap<String, Vec<DirItem>>,
    files: HashMap<String, String>,
    menus: HashMap<(String, String), String>,
    listings: usize,
}

impl Disk {
    fn perform(&mut self, action: Action, line: &str, sent: &mut String) -> Event {
        match action {
            Action::ReadLine => Event::Line(String::from(line)),
            Action::ProbeDirectory { path } => Event::Probed(self.dirs.contains_key(&path)),
            Action::ProbeMenuFile { dir, name } => {
                Event::Probed(self.menus.contains_key(&(dir, name)))
            }
            Action::ListDirectory { dir } => match self.dirs.get(&dir) {
                Some(items) => {
                    self.listings += 1;
                    Event::Listed(items.clone())
                }
                None => Event::Failed,
            },
            Action::WriteMenuFile { dir, name, content } => {
                if self.dirs.contains_key(&dir) {
                    self.menus.insert((dir, name), content);
                    Event::Completed
                } else {
                    Event::Failed
                }
            }
            Action::SendMenuFile { dir, name } => match self.menus.get(&(dir, name)) {
                Some(content) => {
                    sent.push_str(content);
                    Event::Completed
                }
                None => Event::Failed,
            },
            Action::SendFile { path } => match self.files.get(&path) {
                Some(content) => {
                    sent.push_str(content);
                    Event::Completed
                }
                None => Event::Failed,
            },
            Action::Close => Event::Completed,
        }
    }
}

/// Runs one connection; what was sent, whether it failed, and how many
/// actions it took.
fn request(server: &GopherServer, disk: &mut Disk, line: &str) -> (String, bool, usize) {
    let mut sent = String::new();
    let mut actions = 0;
    let (mut state, mut action) = ConnState::start();
    while !state.is_done() {
        assert!(actions < 6, "a connection takes at most six actions");
        let event = disk.perform(action, line, &mut sent);
        let next = server.step(state, event);
        state = next.0;
        action = next.1;
        actions += 1;
    }
    assert_eq!(action, Action::Close);
    (sent, state == ConnState::Done { failed: true }, actions)
}

fn menu_key(dir: &str) -> (String, String) {
    (String::from(dir), String::from("map.txt"))
}

fn item(name: &str, path: &str, kind: ItemType) -> DirItem {
    DirItem { name: String::from(name), path: String::from(path), kind: Some(kind) }
}

fn sample_disk() -> Disk {
    let mut dirs = HashMap::new();
    dirs.insert(
        String::from("."),
        vec![item("a.txt", "./a.txt", ItemType::File), item("b", "./b", ItemType::Directory)],
    );
    dirs.insert(String::from("b"), Vec::new());
    let mut files = HashMap::new();
    files.insert(String::from("a.txt"), String::from("hi"));
    Disk { dirs, files, menus: HashMap::new(), listings: 0 }
}

fn sample_server() -> GopherServer {
    GopherServer::new("localhost", "7070", ".")
}

#[test]
fn scenario_root_menu() {
    let mut disk = sample_disk();
    let (sent, failed, _) = request(&sample_server(), &mut disk, "\r\n");
    assert!(!failed);
    let mut lines: Vec<&str> = sent.split('\n').collect();
    assert_eq!(lines.pop(), Some(""));
    assert_eq!(lines.pop(), Some("."));
    lines.sort();
    assert_eq!(lines.len(), 2);
    assert!(lines[0].starts_with("0a.txt\t"));
    assert!(lines[1].starts_with("1b\t"));
    assert_eq!(disk.menus.get(&menu_key(".")), Some(&sent));
}

#[test]
fn scenario_file() {
    let mut disk = sample_disk();
    let (sent, failed, _) = request(&sample_server(), &mut disk, "a.txt\r\n");
    assert!(!failed);
    assert_eq!(sent, "hi");
    assert!(disk.menus.is_empty());
}

#[test]
fn scenario_empty_subdirectory() {
    let mut disk = sample_disk();
    assert!(!disk.menus.contains_key(&menu_key("b")));
    let (sent, failed, _) = request(&sample_server(), &mut disk, "b\r\n");
    assert!(!failed);
    assert_eq!(sent, ".\n");
    assert_eq!(disk.menus.get(&menu_key("b")), Some(&String::from(".\n")));
}

#[test]
fn second_request_reuses_the_menu_file() {
    let server = sample_server();
    let mut disk = sample_disk();
    let (first, failed, actions) = request(&server, &mut disk, "\r\n");
    assert!(!failed);
    assert_eq!(actions, 5);
    assert_eq!(disk.listings, 1);
    // the directory changes
    disk.dirs.get_mut(".").unwrap().push(item("new", "./new", ItemType::File));
    disk.files.insert(String::from("new"), String::from("fresh"));
    let (second, failed, actions) = request(&server, &mut disk, "\r\n");
    assert!(!failed);
    assert_eq!(second, first);
    assert_eq!(disk.listings, 1);
    assert_eq!(actions, 3);
}

#[test]
fn menu_of_many_entries_has_each_once() {
    let server = sample_server();
    let mut disk = sample_disk();
    let mut items = Vec::new();
    for i in 0..40 {
        let kind = if i % 3 == 0 { ItemType::Directory } else { ItemType::File };
        items.push(item(&format!("e{}", i), &format!("big/e{}", i), kind));
    }
    disk.dirs.insert(String::from("big"), items);
    let (sent, failed, _) = request(&server, &mut disk, "big\r\n");
    assert!(!failed);
    let lines: Vec<&str> = sent.lines().collect();
    assert_eq!(lines.len(), 41);
    assert_eq!(lines[40], ".");
    for i in 0..40 {
        let prefix = if i % 3 == 0 { '1' } else { '0' };
        let want = format!("{}e{}\tbig/e{}\tlocalhost\t7070", prefix, i, i);
        assert_eq!(lines.iter().filter(|l| **l == want).count(), 1);
    }
}

#[test]
fn empty_selector_answers_as_the_roots_own_selector() {
    let server = sample_server();
    let mut one = sample_disk();
    let mut two = sample_disk();
    let (by_empty, failed_empty, _) = request(&server, &mut one, "\r\n");
    let (by_name, failed_name, _) = request(&server, &mut two, ".\r\n");
    assert_eq!(by_empty, by_name);
    assert_eq!(failed_empty, failed_name);
    assert_eq!(one.menus, two.menus);
}

#[test]
fn missing_path_sends_nothing_and_the_next_request_is_served() {
    let server = sample_server();
    let mut disk = sample_disk();
    let (sent, failed, _) = request(&server, &mut disk, "no/such/file\r\n");
    assert!(failed);
    assert_eq!(sent, "");
    let (sent, failed, _) = request(&server, &mut disk, "a.txt\r\n");
    assert!(!failed);
    assert_eq!(sent, "hi");
}

#[test]
fn truncated_menu_file_is_trusted() {
    let server = sample_server();
    let mut disk = sample_disk();
    disk.menus.insert(menu_key("."), String::from("0a.t"));
    let (sent, failed, _) = request(&server, &mut disk, "\r\n");
    assert!(!failed);
    assert_eq!(sent, "0a.t");
    assert_eq!(disk.listings, 0);
}

#[test]
fn selector_outside_the_root_is_served() {
    let server = sample_server();
    let mut disk = sample_disk();
    disk.files.insert(String::from("../secret"), String::from("s3"));
    let (sent, failed, _) = request(&server, &mut disk, "../secret\r\n");
    assert!(!failed);
    assert_eq!(sent, "s3");
}
