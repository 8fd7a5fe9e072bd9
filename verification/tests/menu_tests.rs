use gopher_server::menu::{render_menu, ItemType, MenuEntry};
use gopher_server::server::{DirItem, GopherServer, CRLF, MAP_FILE_NAME};

fn entry(item_type: ItemType, name: &str, path: &str) -> MenuEntry {
    MenuEntry {
        item_type,
        display_name: String::from(name),
        selector_path: String::from(path),
        host: String::from("localhost"),
        port: String::from("7070"),
    }
}

fn item(name: &str, path: &str, kind: Option<ItemType>) -> DirItem {
    DirItem { name: String::from(name), path: String::from(path), kind }
}

#[test]
fn constants_have_their_values() {
    assert_eq!(CRLF, "\r\n");
    assert_eq!(MAP_FILE_NAME, "map.txt");
}

#[test]
fn prefix_is_one_for_directories_and_zero_for_files() {
    assert_eq!(ItemType::Directory.prefix(), "1");
    assert_eq!(ItemType::File.prefix(), "0");
    assert!(entry(ItemType::Directory, "b", "./b").line().starts_with('1'));
    assert!(entry(ItemType::File, "a.txt", "./a.txt").line().starts_with('0'));
}

#[test]
fn item_type_follows_the_directory_bit() {
    assert_eq!(ItemType::from_is_dir(true), ItemType::Directory);
    assert_eq!(ItemType::from_is_dir(false), ItemType::File);
}

#[test]
fn line_has_the_exact_format() {
    assert_eq!(
        entry(ItemType::File, "a.txt", "./a.txt").line(),
        "0a.txt\t./a.txt\tlocalhost\t7070\n"
    );
    assert_eq!(entry(ItemType::Directory, "b", "./b").line(), "1b\t./b\tlocalhost\t7070\n");
}

#[test]
fn line_has_four_fields() {
    let line = entry(ItemType::File, "notes", "docs/notes").line();
    let body = line.strip_suffix('\n').unwrap();
    let fields: Vec<&str> = body.split('\t').collect();
    assert_eq!(fields, vec!["0notes", "docs/notes", "localhost", "7070"]);
}

#[test]
fn line_of_empty_fields() {
    let e = MenuEntry {
        item_type: ItemType::File,
        display_name: String::new(),
        selector_path: String::new(),
        host: String::new(),
        port: String::new(),
    };
    assert_eq!(e.line(), "0\t\t\t\n");
}

#[test]
fn empty_menu_is_the_closing_line() {
    assert_eq!(render_menu(&Vec::new()), ".\n");
}

#[test]
fn menu_keeps_the_order_of_its_entries() {
    let entries = vec![
        entry(ItemType::Directory, "z", "r/z"),
        entry(ItemType::File, "a", "r/a"),
        entry(ItemType::File, "m", "r/m"),
    ];
    assert_eq!(
        render_menu(&entries),
        "1z\tr/z\tlocalhost\t7070\n0a\tr/a\tlocalhost\t7070\n0m\tr/m\tlocalhost\t7070\n.\n"
    );
}

#[test]
fn menu_has_one_line_for_each_entry_and_the_closing_line() {
    let mut entries = Vec::new();
    for i in 0..25 {
        entries.push(entry(ItemType::File, &format!("f{}", i), &format!("d/f{}", i)));
    }
    let text = render_menu(&entries);
    let lines: Vec<&str> = text.lines().collect();
    assert_eq!(lines.len(), 26);
    for i in 0..25 {
        assert_eq!(lines[i], format!("0f{}\td/f{}\tlocalhost\t7070", i, i));
    }
    assert_eq!(lines[25], ".");
    assert!(text.ends_with(".\n"));
}

#[test]
fn menu_entry_takes_host_and_port_from_the_server() {
    let server = GopherServer::new("example.org", "70", "/srv");
    let e = server.menu_entry(&item("b", "/srv/b", Some(ItemType::Directory))).unwrap();
    assert_eq!(
        e,
        MenuEntry {
            item_type: ItemType::Directory,
            display_name: String::from("b"),
            selector_path: String::from("/srv/b"),
            host: String::from("example.org"),
            port: String::from("70"),
        }
    );
    assert_eq!(server.menu_entry(&item("x", "/srv/x", None)), None);
}

#[test]
fn items_of_unknown_type_are_left_out() {
    let server = GopherServer::new("localhost", "7070", ".");
    let items = vec![
        item("a", "./a", Some(ItemType::File)),
        item("broken", "./broken", None),
        item("d", "./d", Some(ItemType::Directory)),
    ];
    let entries = server.menu_entries(&items);
    assert_eq!(entries.len(), 2);
    assert_eq!(entries[0].display_name, "a");
    assert_eq!(entries[1].display_name, "d");
    assert_eq!(
        server.generate_map_file(&items),
        "0a\t./a\tlocalhost\t7070\n1d\t./d\tlocalhost\t7070\n.\n"
    );
}

#[test]
fn map_file_of_a_root_with_a_file_and_a_directory() {
    let server = GopherServer::new("localhost", "7070", ".");
    let items = vec![
        item("b", "./b", Some(ItemType::Directory)),
        item("a.txt", "./a.txt", Some(ItemType::File)),
    ];
    let text = server.generate_map_file(&items);
    let mut lines: Vec<&str> = text.lines().collect();
    assert_eq!(lines.pop(), Some("."));
    lines.sort();
    assert_eq!(lines.len(), 2);
    assert!(lines[0].starts_with("0a.txt\t"));
    assert!(lines[1].starts_with("1b\t"));
    assert_eq!(lines[0], "0a.txt\t./a.txt\tlocalhost\t7070");
    assert_eq!(lines[1], "1b\t./b\tlocalhost\t7070");
}

#[test]
fn map_file_of_an_empty_directory() {
    let server = GopherServer::new("localhost", "7070", ".");
    assert_eq!(server.generate_map_file(&Vec::new()), ".\n");
}

#[test]
fn map_file_does_not_depend_on_the_listing_order_as_a_set() {
    let server = GopherServer::new("h", "1", ".");
    let a = item("a", "./a", Some(ItemType::File));
    let b = item("b", "./b", Some(ItemType::Directory));
    let one = server.generate_map_file(&vec![a.clone(), b.clone()]);
    let two = server.generate_map_file(&vec![b, a]);
    let mut l1: Vec<&str> = one.lines().collect();
    let mut l2: Vec<&str> = two.lines().collect();
    l1.sort();
    l2.sort();
    assert_eq!(l1, l2);
    assert_ne!(one, two);
}
