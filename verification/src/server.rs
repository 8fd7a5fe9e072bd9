//! The server's configuration and what follows from it alone: the address
//! to listen on, the resolution of a selector, and the menu of a directory
//! that was listed.

use vstd::prelude::*;
use vstd::string::*;
use crate::menu::{
    entry_views, fields_free_of, lemma_menu_line_count, menu_text, occurrences, render_menu,
    ItemType, MenuEntry, MenuEntryView,
};
use crate::selector::{is_whitespace, skip_leading, skip_trailing, trim_selector, trimmed};

verus! {

/// The name of the file, inside a directory, that holds the directory's menu.
pub const MAP_FILE_NAME: &'static str = "map.txt";

/// The request line of the empty selector.
pub const CRLF: &'static str = "\r\n";

/// The host and the port that the server listens on and names in its menus,
/// and the directory that the empty selector stands for.
#[derive(Clone, Debug, PartialEq, Eq)]
pub struct GopherServer {
    pub host: String,
    pub port: String,
    pub root: String,
}

/// A server's configuration as the contracts see it.
pub struct ServerView {
    pub host: Seq<char>,
    pub port: Seq<char>,
    pub root: Seq<char>,
}

impl View for GopherServer {
    type V = ServerView;

    open spec fn view(&self) -> ServerView {
        ServerView { host: self.host@, port: self.port@, root: self.root@ }
    }
}

/// One entry of a directory as it was listed: its name, its path, and its
/// type where that could be determined.
#[derive(Clone, Debug, PartialEq, Eq)]
pub struct DirItem {
    pub name: String,
    pub path: String,
    pub kind: Option<ItemType>,
}

/// A listed entry as the contracts see it.
pub struct DirItemView {
    pub name: Seq<char>,
    pub path: Seq<char>,
    pub kind: Option<ItemType>,
}

impl View for DirItem {
    type V = DirItemView;

    open spec fn view(&self) -> DirItemView {
        DirItemView { name: self.name@, path: self.path@, kind: self.kind }
    }
}

/// A path with its classification.
#[derive(Clone, Debug, PartialEq, Eq)]
pub struct ResolvedPath {
    pub path: String,
    pub kind: ItemType,
}

/// A resolved path as the contracts see it.
pub struct ResolvedPathView {
    pub path: Seq<char>,
    pub kind: ItemType,
}

impl View for ResolvedPath {
    type V = ResolvedPathView;

    open spec fn view(&self) -> ResolvedPathView {
        ResolvedPathView { path: self.path@, kind: self.kind }
    }
}

/// The views of the items of a listing, in its order.
pub open spec fn item_views(items: Seq<DirItem>) -> Seq<DirItemView> {
    items.map_values(|d: DirItem| d@)
}

/// The characters of the empty selector's request line.
pub open spec fn crlf() -> Seq<char> {
    seq!['\r', '\n']
}

/// The characters of the menu file's name.
pub open spec fn map_file_name() -> Seq<char> {
    seq!['m', 'a', 'p', '.', 't', 'x', 't']
}

/// The address to listen on: the host, a colon, the port.
pub open spec fn address_of(host: Seq<char>, port: Seq<char>) -> Seq<char> {
    host + seq![':'] + port
}

/// The menu entry of a listed item of type `kind`.
pub open spec fn entry_of(item: DirItemView, kind: ItemType, cfg: ServerView) -> MenuEntryView {
    MenuEntryView {
        item_type: kind,
        display_name: item.name,
        selector_path: item.path,
        host: cfg.host,
        port: cfg.port,
    }
}

/// The menu entries of a listing: one for each item whose type is known, in
/// the listing's order. An item of unknown type is left out.
pub open spec fn typed_entries(items: Seq<DirItemView>, cfg: ServerView) -> Seq<MenuEntryView>
    decreases items.len(),
{
    if items.len() == 0 {
        Seq::empty()
    } else {
        let front = typed_entries(items.drop_last(), cfg);
        match items.last().kind {
            Some(kind) => front.push(entry_of(items.last(), kind, cfg)),
            None => front,
        }
    }
}

/// Whether a request line asks for the root: it is the bare terminator, or
/// nothing but white space.
pub open spec fn is_root_request(line: Seq<char>) -> bool {
    line == crlf() || trimmed(line).len() == 0
}

/// What a request line resolves to, `is_dir` saying whether its selector
/// names an existing directory. A root request resolves to the root, which
/// is taken to be a directory. Any other selector is itself the path.
pub open spec fn resolved(cfg: ServerView, line: Seq<char>, is_dir: bool) -> ResolvedPathView {
    if is_root_request(line) {
        ResolvedPathView { path: cfg.root, kind: ItemType::Directory }
    } else {
        ResolvedPathView {
            path: trimmed(line),
            kind: if is_dir {
                ItemType::Directory
            } else {
                ItemType::File
            },
        }
    }
}

/// The constant `CRLF` holds the empty selector's request line, and
/// `MAP_FILE_NAME` the name `map.txt`.
pub proof fn lemma_constants()
    ensures
        CRLF@ == crlf(),
        MAP_FILE_NAME@ == map_file_name(),
{
    reveal_strlit("\r\n");
    reveal_strlit("map.txt");
    assert(CRLF@ =~= crlf());
    assert(MAP_FILE_NAME@ =~= map_file_name());
}

/// The bare terminator is nothing but white space.
pub proof fn lemma_crlf_is_blank()
    ensures
        trimmed(crlf()).len() == 0,
        forall|line: Seq<char>| is_root_request(line) <==> trimmed(line).len() == 0,
{
    let s = crlf();
    assert(is_whitespace('\r') && is_whitespace('\n'));
    assert(s.drop_first() =~= seq!['\n']);
    assert(seq!['\n'].drop_first() =~= Seq::<char>::empty());
    assert(skip_leading(Seq::<char>::empty()) == Seq::<char>::empty());
    assert(skip_leading(seq!['\n']) == Seq::<char>::empty());
    assert(skip_leading(s) == Seq::<char>::empty());
    assert(skip_trailing(Seq::<char>::empty()) == Seq::<char>::empty());
}

/// The empty selector is answered as the root directory's own selector is:
/// the bare terminator, whatever the probe says, and a line that names the
/// root, where the root is a directory, resolve to the same path with the
/// same classification.
pub proof fn lemma_empty_selector_is_root(
    cfg: ServerView,
    line: Seq<char>,
    probe_of_empty: bool,
)
    requires
        trimmed(line) == cfg.root,
    ensures
        resolved(cfg, crlf(), probe_of_empty) == (ResolvedPathView {
            path: cfg.root,
            kind: ItemType::Directory,
        }),
        resolved(cfg, line, true) == resolved(cfg, crlf(), probe_of_empty),
{
    lemma_crlf_is_blank();
}

/// A selector that is no root request and names no directory resolves to
/// itself as a file, whether or not anything is there.
pub proof fn lemma_other_paths_are_files(cfg: ServerView, line: Seq<char>)
    requires
        !is_root_request(line),
    ensures
        resolved(cfg, line, false) == (ResolvedPathView {
            path: trimmed(line),
            kind: ItemType::File,
        }),
        resolved(cfg, line, false).path.len() > 0,
{
}

/// The listing's order is the menu's order: a longer listing adds its lines
/// behind those of the shorter one.
pub proof fn lemma_typed_entries_push(items: Seq<DirItemView>, item: DirItemView, cfg: ServerView)
    ensures
        typed_entries(items.push(item), cfg) == match item.kind {
            Some(kind) => typed_entries(items, cfg).push(entry_of(item, kind, cfg)),
            None => typed_entries(items, cfg),
        },
{
    assert(items.push(item).drop_last() =~= items);
}

/// The entries of two listings, one behind the other, are the entries of the
/// first and behind them those of the second.
pub proof fn lemma_typed_entries_concat(a: Seq<DirItemView>, b: Seq<DirItemView>, cfg: ServerView)
    ensures
        typed_entries(a + b, cfg) == typed_entries(a, cfg) + typed_entries(b, cfg),
    decreases b.len(),
{
    if b.len() == 0 {
        assert(a + b =~= a);
        assert(typed_entries(a, cfg) + typed_entries(b, cfg) =~= typed_entries(a, cfg));
    } else {
        lemma_typed_entries_concat(a, b.drop_last(), cfg);
        assert((a + b).drop_last() =~= a + b.drop_last());
        assert((a + b).last() == b.last());
        let front = typed_entries(a, cfg) + typed_entries(b.drop_last(), cfg);
        match b.last().kind {
            Some(kind) => {
                let e = entry_of(b.last(), kind, cfg);
                assert(front.push(e) =~= typed_entries(a, cfg) + typed_entries(
                    b.drop_last(),
                    cfg,
                ).push(e));
            },
            None => {},
        }
    }
}

/// A menu has at most as many entries as the listing has items, and every
/// entry names the server's host and port. Where the type of every item is
/// known, the menu has exactly one entry for each item, at the item's place,
/// with the item's type, name and path.
pub proof fn lemma_typed_entries_count(items: Seq<DirItemView>, cfg: ServerView)
    ensures
        typed_entries(items, cfg).len() <= items.len(),
        forall|k: int|
            0 <= k < typed_entries(items, cfg).len() ==> {
                &&& (#[trigger] typed_entries(items, cfg)[k]).host == cfg.host
                &&& typed_entries(items, cfg)[k].port == cfg.port
            },
        (forall|i: int| 0 <= i < items.len() ==> (#[trigger] items[i]).kind is Some) ==> {
            &&& typed_entries(items, cfg).len() == items.len()
            &&& forall|i: int|
                0 <= i < items.len() ==> #[trigger] typed_entries(items, cfg)[i] == entry_of(
                    items[i],
                    items[i].kind.unwrap(),
                    cfg,
                )
        },
    decreases items.len(),
{
    if items.len() > 0 {
        let front = items.drop_last();
        lemma_typed_entries_count(front, cfg);
        if forall|i: int| 0 <= i < items.len() ==> (#[trigger] items[i]).kind is Some {
            assert forall|i: int| 0 <= i < front.len() implies (#[trigger] front[i]).kind is Some by {
                assert(front[i] == items[i]);
            }
            assert(items[items.len() - 1].kind is Some);
            assert forall|i: int| 0 <= i < items.len() implies #[trigger] typed_entries(
                items,
                cfg,
            )[i] == entry_of(items[i], items[i].kind.unwrap(), cfg) by {
                if i < front.len() {
                    assert(front[i] == items[i]);
                    assert(typed_entries(front, cfg)[i] == entry_of(
                        front[i],
                        front[i].kind.unwrap(),
                        cfg,
                    ));
                }
            }
        }
    }
}

/// The menu of a directory whose items are all of known type, with names and
/// paths that hold no line feed, on a server whose host and port hold none:
/// exactly one line for each item, and the closing line.
pub proof fn lemma_generated_menu_lines(items: Seq<DirItemView>, cfg: ServerView)
    requires
        forall|i: int| 0 <= i < items.len() ==> (#[trigger] items[i]).kind is Some,
        forall|i: int|
            0 <= i < items.len() ==> occurrences((#[trigger] items[i]).name, '\n') == 0
                && occurrences(items[i].path, '\n') == 0,
        occurrences(cfg.host, '\n') == 0,
        occurrences(cfg.port, '\n') == 0,
    ensures
        typed_entries(items, cfg).len() == items.len(),
        occurrences(menu_text(typed_entries(items, cfg)), '\n') == items.len() + 1,
{
    lemma_typed_entries_count(items, cfg);
    let entries = typed_entries(items, cfg);
    assert forall|i: int| 0 <= i < entries.len() implies fields_free_of(
        #[trigger] entries[i],
        '\n',
    ) by {
        assert(entries[i] == entry_of(items[i], items[i].kind.unwrap(), cfg));
    }
    lemma_menu_line_count(entries);
}

impl GopherServer {
    /// A server for `host` and `port` that answers the empty selector with
    /// the menu of `root`.
    pub fn new(host: &str, port: &str, root: &str) -> (server: GopherServer)
        ensures
            server@ == (ServerView { host: host@, port: port@, root: root@ }),
    {
        GopherServer {
            host: String::from_str(host),
            port: String::from_str(port),
            root: String::from_str(root),
        }
    }

    /// The address to listen on.
    pub fn address(&self) -> (addr: String)
        ensures
            addr@ == address_of(self@.host, self@.port),
    {
        proof {
            reveal_strlit(":");
        }
        assert(":"@ =~= seq![':']);
        let mut addr = String::from_str(self.host.as_str());
        addr.append(":");
        addr.append(self.port.as_str());
        addr
    }

    /// Resolves a request line. `is_dir` says whether the line's selector
    /// names an existing directory; for a root request it is not looked at.
    pub fn resolve(&self, line: &str, is_dir: bool) -> (target: ResolvedPath)
        ensures
            target@ == resolved(self@, line@, is_dir),
    {
        proof {
            lemma_crlf_is_blank();
        }
        let selector = trim_selector(line);
        if selector.unicode_len() == 0 {
            ResolvedPath { path: self.root.clone(), kind: ItemType::Directory }
        } else {
            ResolvedPath { path: String::from_str(selector), kind: ItemType::from_is_dir(is_dir) }
        }
    }

    /// The menu entry of a listed item, if its type is known.
    pub fn menu_entry(&self, item: &DirItem) -> (entry: Option<MenuEntry>)
        ensures
            match item.kind {
                Some(kind) => entry is Some && entry.unwrap()@ == entry_of(item@, kind, self@),
                None => entry is None,
            },
    {
        match item.kind {
            Some(kind) => Some(
                MenuEntry {
                    item_type: kind,
                    display_name: item.name.clone(),
                    selector_path: item.path.clone(),
                    host: self.host.clone(),
                    port: self.port.clone(),
                },
            ),
            None => None,
        }
    }

    /// The menu entries of a listing, items of unknown type left out.
    pub fn menu_entries(&self, items: &Vec<DirItem>) -> (entries: Vec<MenuEntry>)
        ensures
            entry_views(entries@) == typed_entries(item_views(items@), self@),
    {
        let ghost views = item_views(items@);
        let mut entries: Vec<MenuEntry> = Vec::new();
        let mut i: usize = 0;
        assert(views.take(0) =~= Seq::<DirItemView>::empty());
        assert(entry_views(entries@) =~= Seq::<MenuEntryView>::empty());
        while i < items.len()
            invariant
                i <= items.len(),
                views == item_views(items@),
                entry_views(entries@) == typed_entries(views.take(i as int), self@),
            decreases items.len() - i,
        {
            let ghost before = entries@;
            proof {
                lemma_typed_entries_push(views.take(i as int), views[i as int], self@);
                assert(views.take(i as int).push(views[i as int]) =~= views.take(i + 1));
            }
            match self.menu_entry(&items[i]) {
                Some(entry) => {
                    entries.push(entry);
                    assert(entry_views(entries@) =~= entry_views(before).push(entry@));
                },
                None => {},
            }
            i = i + 1;
        }
        assert(views.take(i as int) =~= views);
        entries
    }

    /// The content of a directory's menu file, from the directory's listing:
    /// a line for each item whose type is known, in the listing's order, and
    /// the closing line.
    pub fn generate_map_file(&self, items: &Vec<DirItem>) -> (content: String)
        ensures
            content@ == menu_text(typed_entries(item_views(items@), self@)),
    {
        let entries = self.menu_entries(items);
        render_menu(&entries)
    }
}

} // verus!
