//! Menus: the listing of a directory, one line per entry, closed by a line
//! that holds a single period.

use vstd::prelude::*;
use vstd::string::*;

verus! {

/// What a path or a directory entry is: a directory, or anything else.
#[derive(Clone, Copy, Debug, PartialEq, Eq, Structural)]
pub enum ItemType {
    Directory,
    File,
}

/// One line of a menu.
#[derive(Clone, Debug, PartialEq, Eq)]
pub struct MenuEntry {
    pub item_type: ItemType,
    pub display_name: String,
    pub selector_path: String,
    pub host: String,
    pub port: String,
}

/// A menu entry as the contracts see it.
pub struct MenuEntryView {
    pub item_type: ItemType,
    pub display_name: Seq<char>,
    pub selector_path: Seq<char>,
    pub host: Seq<char>,
    pub port: Seq<char>,
}

impl View for MenuEntry {
    type V = MenuEntryView;

    open spec fn view(&self) -> MenuEntryView {
        MenuEntryView {
            item_type: self.item_type,
            display_name: self.display_name@,
            selector_path: self.selector_path@,
            host: self.host@,
            port: self.port@,
        }
    }
}

/// The views of the entries of a vector, in its order.
pub open spec fn entry_views(entries: Seq<MenuEntry>) -> Seq<MenuEntryView> {
    entries.map_values(|e: MenuEntry| e@)
}

/// The character that a menu line starts with.
pub open spec fn type_prefix(t: ItemType) -> char {
    match t {
        ItemType::Directory => '1',
        ItemType::File => '0',
    }
}

/// The line of one entry: the prefix and the name, then the path, the host
/// and the port, each behind a tab, and a line feed.
pub open spec fn entry_line(e: MenuEntryView) -> Seq<char> {
    seq![type_prefix(e.item_type)] + e.display_name + seq!['\t'] + e.selector_path + seq!['\t']
        + e.host + seq!['\t'] + e.port + seq!['\n']
}

/// The lines of the entries, in their order.
pub open spec fn entry_lines(entries: Seq<MenuEntryView>) -> Seq<char>
    decreases entries.len(),
{
    if entries.len() == 0 {
        Seq::empty()
    } else {
        entry_lines(entries.drop_last()) + entry_line(entries.last())
    }
}

/// The line that closes a menu.
pub open spec fn terminator_line() -> Seq<char> {
    seq!['.', '\n']
}

/// The whole menu: the entries' lines and the closing line.
pub open spec fn menu_text(entries: Seq<MenuEntryView>) -> Seq<char> {
    entry_lines(entries) + terminator_line()
}

/// How often `c` occurs in `s`.
pub open spec fn occurrences(s: Seq<char>, c: char) -> nat
    decreases s.len(),
{
    if s.len() == 0 {
        0
    } else {
        occurrences(s.drop_last(), c) + if s.last() == c {
            1nat
        } else {
            0nat
        }
    }
}

/// None of the entry's four fields holds `c`.
pub open spec fn fields_free_of(e: MenuEntryView, c: char) -> bool {
    &&& occurrences(e.display_name, c) == 0
    &&& occurrences(e.selector_path, c) == 0
    &&& occurrences(e.host, c) == 0
    &&& occurrences(e.port, c) == 0
}

/// Where the line of entry `i` starts in the menu.
pub open spec fn line_start(entries: Seq<MenuEntryView>, i: int) -> int {
    entry_lines(entries.take(i)).len() as int
}

/// Occurrences add up over a concatenation.
pub proof fn lemma_occurrences_concat(a: Seq<char>, b: Seq<char>, c: char)
    ensures
        occurrences(a + b, c) == occurrences(a, c) + occurrences(b, c),
    decreases b.len(),
{
    if b.len() == 0 {
        assert(a + b =~= a);
    } else {
        lemma_occurrences_concat(a, b.drop_last(), c);
        assert((a + b).drop_last() =~= a + b.drop_last());
        assert((a + b).last() == b.last());
    }
}

/// A one-character sequence holds `c` once if it is `c`, else not at all.
pub proof fn lemma_occurrences_single(d: char, c: char)
    ensures
        occurrences(seq![d], c) == if d == c {
            1nat
        } else {
            0nat
        },
{
    let s = seq![d];
    assert(s.drop_last() =~= Seq::<char>::empty());
    assert(occurrences(s.drop_last(), c) == 0);
    assert(s.last() == d);
}

/// A line starts with `1` for a directory and with `0` for anything else,
/// and with nothing but these.
pub proof fn lemma_line_prefix(e: MenuEntryView)
    ensures
        entry_line(e).len() >= 5,
        entry_line(e)[0] == type_prefix(e.item_type),
        entry_line(e)[0] == '1' <==> e.item_type == ItemType::Directory,
        entry_line(e)[0] == '0' <==> e.item_type == ItemType::File,
        entry_line(e).last() == '\n',
{
}

/// A line whose fields hold neither a tab nor a line feed has exactly three
/// tabs, so four fields behind the prefix, and ends with its only line feed.
pub proof fn lemma_line_shape(e: MenuEntryView)
    requires
        fields_free_of(e, '\t'),
        fields_free_of(e, '\n'),
    ensures
        occurrences(entry_line(e), '\t') == 3,
        occurrences(entry_line(e), '\n') == 1,
{
    lemma_line_count(e, '\t');
    lemma_line_count(e, '\n');
}

/// How often `c` occurs in a line, by its parts.
pub proof fn lemma_line_count(e: MenuEntryView, c: char)
    ensures
        occurrences(entry_line(e), c) == occurrences(e.display_name, c) + occurrences(
            e.selector_path,
            c,
        ) + occurrences(e.host, c) + occurrences(e.port, c) + (if c == type_prefix(e.item_type) {
            1nat
        } else {
            0nat
        }) + (if c == '\t' {
            3nat
        } else {
            0nat
        }) + (if c == '\n' {
            1nat
        } else {
            0nat
        }),
{
    let w0 = seq![type_prefix(e.item_type)];
    let w1 = w0 + e.display_name;
    let w2 = w1 + seq!['\t'];
    let w3 = w2 + e.selector_path;
    let w4 = w3 + seq!['\t'];
    let w5 = w4 + e.host;
    let w6 = w5 + seq!['\t'];
    let w7 = w6 + e.port;
    lemma_occurrences_single(type_prefix(e.item_type), c);
    lemma_occurrences_single('\t', c);
    lemma_occurrences_single('\n', c);
    lemma_occurrences_concat(w0, e.display_name, c);
    lemma_occurrences_concat(w1, seq!['\t'], c);
    lemma_occurrences_concat(w2, e.selector_path, c);
    lemma_occurrences_concat(w3, seq!['\t'], c);
    lemma_occurrences_concat(w4, e.host, c);
    lemma_occurrences_concat(w5, seq!['\t'], c);
    lemma_occurrences_concat(w6, e.port, c);
    lemma_occurrences_concat(w7, seq!['\n'], c);
}

/// A menu of entries whose fields hold no line feed has one line feed for
/// each entry and one for the closing line: as many lines as entries, and
/// one more.
pub proof fn lemma_menu_line_count(entries: Seq<MenuEntryView>)
    requires
        forall|i: int| 0 <= i < entries.len() ==> fields_free_of(#[trigger] entries[i], '\n'),
    ensures
        occurrences(entry_lines(entries), '\n') == entries.len(),
        occurrences(menu_text(entries), '\n') == entries.len() + 1,
    decreases entries.len(),
{
    if entries.len() > 0 {
        let front = entries.drop_last();
        assert forall|i: int| 0 <= i < front.len() implies fields_free_of(
            #[trigger] front[i],
            '\n',
        ) by {
            assert(front[i] == entries[i]);
        }
        lemma_menu_line_count(front);
        lemma_line_count(entries.last(), '\n');
        lemma_occurrences_concat(entry_lines(front), entry_line(entries.last()), '\n');
    }
    lemma_occurrences_concat(entry_lines(entries), terminator_line(), '\n');
    lemma_occurrences_concat(seq!['.'], seq!['\n'], '\n');
    lemma_occurrences_single('.', '\n');
    lemma_occurrences_single('\n', '\n');
    assert(terminator_line() =~= seq!['.'] + seq!['\n']);
}

/// The lines of two lists of entries, one behind the other, are the lines of
/// the first and behind them those of the second.
pub proof fn lemma_lines_concat(a: Seq<MenuEntryView>, b: Seq<MenuEntryView>)
    ensures
        entry_lines(a + b) == entry_lines(a) + entry_lines(b),
    decreases b.len(),
{
    if b.len() == 0 {
        assert(a + b =~= a);
        assert(entry_lines(a) + entry_lines(b) =~= entry_lines(a));
    } else {
        lemma_lines_concat(a, b.drop_last());
        assert((a + b).drop_last() =~= a + b.drop_last());
        assert((a + b).last() == b.last());
        assert(entry_lines(a + b) =~= entry_lines(a) + entry_lines(b));
    }
}

/// The lines of the first `i + 1` entries are those of the first `i` and
/// the line of entry `i`.
pub proof fn lemma_lines_extend(entries: Seq<MenuEntryView>, i: int)
    requires
        0 <= i < entries.len(),
    ensures
        entry_lines(entries.take(i + 1)) == entry_lines(entries.take(i)) + entry_line(entries[i]),
{
    let t = entries.take(i + 1);
    assert(t.drop_last() =~= entries.take(i));
    assert(t.last() == entries[i]);
}

/// The lines of the first `i` entries stand at the start of the lines of the
/// first `j`, for `i` up to `j`: the starts of the lines never go back.
pub proof fn lemma_line_starts(entries: Seq<MenuEntryView>, i: int, j: int)
    requires
        0 <= i <= j <= entries.len(),
    ensures
        0 <= line_start(entries, i) <= line_start(entries, j),
        line_start(entries, entries.len() as int) == entry_lines(entries).len(),
        entry_lines(entries.take(j)).subrange(0, line_start(entries, i)) == entry_lines(
            entries.take(i),
        ),
    decreases j - i,
{
    assert(entries.take(entries.len() as int) =~= entries);
    if i < j {
        lemma_line_starts(entries, i, j - 1);
        lemma_lines_extend(entries, j - 1);
        assert(entry_lines(entries.take(j)).subrange(0, line_start(entries, i))
            =~= entry_lines(entries.take(j - 1)).subrange(0, line_start(entries, i)));
    } else {
        assert(entry_lines(entries.take(j)).subrange(0, line_start(entries, i)) =~= entry_lines(
            entries.take(i),
        ));
    }
}

/// The menu holds the line of every entry exactly at its place, one behind
/// the other in the order of the entries, and behind the last of them the
/// closing line and nothing more.
pub proof fn lemma_menu_layout(entries: Seq<MenuEntryView>, i: int)
    requires
        0 <= i < entries.len(),
    ensures
        0 <= line_start(entries, i) < line_start(entries, i + 1) <= entry_lines(entries).len(),
        menu_text(entries).subrange(line_start(entries, i), line_start(entries, i + 1))
            == entry_line(entries[i]),
        menu_text(entries).len() == entry_lines(entries).len() + 2,
        menu_text(entries).subrange(
            entry_lines(entries).len() as int,
            menu_text(entries).len() as int,
        ) == terminator_line(),
{
    lemma_line_starts(entries, i, i + 1);
    lemma_line_starts(entries, i + 1, entries.len() as int);
    lemma_lines_extend(entries, i);
    lemma_line_prefix(entries[i]);
    assert(entries.take(entries.len() as int) =~= entries);
    let all = entry_lines(entries);
    let upto = entry_lines(entries.take(i + 1));
    let a = line_start(entries, i);
    let b = line_start(entries, i + 1);
    assert(all.subrange(0, b) == upto);
    assert(upto.subrange(a, b) =~= entry_line(entries[i]));
    assert(menu_text(entries).subrange(a, b) =~= all.subrange(0, b).subrange(a, b));
    assert(menu_text(entries).subrange(all.len() as int, menu_text(entries).len() as int)
        =~= terminator_line());
}

impl ItemType {
    /// The classification that a directory bit stands for.
    pub fn from_is_dir(is_dir: bool) -> (t: ItemType)
        ensures
            t == (if is_dir {
                ItemType::Directory
            } else {
                ItemType::File
            }),
    {
        if is_dir {
            ItemType::Directory
        } else {
            ItemType::File
        }
    }

    /// The text that a line of this type starts with.
    pub fn prefix(&self) -> (p: &'static str)
        ensures
            p@ == seq![type_prefix(*self)],
    {
        match self {
            ItemType::Directory => {
                proof {
                    reveal_strlit("1");
                }
                assert("1"@ =~= seq!['1']);
                "1"
            },
            ItemType::File => {
                proof {
                    reveal_strlit("0");
                }
                assert("0"@ =~= seq!['0']);
                "0"
            },
        }
    }
}

impl MenuEntry {
    /// The entry's line in a menu.
    pub fn line(&self) -> (text: String)
        ensures
            text@ == entry_line(self@),
    {
        proof {
            reveal_strlit("\t");
            reveal_strlit("\n");
        }
        assert("\t"@ =~= seq!['\t']);
        assert("\n"@ =~= seq!['\n']);
        let mut text = String::from_str(self.item_type.prefix());
        text.append(self.display_name.as_str());
        text.append("\t");
        text.append(self.selector_path.as_str());
        text.append("\t");
        text.append(self.host.as_str());
        text.append("\t");
        text.append(self.port.as_str());
        text.append("\n");
        text
    }
}

/// The menu of `entries`: their lines in their order, then the closing line.
pub fn render_menu(entries: &Vec<MenuEntry>) -> (text: String)
    ensures
        text@ == menu_text(entry_views(entries@)),
{
    let ghost views = entry_views(entries@);
    let mut text = String::new();
    let mut i: usize = 0;
    assert(views.take(0) =~= Seq::<MenuEntryView>::empty());
    while i < entries.len()
        invariant
            i <= entries.len(),
            views == entry_views(entries@),
            text@ == entry_lines(views.take(i as int)),
        decreases entries.len() - i,
    {
        let line = entries[i].line();
        proof {
            lemma_lines_extend(views, i as int);
        }
        text.append(line.as_str());
        i = i + 1;
    }
    proof {
        reveal_strlit(".\n");
    }
    assert(".\n"@ =~= terminator_line());
    assert(views.take(i as int) =~= views);
    text.append(".\n");
    text
}

} // verus!
