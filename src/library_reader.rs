//! A streaming reader of a legacy library file.
//!
//! The file is a property list: a top dictionary whose key "Tracks" holds a
//! dictionary of track records (keyed by origin track id) and whose key
//! "Playlists" holds an array of playlist records. The reader takes the
//! file's markup one token at a time and hands out each record as it closes,
//! so the document is never held whole.
use crate::import::{entries_view, ImportError};
use crate::text::{chars_of, decimal_of, parse_i64, string_of, texts};
use vstd::prelude::*;

verus! {

/// One token of the markup. Character data may come in several `Text`
/// tokens in a row (an escaped character splits it); the reader joins them.
#[derive(Clone, Debug)]
pub enum PlistToken {
    /// An opening tag, with its element name.
    Open(String),
    /// A closing tag.
    Close,
    /// An empty element such as `<true/>`, with its name.
    Empty(String),
    /// Character data.
    Text(String),
}

/// Which collection of the file the reader is in.
#[derive(Clone, Copy, Debug, PartialEq, Eq, Structural)]
pub enum Section {
    Outside,
    Tracks,
    Playlists,
}

/// A record of the file, handed out when its element closes.
#[derive(Clone, Debug)]
pub enum LibraryItem {
    /// A track record and the key it is listed under.
    Track { key: String, entries: Vec<(String, String)> },
    /// A playlist record and the texts of its "Track ID" items, in order.
    Playlist { entries: Vec<(String, String)>, items: Vec<String> },
}

/// The nesting depth of the top dictionary's content.
pub const TOP_DEPTH: usize = 2;

/// The reader's state. `depth` counts the elements open.
pub struct LibraryReader {
    pub depth: usize,
    pub section: Section,
    pub pending: Section,
    pub in_key: bool,
    pub key: Vec<char>,
    pub last_key: Vec<char>,
    pub record_key: Vec<char>,
    pub in_value: bool,
    pub text: Vec<char>,
    pub in_item: bool,
    pub item_text: Vec<char>,
    pub entries: Vec<(String, String)>,
    pub items: Vec<String>,
}

/// The reader's state as contracts speak of it.
#[verifier::ext_equal]
pub ghost struct ReaderView {
    pub depth: int,
    pub section: Section,
    pub pending: Section,
    pub in_key: bool,
    pub key: Seq<char>,
    pub last_key: Seq<char>,
    pub record_key: Seq<char>,
    pub in_value: bool,
    pub text: Seq<char>,
    pub in_item: bool,
    pub item_text: Seq<char>,
    pub entries: Seq<(Seq<char>, Seq<char>)>,
    pub items: Seq<Seq<char>>,
}

/// A record as contracts speak of it.
pub ghost enum ItemView {
    Track { key: Seq<char>, entries: Seq<(Seq<char>, Seq<char>)> },
    Playlist { entries: Seq<(Seq<char>, Seq<char>)>, items: Seq<Seq<char>> },
}

impl View for LibraryReader {
    type V = ReaderView;

    open spec fn view(&self) -> ReaderView {
        ReaderView {
            depth: self.depth as int,
            section: self.section,
            pending: self.pending,
            in_key: self.in_key,
            key: self.key@,
            last_key: self.last_key@,
            record_key: self.record_key@,
            in_value: self.in_value,
            text: self.text@,
            in_item: self.in_item,
            item_text: self.item_text@,
            entries: entries_view(self.entries@),
            items: texts(self.items@),
        }
    }
}

/// The record that a reader hands out, as contracts speak of it.
pub open spec fn item_view(r: Option<LibraryItem>) -> Option<ItemView> {
    match r {
        Some(LibraryItem::Track { key, entries }) => Some(
            ItemView::Track { key: key@, entries: entries_view(entries@) },
        ),
        Some(LibraryItem::Playlist { entries, items }) => Some(
            ItemView::Playlist { entries: entries_view(entries@), items: texts(items@) },
        ),
        None => None,
    }
}

/// The collection that a key of the top dictionary names.
pub open spec fn section_named(key: Seq<char>) -> Section {
    if key == "Tracks"@ {
        Section::Tracks
    } else if key == "Playlists"@ {
        Section::Playlists
    } else {
        Section::Outside
    }
}

/// Opening an element named `name`: a container after a collection's key
/// enters the collection; a dictionary inside a collection starts a record;
/// a key starts a key; another element inside a record starts a value; an
/// element inside a playlist's "Track ID" item starts an item.
pub open spec fn open_step(v: ReaderView, name: Seq<char>) -> ReaderView {
    let v1 = if v.depth == TOP_DEPTH && v.section == Section::Outside && v.pending
        != Section::Outside {
        ReaderView { section: v.pending, pending: Section::Outside, ..v }
    } else {
        v
    };
    let v2 = if v1.depth == TOP_DEPTH + 1 && v1.section != Section::Outside && name == "dict"@ {
        ReaderView { entries: Seq::empty(), items: Seq::empty(), ..v1 }
    } else {
        v1
    };
    let v3 = if name == "key"@ {
        ReaderView { in_key: true, key: Seq::empty(), ..v2 }
    } else if v2.depth == TOP_DEPTH + 2 && v2.section != Section::Outside && name != "array"@
        && name != "dict"@ {
        ReaderView { in_value: true, text: Seq::empty(), ..v2 }
    } else if v2.depth == TOP_DEPTH + 4 && v2.section == Section::Playlists && v2.last_key
        == "Track ID"@ {
        ReaderView { in_item: true, item_text: Seq::empty(), ..v2 }
    } else {
        v2
    };
    if v3.depth < usize::MAX {
        ReaderView { depth: v3.depth + 1, ..v3 }
    } else {
        v3
    }
}

/// Character data: appended to the key, the value and the item being read.
pub open spec fn text_step(v: ReaderView, t: Seq<char>) -> ReaderView {
    ReaderView {
        key: if v.in_key {
            v.key + t
        } else {
            v.key
        },
        text: if v.in_value {
            v.text + t
        } else {
            v.text
        },
        item_text: if v.in_item {
            v.item_text + t
        } else {
            v.item_text
        },
        ..v
    }
}

/// An empty element inside a record (`<true/>`): an entry whose value is
/// the element's name.
pub open spec fn empty_step(v: ReaderView, name: Seq<char>) -> ReaderView {
    if v.depth == TOP_DEPTH + 2 && v.section != Section::Outside && !v.in_key && !v.in_value {
        ReaderView { entries: v.entries.push((v.last_key, name)), ..v }
    } else {
        v
    }
}

/// A closing tag: it ends a key, an item, a value, a record (handed out)
/// or a collection.
pub open spec fn close_step(v: ReaderView) -> (ReaderView, Option<ItemView>) {
    let was = v.depth;
    let v1 = if was > 0 {
        ReaderView { depth: was - 1, ..v }
    } else {
        v
    };
    if v1.in_key {
        let v2 = ReaderView { in_key: false, last_key: v1.key, ..v1 };
        if was == TOP_DEPTH + 1 {
            (ReaderView { pending: section_named(v1.key), ..v2 }, None)
        } else if was == TOP_DEPTH + 2 && v1.section == Section::Tracks {
            (ReaderView { record_key: v1.key, ..v2 }, None)
        } else {
            (v2, None)
        }
    } else if v1.in_item {
        if was == TOP_DEPTH + 5 {
            (ReaderView { in_item: false, items: v1.items.push(v1.item_text), ..v1 }, None)
        } else {
            (v1, None)
        }
    } else if v1.in_value {
        if was == TOP_DEPTH + 3 {
            (
                ReaderView {
                    in_value: false,
                    entries: v1.entries.push((v1.last_key, v1.text)),
                    ..v1
                },
                None,
            )
        } else {
            (v1, None)
        }
    } else if was == TOP_DEPTH + 2 && v1.section != Section::Outside {
        (
            ReaderView { entries: Seq::empty(), items: Seq::empty(), ..v1 },
            Some(
                if v1.section == Section::Tracks {
                    ItemView::Track { key: v1.record_key, entries: v1.entries }
                } else {
                    ItemView::Playlist { entries: v1.entries, items: v1.items }
                },
            ),
        )
    } else if was == TOP_DEPTH + 1 && v1.section != Section::Outside {
        (ReaderView { section: Section::Outside, ..v1 }, None)
    } else {
        (v1, None)
    }
}

/// One step of the reader: its next state and the record it hands out.
pub open spec fn step(v: ReaderView, t: PlistToken) -> (ReaderView, Option<ItemView>) {
    match t {
        PlistToken::Open(name) => (open_step(v, name@), None),
        PlistToken::Text(s) => (text_step(v, s@), None),
        PlistToken::Empty(name) => (empty_step(v, name@), None),
        PlistToken::Close => close_step(v),
    }
}

/// The reader's state after a run of tokens.
pub open spec fn run(v: ReaderView, toks: Seq<PlistToken>) -> ReaderView
    decreases toks.len(),
{
    if toks.len() == 0 {
        v
    } else {
        step(run(v, toks.drop_last()), toks.last()).0
    }
}

/// Character data tokens, one per fragment.
pub open spec fn text_tokens(frags: Seq<String>) -> Seq<PlistToken> {
    frags.map_values(|f: String| PlistToken::Text(f))
}

/// The fragments joined into one text.
pub open spec fn joined_texts(frags: Seq<String>) -> Seq<char>
    decreases frags.len(),
{
    if frags.len() == 0 {
        Seq::empty()
    } else {
        joined_texts(frags.drop_last()) + frags.last()@
    }
}

proof fn lemma_run_append(v: ReaderView, a: Seq<PlistToken>, b: Seq<PlistToken>)
    ensures
        run(v, a + b) == run(run(v, a), b),
    decreases b.len(),
{
    if b.len() == 0 {
        assert(a + b =~= a);
    } else {
        lemma_run_append(v, a, b.drop_last());
        assert((a + b).drop_last() =~= a + b.drop_last());
        assert((a + b).last() == b.last());
    }
}

proof fn lemma_run_texts(v: ReaderView, frags: Seq<String>)
    requires
        v.in_value,
        !v.in_key,
        !v.in_item,
    ensures
        run(v, text_tokens(frags)) =~= (ReaderView { text: v.text + joined_texts(frags), ..v }),
    decreases frags.len(),
{
    if frags.len() == 0 {
        assert(v.text + joined_texts(frags) =~= v.text);
    } else {
        lemma_run_texts(v, frags.drop_last());
        assert(text_tokens(frags).drop_last() =~= text_tokens(frags.drop_last()));
        assert(text_tokens(frags).last() == PlistToken::Text(frags.last()));
        assert(v.text + joined_texts(frags) =~= (v.text + joined_texts(frags.drop_last()))
            + frags.last()@);
    }
}

/// A value inside a record, written as any number of character data
/// fragments (an escaped character splits the text), becomes one entry of
/// the record: the last key read, and the fragments joined in order.
pub proof fn lemma_value_joins_fragments(v: ReaderView, name: String, frags: Seq<String>)
    requires
        v.depth == TOP_DEPTH + 2,
        v.section != Section::Outside,
        !v.in_key,
        !v.in_value,
        !v.in_item,
        name@ != "key"@,
        name@ != "array"@,
        name@ != "dict"@,
    ensures
        ({
            let after = run(v, seq![PlistToken::Open(name)] + text_tokens(frags) + seq![PlistToken::Close]);
            &&& after.entries == v.entries.push((v.last_key, joined_texts(frags)))
            &&& after.depth == v.depth
            &&& !after.in_value
            &&& after.section == v.section
            &&& after.last_key == v.last_key
        }),
{
    let open = seq![PlistToken::Open(name)];
    let close = seq![PlistToken::Close];
    let ts = text_tokens(frags);
    assert(open.drop_last() =~= Seq::<PlistToken>::empty());
    assert(close.drop_last() =~= Seq::<PlistToken>::empty());
    let s1 = run(v, open);
    assert(run(v, open.drop_last()) == v);
    assert(open.last() == PlistToken::Open(name));
    assert(s1 == open_step(v, name@));
    lemma_run_texts(s1, frags);
    let s2 = run(s1, ts);
    assert(run(s2, close.drop_last()) == s2);
    assert(close.last() == PlistToken::Close);
    assert(run(s2, close) == close_step(s2).0);
    lemma_run_append(v, open, ts);
    lemma_run_append(v, open + ts, close);
    assert(Seq::<char>::empty() + joined_texts(frags) =~= joined_texts(frags));
}

fn is_name(s: &String, name: &str) -> (r: bool)
    ensures
        r == (s@ == name@),
{
    *s == name.to_owned()
}

fn same_chars(a: &Vec<char>, b: &str) -> (r: bool)
    ensures
        r == (a@ == b@),
{
    let bs = chars_of(b);
    if a.len() != bs.len() {
        return false;
    }
    let mut i: usize = 0;
    while i < a.len()
        invariant
            0 <= i <= a@.len(),
            a@.len() == bs@.len(),
            bs@ == b@,
            forall|j: int| 0 <= j < i ==> a@[j] == bs@[j],
        decreases a@.len() - i,
    {
        if a[i] != bs[i] {
            return false;
        }
        i = i + 1;
    }
    assert(a@ =~= bs@);
    true
}

impl LibraryReader {
    /// A reader at the start of a file.
    pub fn new() -> (r: LibraryReader)
        ensures
            r@ == (ReaderView {
                depth: 0,
                section: Section::Outside,
                pending: Section::Outside,
                in_key: false,
                key: Seq::empty(),
                last_key: Seq::empty(),
                record_key: Seq::empty(),
                in_value: false,
                text: Seq::empty(),
                in_item: false,
                item_text: Seq::empty(),
                entries: Seq::empty(),
                items: Seq::empty(),
            }),
    {
        let r = LibraryReader {
            depth: 0,
            section: Section::Outside,
            pending: Section::Outside,
            in_key: false,
            key: Vec::new(),
            last_key: Vec::new(),
            record_key: Vec::new(),
            in_value: false,
            text: Vec::new(),
            in_item: false,
            item_text: Vec::new(),
            entries: Vec::new(),
            items: Vec::new(),
        };
        assert(r@ =~= (ReaderView {
            depth: 0,
            section: Section::Outside,
            pending: Section::Outside,
            in_key: false,
            key: Seq::empty(),
            last_key: Seq::empty(),
            record_key: Seq::empty(),
            in_value: false,
            text: Seq::empty(),
            in_item: false,
            item_text: Seq::empty(),
            entries: Seq::empty(),
            items: Seq::empty(),
        }));
        r
    }

    /// Takes in one token; hands out a record where the token closes one.
    /// Consecutive character data of a key or a value is joined before the
    /// entry is taken in.
    pub fn feed(&mut self, token: PlistToken) -> (r: Option<LibraryItem>)
        ensures
            final(self)@ == step(old(self)@, token).0,
            item_view(r) == step(old(self)@, token).1,
    {
        match token {
            PlistToken::Open(name) => {
                if self.depth == TOP_DEPTH && self.section == Section::Outside
                    && self.pending != Section::Outside {
                    self.section = self.pending;
                    self.pending = Section::Outside;
                }
                if self.depth == TOP_DEPTH + 1 && self.section != Section::Outside && is_name(
                    &name,
                    "dict",
                ) {
                    self.entries = Vec::new();
                    self.items = Vec::new();
                }
                if is_name(&name, "key") {
                    self.in_key = true;
                    self.key = Vec::new();
                } else if self.depth == TOP_DEPTH + 2 && self.section != Section::Outside
                    && !is_name(&name, "array") && !is_name(&name, "dict") {
                    self.in_value = true;
                    self.text = Vec::new();
                } else if self.depth == TOP_DEPTH + 4 && self.section == Section::Playlists
                    && same_chars(&self.last_key, "Track ID") {
                    self.in_item = true;
                    self.item_text = Vec::new();
                }
                if self.depth < usize::MAX {
                    self.depth = self.depth + 1;
                }
                None
            },
            PlistToken::Text(t) => {
                if self.in_key {
                    let mut cs = chars_of(t.as_str());
                    self.key.append(&mut cs);
                }
                if self.in_value {
                    let mut cs = chars_of(t.as_str());
                    self.text.append(&mut cs);
                }
                if self.in_item {
                    let mut cs = chars_of(t.as_str());
                    self.item_text.append(&mut cs);
                }
                None
            },
            PlistToken::Empty(name) => {
                if self.depth == TOP_DEPTH + 2 && self.section != Section::Outside && !self.in_key
                    && !self.in_value {
                    let ghost before = self.entries@;
                    self.entries.push((string_of(&self.last_key), name));
                    assert(self.entries@.subrange(0, before.len() as int) =~= before);
                }
                None
            },
            PlistToken::Close => {
                let was = self.depth;
                if self.depth > 0 {
                    self.depth = self.depth - 1;
                }
                if self.in_key {
                    self.in_key = false;
                    self.last_key = self.key.clone();
                    if was == TOP_DEPTH + 1 {
                        self.pending = if same_chars(&self.key, "Tracks") {
                            Section::Tracks
                        } else if same_chars(&self.key, "Playlists") {
                            Section::Playlists
                        } else {
                            Section::Outside
                        };
                    } else if was == TOP_DEPTH + 2 && self.section == Section::Tracks {
                        self.record_key = self.key.clone();
                    }
                    None
                } else if self.in_item {
                    if was == TOP_DEPTH + 5 {
                        self.in_item = false;
                        let ghost before = self.items@;
                        self.items.push(string_of(&self.item_text));
                        assert(texts(self.items@) =~= texts(before).push(self.item_text@));
                    }
                    None
                } else if self.in_value {
                    if was == TOP_DEPTH + 3 {
                        self.in_value = false;
                        let ghost before = self.entries@;
                        self.entries.push((string_of(&self.last_key), string_of(&self.text)));
                        assert(self.entries@.subrange(0, before.len() as int) =~= before);
                    }
                    None
                } else if was == TOP_DEPTH + 2 && self.section != Section::Outside {
                    let mut entries: Vec<(String, String)> = Vec::new();
                    let mut items: Vec<String> = Vec::new();
                    std::mem::swap(&mut entries, &mut self.entries);
                    std::mem::swap(&mut items, &mut self.items);
                    if self.section == Section::Tracks {
                        Some(LibraryItem::Track { key: string_of(&self.record_key), entries })
                    } else {
                        Some(LibraryItem::Playlist { entries, items })
                    }
                } else {
                    if was == TOP_DEPTH + 1 && self.section != Section::Outside {
                        self.section = Section::Outside;
                    }
                    None
                }
            },
        }
    }
}

/// Whether a playlist item text is a decimal origin id that can be negated.
pub open spec fn item_ok(t: Seq<char>) -> bool {
    match decimal_of(t) {
        Some(n) => i64::MIN < n <= i64::MAX,
        None => false,
    }
}

/// Reads the origin track ids of a playlist's items; fails where one is no
/// decimal number of 64 bits or is the smallest one, which has no negation.
pub fn playlist_origin_ids(items: &Vec<String>) -> (r: Result<Vec<i64>, ImportError>)
    ensures
        (r is Ok) == (forall|k: int| 0 <= k < items@.len() ==> item_ok(#[trigger] items@[k]@)),
        (r is Err) ==> r == Err::<Vec<i64>, ImportError>(ImportError::BadNumber),
        r matches Ok(v) ==> v@.len() == items@.len() && forall|k: int|
            0 <= k < items@.len() ==> decimal_of(items@[k]@) == Some(#[trigger] v@[k] as int),
{
    let mut v: Vec<i64> = Vec::new();
    let mut k: usize = 0;
    while k < items.len()
        invariant
            0 <= k <= items@.len(),
            v@.len() == k,
            forall|j: int| 0 <= j < k ==> item_ok(#[trigger] items@[j]@),
            forall|j: int| 0 <= j < k ==> decimal_of(items@[j]@) == Some(#[trigger] v@[j] as int),
        decreases items@.len() - k,
    {
        match parse_i64(&chars_of(items[k].as_str())) {
            Some(n) => {
                if n == i64::MIN {
                    return Err(ImportError::BadNumber);
                }
                v.push(n);
            },
            None => {
                return Err(ImportError::BadNumber);
            },
        }
        k = k + 1;
    }
    Ok(v)
}

} // verus!
