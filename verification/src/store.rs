//! The manifest store: one document for the interface and one for each
//! command, kept under keys. The store holds documents as they are persisted;
//! `get` reads the record out of a document, `put` writes a record as one.

use crate::error::{PipelineError, PipelineErrorView};
use crate::json::text_view;
use crate::naming::{command_key, make_command_key};
use crate::record::{document_of, get_json_value, record_of, set_json_value, Record, RecordView};
use crate::text::same_text;
use vstd::prelude::*;
use vstd::string::StringExecFns;

verus! {

/// What a document is kept under.
#[derive(Clone, Debug, PartialEq, Eq)]
pub enum Key {
    /// The one record of the interface.
    Interface,
    /// The record of a command, by the key derived from its name.
    Command(String),
}

pub enum KeyView {
    Interface,
    Command(Seq<char>),
}

impl View for Key {
    type V = KeyView;

    open spec fn view(&self) -> KeyView {
        match self {
            Key::Interface => KeyView::Interface,
            Key::Command(k) => KeyView::Command(k@),
        }
    }
}

/// The path of the interface's document, from the root of the build.
pub open spec fn interface_path() -> Seq<char> {
    "src/.autogen/interface.json"@
}

/// The directory of the commands' documents, from the root of the build.
pub open spec fn commands_dir() -> Seq<char> {
    "src/.autogen/wgse_commands"@
}

/// Where the document under a key is persisted.
pub open spec fn path_of(key: KeyView) -> Seq<char> {
    match key {
        KeyView::Interface => interface_path(),
        KeyView::Command(k) => commands_dir() + "/"@ + k,
    }
}

/// The directory under which the commands' documents are persisted.
pub fn commands_directory() -> (path: String)
    ensures
        path@ == commands_dir(),
{
    String::from_str("src/.autogen/wgse_commands")
}

impl Key {
    /// The key of the command with the given name.
    pub fn of_command(name: &str) -> (key: Key)
        ensures
            key@ == KeyView::Command(command_key(name@)),
    {
        Key::Command(make_command_key(name))
    }

    /// The path at which the document under this key is persisted.
    pub fn path(&self) -> (path: String)
        ensures
            path@ == path_of(self@),
    {
        match self {
            Key::Interface => String::from_str("src/.autogen/interface.json"),
            Key::Command(k) => {
                let mut path = String::from_str("src/.autogen/wgse_commands");
                path.append("/");
                path.append(k.as_str());
                path
            },
        }
    }
}

/// One command's document with its key.
#[derive(Clone, Debug, PartialEq, Eq)]
pub struct Entry {
    pub key: String,
    pub document: String,
}

pub struct EntryView {
    pub key: Seq<char>,
    pub document: Seq<char>,
}

impl View for Entry {
    type V = EntryView;

    open spec fn view(&self) -> EntryView {
        EntryView { key: self.key@, document: self.document@ }
    }
}

/// The views of a vector of entries, in order.
pub open spec fn entry_views(entries: Seq<Entry>) -> Seq<EntryView> {
    Seq::new(entries.len(), |i: int| entries[i]@)
}

/// What the store holds: the interface's document, if any, and the commands'
/// documents in the order in which their keys were first stored.
pub struct StoreView {
    pub interface: Option<Seq<char>>,
    pub commands: Seq<EntryView>,
}

/// The first place at which `key` stands, if it stands anywhere.
pub open spec fn find(entries: Seq<EntryView>, key: Seq<char>) -> Option<int>
    decreases entries.len(),
{
    if entries.len() == 0 {
        None
    } else {
        match find(entries.drop_last(), key) {
            Some(i) => Some(i),
            None => if entries.last().key == key {
                Some(entries.len() - 1)
            } else {
                None
            },
        }
    }
}

/// No key stands twice.
pub open spec fn distinct_keys(entries: Seq<EntryView>) -> bool {
    forall|i: int, j: int|
        0 <= i < j < entries.len() ==> (#[trigger] entries[i]).key != (#[trigger] entries[j]).key
}

/// The document kept under `key`, if any.
pub open spec fn document_at(store: StoreView, key: KeyView) -> Option<Seq<char>> {
    match key {
        KeyView::Interface => store.interface,
        KeyView::Command(k) => match find(store.commands, k) {
            Some(i) => Some(store.commands[i].document),
            None => None,
        },
    }
}

/// The store after `document` was put under `key`: in the place of the
/// document that was there, or behind all others where there was none.
pub open spec fn with_document(store: StoreView, key: KeyView, document: Seq<char>) -> StoreView {
    match key {
        KeyView::Interface => StoreView { interface: Some(document), ..store },
        KeyView::Command(k) => {
            let entry = EntryView { key: k, document };
            match find(store.commands, k) {
                Some(i) => StoreView { commands: store.commands.update(i, entry), ..store },
                None => StoreView { commands: store.commands.push(entry), ..store },
            }
        },
    }
}

/// What `find` returns is a place of the key, and the first one; it returns
/// nothing only where the key stands nowhere.
pub proof fn find_is_first(entries: Seq<EntryView>, key: Seq<char>)
    ensures
        match find(entries, key) {
            Some(i) => 0 <= i < entries.len() && entries[i].key == key && forall|j: int|
                0 <= j < i ==> (#[trigger] entries[j]).key != key,
            None => forall|j: int| 0 <= j < entries.len() ==> (#[trigger] entries[j]).key != key,
        },
    decreases entries.len(),
{
    if entries.len() > 0 {
        find_is_first(entries.drop_last(), key);
        assert forall|j: int| 0 <= j < entries.len() - 1 implies entries.drop_last()[j]
            == entries[j] by {}
        match find(entries.drop_last(), key) {
            Some(i) => {
                assert(entries.drop_last()[i] == entries[i]);
                assert forall|j: int| 0 <= j < i implies (#[trigger] entries[j]).key != key by {
                    assert(entries.drop_last()[j] == entries[j]);
                }
            },
            None => {
                assert forall|j: int| 0 <= j < entries.len() - 1 implies (#[trigger] entries[j]).key
                    != key by {
                    assert(entries.drop_last()[j] == entries[j]);
                }
            },
        }
    }
}

/// A document that was put under a key is the one found there.
pub proof fn put_then_get(store: StoreView, key: KeyView, document: Seq<char>)
    ensures
        document_at(with_document(store, key, document), key) == Some(document),
{
    match key {
        KeyView::Interface => {},
        KeyView::Command(k) => {
            let after = with_document(store, key, document).commands;
            find_is_first(store.commands, k);
            find_is_first(after, k);
            match find(store.commands, k) {
                Some(i) => {
                    assert(after[i].key == k);
                    match find(after, k) {
                        Some(j) => {
                            if j < i {
                                assert(after[j] == store.commands[j]);
                            }
                        },
                        None => {},
                    }
                },
                None => {
                    let last = after.len() - 1;
                    assert(after[last].key == k);
                    match find(after, k) {
                        Some(j) => {
                            if j < last {
                                assert(after[j] == store.commands[j]);
                            }
                        },
                        None => {},
                    }
                },
            }
        },
    }
}

/// Putting a document under one key leaves what is kept under every other key.
pub proof fn put_keeps_others(store: StoreView, key: KeyView, document: Seq<char>, other: KeyView)
    requires
        other != key,
    ensures
        document_at(with_document(store, key, document), other) == document_at(store, other),
{
    match (key, other) {
        (KeyView::Command(k), KeyView::Command(o)) => {
            let before = store.commands;
            let after = with_document(store, key, document).commands;
            find_is_first(before, k);
            find_is_first(before, o);
            find_is_first(after, o);
            match find(before, k) {
                Some(i) => {
                    assert forall|j: int| 0 <= j < before.len() implies (#[trigger] after[j]).key
                        == before[j].key by {}
                    match (find(before, o), find(after, o)) {
                        (Some(a), Some(b)) => {
                            assert(after[a].key == o);
                            assert(before[b].key == o);
                            assert(a == b);
                            assert(a != i);
                        },
                        (Some(a), None) => {
                            assert(after[a].key == o);
                        },
                        (None, Some(b)) => {
                            assert(before[b].key == o);
                        },
                        (None, None) => {},
                    }
                },
                None => {
                    assert forall|j: int| 0 <= j < before.len() implies #[trigger] after[j]
                        == before[j] by {}
                    match (find(before, o), find(after, o)) {
                        (Some(a), Some(b)) => {
                            assert(after[a].key == o);
                            if b < before.len() {
                                assert(before[b].key == o);
                            }
                            assert(a == b);
                        },
                        (Some(a), None) => {
                            assert(after[a].key == o);
                        },
                        (None, Some(b)) => {
                            if b < before.len() {
                                assert(before[b].key == o);
                            }
                        },
                        (None, None) => {},
                    }
                },
            }
        },
        _ => {},
    }
}

/// Registering again overwrites: putting twice under one key leaves what
/// putting the second document alone would have left, so the key never
/// comes to stand twice.
pub proof fn put_again_overwrites(
    store: StoreView,
    key: KeyView,
    first: Seq<char>,
    second: Seq<char>,
)
    ensures
        with_document(with_document(store, key, first), key, second) == with_document(
            store,
            key,
            second,
        ),
{
    match key {
        KeyView::Interface => {},
        KeyView::Command(k) => {
            let once = with_document(store, key, first).commands;
            find_is_first(store.commands, k);
            find_is_first(once, k);
            match find(store.commands, k) {
                Some(i) => {
                    assert(once[i].key == k);
                    match find(once, k) {
                        Some(j) => {
                            if j < i {
                                assert(once[j] == store.commands[j]);
                            }
                            assert(j == i);
                        },
                        None => {},
                    }
                    assert(once.update(i, EntryView { key: k, document: second })
                        =~= store.commands.update(i, EntryView { key: k, document: second }));
                },
                None => {
                    let last = once.len() - 1;
                    assert(once[last].key == k);
                    match find(once, k) {
                        Some(j) => {
                            if j < last {
                                assert(once[j] == store.commands[j]);
                            }
                            assert(j == last);
                        },
                        None => {},
                    }
                    assert(once.update(last, EntryView { key: k, document: second })
                        =~= store.commands.push(EntryView { key: k, document: second }));
                },
            }
        },
    }
}

/// Putting a document keeps the keys distinct.
pub proof fn put_keeps_distinct(store: StoreView, key: KeyView, document: Seq<char>)
    requires
        distinct_keys(store.commands),
    ensures
        distinct_keys(with_document(store, key, document).commands),
{
    match key {
        KeyView::Interface => {},
        KeyView::Command(k) => {
            let before = store.commands;
            let after = with_document(store, key, document).commands;
            find_is_first(before, k);
            assert forall|i: int, j: int| 0 <= i < j < after.len() implies (#[trigger] after[i]).key
                != (#[trigger] after[j]).key by {
                match find(before, k) {
                    Some(p) => {
                        assert(after[i].key == before[i].key);
                        assert(after[j].key == before[j].key);
                    },
                    None => {
                        assert(after[i] == before[i]);
                        if j < before.len() {
                            assert(after[j] == before[j]);
                        }
                    },
                }
            }
        },
    }
}

/// The manifest store, in memory. Whoever runs a stage loads the persisted
/// documents into it and writes back what the stage has put.
pub struct ManifestStore {
    interface: Option<String>,
    commands: Vec<Entry>,
}

impl View for ManifestStore {
    type V = StoreView;

    closed spec fn view(&self) -> StoreView {
        StoreView { interface: text_view(self.interface), commands: entry_views(self.commands@) }
    }
}

impl ManifestStore {
    #[verifier::type_invariant]
    spec fn well_formed(self) -> bool {
        distinct_keys(entry_views(self.commands@))
    }

    /// A store that holds nothing.
    pub fn new() -> (store: ManifestStore)
        ensures
            store@ == (StoreView { interface: None, commands: Seq::empty() }),
    {
        let store = ManifestStore { interface: None, commands: Vec::new() };
        assert(entry_views(store.commands@) =~= Seq::empty());
        store
    }

    /// The place of a command's key among the entries.
    fn position(&self, key: &str) -> (r: Option<usize>)
        ensures
            match r {
                Some(i) => find(self@.commands, key@) == Some(i as int) && i < self.commands.len(),
                None => find(self@.commands, key@) is None,
            },
    {
        let ghost entries = entry_views(self.commands@);
        let mut i: usize = 0;
        while i < self.commands.len()
            invariant
                i <= self.commands.len(),
                entries == entry_views(self.commands@),
                forall|j: int| 0 <= j < i ==> (#[trigger] entries[j]).key != key@,
            decreases self.commands.len() - i,
        {
            if same_text(self.commands[i].key.as_str(), key) {
                proof {
                    find_is_first(entries, key@);
                    assert(entries[i as int].key == key@);
                }
                return Some(i);
            }
            i += 1;
        }
        proof {
            find_is_first(entries, key@);
        }
        None
    }

    /// The document kept under `key`, as it is persisted.
    pub fn document(&self, key: &Key) -> (r: Option<String>)
        ensures
            text_view(r) == document_at(self@, key@),
    {
        match key {
            Key::Interface => self.interface.clone(),
            Key::Command(k) => match self.position(k.as_str()) {
                Some(i) => Some(self.commands[i].document.clone()),
                None => None,
            },
        }
    }

    /// Keeps `document` under `key`, in the place of what was there.
    pub fn insert_document(&mut self, key: &Key, document: String)
        ensures
            final(self)@ == with_document(old(self)@, key@, document@),
            distinct_keys(final(self)@.commands),
    {
        proof {
            use_type_invariant(&*self);
            put_keeps_distinct(self@, key@, document@);
        }
        let place = match key {
            Key::Interface => None,
            Key::Command(k) => self.position(k.as_str()),
        };
        let mut taken = ManifestStore::new();
        core::mem::swap(self, &mut taken);
        let ManifestStore { interface, commands } = taken;
        let mut interface = interface;
        let mut commands = commands;
        match key {
            Key::Interface => {
                interface = Some(document);
            },
            Key::Command(k) => {
                let entry = Entry { key: k.clone(), document };
                match place {
                    Some(i) => {
                        commands.set(i, entry);
                        assert(entry_views(commands@) =~= entry_views(
                            old(self).commands@,
                        ).update(i as int, entry@));
                    },
                    None => {
                        commands.push(entry);
                        assert(entry_views(commands@) =~= entry_views(old(self).commands@).push(
                            entry@,
                        ));
                    },
                }
            },
        }
        *self = ManifestStore { interface, commands };
    }

    /// The number of commands' documents. In every store their keys are
    /// distinct.
    pub fn command_count(&self) -> (n: usize)
        ensures
            n == self@.commands.len(),
            distinct_keys(self@.commands),
    {
        proof {
            use_type_invariant(self);
        }
        self.commands.len()
    }

    /// The key of the command's document at `index`, in the order of the store.
    pub fn command_key_at(&self, index: usize) -> (key: Key)
        requires
            index < self@.commands.len(),
        ensures
            key@ == KeyView::Command(self@.commands[index as int].key),
    {
        Key::Command(self.commands[index].key.clone())
    }

    /// The command's document at `index`, in the order of the store.
    pub fn command_document_at(&self, index: usize) -> (document: String)
        requires
            index < self@.commands.len(),
        ensures
            document@ == self@.commands[index as int].document,
    {
        self.commands[index].document.clone()
    }

    /// Reads the record kept under `key`.
    ///
    /// Fails with `NotFound` where nothing was ever put under the key, and
    /// with `StorageIoError` where what is kept there holds no record.
    pub fn get(&self, key: &Key) -> (r: Result<Record, PipelineError>)
        ensures
            match r {
                Ok(record) => got(self@, key@) == Ok::<RecordView, PipelineErrorView>(record@),
                Err(e) => got(self@, key@) == Err::<RecordView, PipelineErrorView>(e@),
            },
    {
        match self.document(key) {
            None => Err(PipelineError::NotFound),
            Some(document) => get_json_value(document.as_str()),
        }
    }

    /// Writes `record` as a document and keeps it under `key`, in the place
    /// of what was there.
    pub fn put(&mut self, key: &Key, record: &Record)
        ensures
            final(self)@ == with_document(old(self)@, key@, document_of(record@)),
            distinct_keys(final(self)@.commands),
    {
        let document = set_json_value(record);
        self.insert_document(key, document);
    }
}

/// What reading under `key` gives.
pub open spec fn got(store: StoreView, key: KeyView) -> Result<RecordView, PipelineErrorView> {
    match document_at(store, key) {
        None => Err(PipelineErrorView::NotFound),
        Some(document) => match record_of(document) {
            None => Err(PipelineErrorView::StorageIoError),
            Some(record) => Ok(record),
        },
    }
}

} // verus!
