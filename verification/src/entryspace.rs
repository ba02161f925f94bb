//! The entry space: the entries of the configuration, searchable by name, and the
//! trigger prefixes that open an entry directly.
use vstd::prelude::*;
use vstd::string::StrSliceExecFns;

use crate::entry::{read_view, ActiveEntry, EntryArgs, Invoke, Read, ReadView};
use crate::search::{is_ranking, SearchEngine};
use crate::toml_model::{
    field, field_str, find_key, get_field, get_field_str, get_str_items, parse_toml, str_items, string_eq_str,
    toml_document, TomlValue,
};

verus! {

/// An entry's identity, drawn at random when the configuration is loaded.
pub type Ident = u64;

/// What an entry does, as the configuration describes it.
pub enum Loader {
    /// Runs `program` with `args`.
    Shell { program: String, args: Vec<String> },
    /// Loads the plugin library at `path`.
    Dylib { path: String },
    /// Loads the Lua script at `path`.
    Lua { path: String },
    /// Shows `text` (a configuration error, most often).
    Message { text: String },
}

pub enum LoaderView {
    Shell { program: Seq<char>, args: Seq<Seq<char>> },
    Dylib { path: Seq<char> },
    Lua { path: Seq<char> },
    Message { text: Seq<char> },
}

impl View for Loader {
    type V = LoaderView;

    open spec fn view(&self) -> LoaderView {
        match self {
            Loader::Shell { program, args } => LoaderView::Shell {
                program: program@,
                args: args@.map_values(|s: String| s@),
            },
            Loader::Dylib { path } => LoaderView::Dylib { path: path@ },
            Loader::Lua { path } => LoaderView::Lua { path: path@ },
            Loader::Message { text } => LoaderView::Message { text: text@ },
        }
    }
}

/// An entry that can be opened: a plugin library, a Lua script, or a message.
pub enum OpenTarget {
    Dylib(String),
    Lua(String),
    Message(String),
}

/// What invoking an entry takes.
pub enum LoadAction {
    /// Run the command and wait for it; then quit.
    RunThenExit { program: String, args: Vec<String> },
    /// Open an entry on top.
    Open(OpenTarget),
}

fn clone_strings(v: &Vec<String>) -> (r: Vec<String>)
    ensures
        r@.map_values(|s: String| s@) == v@.map_values(|s: String| s@),
{
    let mut out: Vec<String> = Vec::new();
    let mut i: usize = 0;
    while i < v.len()
        invariant
            i <= v@.len(),
            out@.map_values(|s: String| s@) == v@.subrange(0, i as int).map_values(|s: String| s@),
        decreases v@.len() - i,
    {
        let ghost before = out@;
        out.push(v[i].clone());
        assert(out@.map_values(|s: String| s@) =~= before.map_values(|s: String| s@).push(v@[i as int]@));
        assert(v@.subrange(0, i + 1).map_values(|s: String| s@) =~= v@.subrange(0, i as int).map_values(|s: String| s@).push(v@[i as int]@));
        i = i + 1;
    }
    assert(v@.subrange(0, v@.len() as int) =~= v@);
    out
}

impl Loader {
    pub fn duplicate(&self) -> (r: Loader)
        ensures
            r@ == self@,
    {
        match self {
            Loader::Shell { program, args } => Loader::Shell { program: program.clone(), args: clone_strings(args) },
            Loader::Dylib { path } => Loader::Dylib { path: path.clone() },
            Loader::Lua { path } => Loader::Lua { path: path.clone() },
            Loader::Message { text } => Loader::Message { text: text.clone() },
        }
    }

    /// Invoking: a shell entry runs its command and quits; any other entry opens
    /// what it loads.
    pub fn invoke_action(&self) -> (a: LoadAction)
        ensures
            match (self@, a) {
                (LoaderView::Shell { program, args }, LoadAction::RunThenExit { program: e, args: r }) =>
                    e@ == program && r@.map_values(|s: String| s@) == args,
                (LoaderView::Dylib { path }, LoadAction::Open(OpenTarget::Dylib(p))) => p@ == path,
                (LoaderView::Lua { path }, LoadAction::Open(OpenTarget::Lua(p))) => p@ == path,
                (LoaderView::Message { text }, LoadAction::Open(OpenTarget::Message(t))) => t@ == text,
                _ => false,
            },
    {
        match self {
            Loader::Shell { program, args } => LoadAction::RunThenExit { program: program.clone(), args: clone_strings(args) },
            Loader::Dylib { path } => LoadAction::Open(OpenTarget::Dylib(path.clone())),
            Loader::Lua { path } => LoadAction::Open(OpenTarget::Lua(path.clone())),
            Loader::Message { text } => LoadAction::Open(OpenTarget::Message(text.clone())),
        }
    }

    /// Raising by a trigger: what the entry opens; a shell entry cannot be raised and
    /// opens a message that says so.
    pub fn raise_target(&self) -> (t: OpenTarget)
        ensures
            match (self@, t) {
                (LoaderView::Shell { .. }, OpenTarget::Message(m)) => m@ == "No raise-support for shell entry"@,
                (LoaderView::Dylib { path }, OpenTarget::Dylib(p)) => p@ == path,
                (LoaderView::Lua { path }, OpenTarget::Lua(p)) => p@ == path,
                (LoaderView::Message { text }, OpenTarget::Message(m)) => m@ == text,
                _ => false,
            },
    {
        match self {
            Loader::Shell { .. } => OpenTarget::Message("No raise-support for shell entry".to_owned()),
            Loader::Dylib { path } => OpenTarget::Dylib(path.clone()),
            Loader::Lua { path } => OpenTarget::Lua(path.clone()),
            Loader::Message { text } => OpenTarget::Message(text.clone()),
        }
    }
}

/// Single fetch of an entry.
pub struct Entry {
    pub loader: Loader,
    pub read: Read,
    pub ident: Ident,
}

pub struct EntryView {
    pub loader: LoaderView,
    pub read: ReadView,
    pub ident: Ident,
}

impl View for Entry {
    type V = EntryView;

    open spec fn view(&self) -> EntryView {
        EntryView { loader: self.loader@, read: self.read@, ident: self.ident }
    }
}

impl Entry {
    pub fn duplicate(&self) -> (r: Entry)
        ensures
            r@ == self@,
    {
        Entry { loader: self.loader.duplicate(), read: self.read.duplicate(), ident: self.ident }
    }
}

/// The loader that a configured entry describes, by its `crate-type`:
/// `shell` runs `exec` with the strings of `args`; `dylib` and `lua` load `path`;
/// a missing key or an unknown type gives a message that says what is wrong.
pub open spec fn config_loader(v: TomlValue) -> LoaderView {
    match field_str(v, "crate-type"@) {
        Some(ct) => if ct == "shell"@ {
            match field_str(v, "exec"@) {
                Some(program) => LoaderView::Shell {
                    program,
                    args: match field(v, "args"@) {
                        Some(TomlValue::Array(a)) => str_items(a@),
                        _ => Seq::empty(),
                    },
                },
                None => LoaderView::Message { text: "Shell entry lack of `exec` key!"@ },
            }
        } else if ct == "dylib"@ {
            match field_str(v, "path"@) {
                Some(path) => LoaderView::Dylib { path },
                None => LoaderView::Message { text: "Dylib entry lack of `path` key!"@ },
            }
        } else if ct == "lua"@ {
            match field_str(v, "path"@) {
                Some(path) => LoaderView::Lua { path },
                None => LoaderView::Message { text: "Lua entry lack of `path` key!"@ },
            }
        } else {
            LoaderView::Message { text: "Unrecognized crate-type!"@ }
        },
        None => LoaderView::Message { text: "No valid crate-type key!"@ },
    }
}

/// The row a configured entry shows: its `title` ("<No title>" without one) and its
/// `description` (empty without one).
pub open spec fn config_read(v: TomlValue) -> ReadView {
    ReadView {
        title: match field_str(v, "title"@) {
            Some(t) => t,
            None => "<No title>"@,
        },
        description: match field_str(v, "description"@) {
            Some(d) => d,
            None => Seq::empty(),
        },
    }
}

/// The entry that a configured item makes, with identity `id`.
pub open spec fn config_entry(v: TomlValue, id: Ident) -> EntryView {
    EntryView { loader: config_loader(v), read: config_read(v), ident: id }
}

/// The searchable entries of the first `k` configured items: those with an ASCII
/// `name`, under that name.
pub open spec fn named_entries(es: Seq<TomlValue>, ids: Seq<Ident>, k: int) -> Seq<(Seq<char>, EntryView)>
    decreases k,
{
    if k <= 0 {
        Seq::empty()
    } else {
        named_entries(es, ids, k - 1) + match field_str(es[k - 1], "name"@) {
            Some(n) => if vstd::utf8::is_ascii_chars(n) {
                seq![(n, config_entry(es[k - 1], ids[k - 1]))]
            } else {
                Seq::empty()
            },
            None => Seq::empty(),
        }
    }
}

/// The triggers of the first `k` configured items: each `trigger` prefix opens its
/// item's entry; a later item takes the prefix over.
pub open spec fn trigger_entries_of(es: Seq<TomlValue>, ids: Seq<Ident>, k: int) -> Map<Seq<char>, EntryView>
    decreases k,
{
    if k <= 0 {
        Map::empty()
    } else {
        let m = trigger_entries_of(es, ids, k - 1);
        match field_str(es[k - 1], "trigger"@) {
            Some(p) => m.insert(p, config_entry(es[k - 1], ids[k - 1])),
            None => m,
        }
    }
}

/// The entries that the triggers open, keyed by prefix.
#[verifier::external_body]
pub struct TriggerTable {
    map: hashbrown::HashMap<String, Entry>,
}

/// The prefix-to-entry pairs of a trigger table.
pub uninterp spec fn trigger_table(t: TriggerTable) -> Map<Seq<char>, Entry>;

/// `hashbrown::HashMap::new`: an empty table.
#[verifier::external_body]
fn triggers_new() -> (t: TriggerTable)
    ensures
        trigger_table(t).dom().is_empty(),
{
    TriggerTable { map: hashbrown::HashMap::new() }
}

/// `hashbrown::HashMap::insert`: puts `e` under `key`, replacing what was there;
/// tells whether something was.
#[verifier::external_body]
fn triggers_insert(t: &mut TriggerTable, key: String, e: Entry) -> (replaced: bool)
    ensures
        replaced == trigger_table(*old(t)).contains_key(key@),
        trigger_table(*final(t)) == trigger_table(*old(t)).insert(key@, e),
{
    t.map.insert(key, e).is_some()
}

/// `hashbrown::HashMap::get`: the entry under `key`.
#[verifier::external_body]
fn triggers_get<'a>(t: &'a TriggerTable, key: &str) -> (r: Option<&'a Entry>)
    ensures
        match r {
            Some(e) => trigger_table(*t).contains_key(key@) && trigger_table(*t)[key@] == *e,
            None => !trigger_table(*t).contains_key(key@),
        },
{
    t.map.get(key)
}

/// The configured items of a document: its `entry` array.
pub open spec fn entry_items(doc: TomlValue) -> Seq<TomlValue> {
    match field(doc, "entry"@) {
        Some(TomlValue::Array(a)) => a@,
        _ => Seq::empty(),
    }
}

/// `getrandom::u64`: a random number, or nothing when the system gives none.
#[verifier::external_body]
fn random_ident() -> (r: Option<u64>) {
    getrandom::u64().ok()
}

/// Splitting at the first space: the text before it and the text after it.
pub open spec fn split_first_space(s: Seq<char>) -> Option<(Seq<char>, Seq<char>)> {
    if exists|i: int| 0 <= i < s.len() && s[i] == ' ' {
        let i = choose|i: int| 0 <= i < s.len() && s[i] == ' ' && forall|j: int| 0 <= j < i ==> s[j] != ' ';
        Some((s.subrange(0, i), s.subrange(i + 1, s.len() as int)))
    } else {
        None
    }
}

proof fn lemma_first_space(s: Seq<char>, i: int)
    requires
        0 <= i < s.len(),
        s[i] == ' ',
        forall|j: int| 0 <= j < i ==> s[j] != ' ',
    ensures
        split_first_space(s) == Some((s.subrange(0, i), s.subrange(i + 1, s.len() as int))),
{
    let k = choose|k: int| 0 <= k < s.len() && s[k] == ' ' && forall|j: int| 0 <= j < k ==> s[j] != ' ';
    assert(0 <= k < s.len() && s[k] == ' ' && forall|j: int| 0 <= j < k ==> s[j] != ' ');
    if k < i {
        assert(s[k] != ' ');
    } else if k > i {
        assert(s[i] != ' ');
    }
}

/// Splitting at the first space: the parts around it give the text back, and the
/// part before it holds no space; a text without a space is not split.
pub proof fn lemma_split_first_space_parts(s: Seq<char>)
    ensures
        split_first_space(s) is None <==> !s.contains(' '),
        split_first_space(s) matches Some((p, rest)) ==> s == p + seq![' '] + rest && !p.contains(' '),
{
    if s.contains(' ') {
        let j = choose|j: int| 0 <= j < s.len() && s[j] == ' ';
        lemma_first_space_exists(s, j);
        let i = choose|i: int| 0 <= i < s.len() && s[i] == ' ' && forall|k: int| 0 <= k < i ==> s[k] != ' ';
        let p = s.subrange(0, i);
        let rest = s.subrange(i + 1, s.len() as int);
        assert(s =~= p + seq![' '] + rest);
        assert(!p.contains(' '));
    }
}

proof fn lemma_first_space_exists(s: Seq<char>, j: int)
    requires
        0 <= j < s.len(),
        s[j] == ' ',
    ensures
        exists|i: int| 0 <= i < s.len() && s[i] == ' ' && forall|k: int| 0 <= k < i ==> s[k] != ' ',
    decreases j,
{
    if exists|k: int| 0 <= k < j && s[k] == ' ' {
        let k = choose|k: int| 0 <= k < j && s[k] == ' ';
        lemma_first_space_exists(s, k);
    } else {
        assert(forall|k: int| 0 <= k < j ==> s[k] != ' ');
    }
}

/// `str::split_once(' ')`.
fn split_once_space(s: &str) -> (r: Option<(String, String)>)
    ensures
        match (r, split_first_space(s@)) {
            (Some((a, b)), Some((x, y))) => a@ == x && b@ == y,
            (None, None) => true,
            _ => false,
        },
{
    let n = s.unicode_len();
    let mut i: usize = 0;
    while i < n
        invariant
            n == s@.len(),
            i <= n,
            forall|j: int| 0 <= j < i ==> s@[j] != ' ',
        decreases n - i,
    {
        if s.get_char(i) == ' ' {
            proof {
                lemma_first_space(s@, i as int);
            }
            let a = s.substring_char(0, i).to_owned();
            let b = s.substring_char(i + 1, n).to_owned();
            return Some((a, b));
        }
        i = i + 1;
    }
    None
}

/// What calling a row of the entry space asks for.
pub enum SpaceCall<E> {
    /// The open trigger entry answered this.
    Entry(Invoke<E>),
    /// Invoke this searched entry (see [`Loader::invoke_action`]).
    Run(Loader),
}

/// A trigger entry must be opened: raise `loader` (see [`Loader::raise_target`]) and
/// hand the entry to [`EntrySpace::activate`] with `ident` and `args`, the input after
/// the trigger prefix.
pub struct TriggerRaise {
    pub ident: Ident,
    pub loader: Loader,
    pub args: EntryArgs,
}

/// The core component for the entries' access: the configured entries, searchable by
/// name, the triggers, and the trigger entry that is open, if any.
pub struct EntrySpace<E> {
    engine: SearchEngine<Entry>,
    triggers: TriggerTable,
    active_trigger: Option<(Ident, Box<E>)>,
}

impl<E: ActiveEntry> EntrySpace<E> {
    /// The searchable entries, by name.
    pub open spec fn named(&self) -> Seq<(Seq<char>, EntryView)> {
        let names = self.engine().names();
        let vals = self.engine().values();
        Seq::new(names.len(), |i: int| (names[i], vals[i]@))
    }

    pub closed spec fn engine(&self) -> SearchEngine<Entry> {
        self.engine
    }

    /// The triggers: prefix to entry.
    pub open spec fn triggers(&self) -> Map<Seq<char>, EntryView> {
        self.trigger_table().map_values(|e: Entry| e@)
    }

    pub closed spec fn trigger_table(&self) -> Map<Seq<char>, Entry> {
        trigger_table(self.triggers)
    }

    /// The identity of the open trigger entry.
    pub closed spec fn active_ident(&self) -> Option<Ident> {
        match self.active_trigger {
            Some((id, _)) => Some(id),
            None => None,
        }
    }

    /// The open trigger entry (meaningful while there is one).
    pub closed spec fn active_entry(&self) -> E {
        match self.active_trigger {
            Some((_, e)) => *e,
            None => arbitrary(),
        }
    }

    pub closed spec fn wf(&self) -> bool {
        self.engine.wf()
    }

    /// Reads the configuration `doc` (the document that TOML text parses to): the
    /// entries of its `entry` array, each with an identity drawn at random. Nothing
    /// when the document has no such array, or when no random number can be had; an
    /// empty array needs no random number and always gives an empty space.
    pub fn from_toml(doc: &TomlValue) -> (r: Option<Self>)
        ensures
            !(field(*doc, "entry"@) matches Some(TomlValue::Array(_))) ==> r is None,
            (field(*doc, "entry"@) matches Some(TomlValue::Array(_))) && entry_items(*doc).len() == 0
                ==> r is Some,
            r matches Some(space) ==> exists|ids: Seq<Ident>|
                ids.len() == entry_items(*doc).len() && #[trigger] space.loaded_from(entry_items(*doc), ids),
    {
        let entries = match get_field(doc, "entry") {
            Some(TomlValue::Array(a)) => a,
            _ => return None,
        };
        assert(entries@ == entry_items(*doc));
        let mut ids: Vec<Ident> = Vec::new();
        let mut i: usize = 0;
        while i < entries.len()
            invariant
                entries@ == entry_items(*doc),
                i <= entries@.len(),
                ids@.len() == i,
            decreases entries@.len() - i,
        {
            match random_ident() {
                Some(id) => ids.push(id),
                None => return None,
            }
            i = i + 1;
        }
        let space = Self::from_parts(entries, &ids);
        proof {
            assert(entries@ == entry_items(*doc));
            assert(space.loaded_from(entry_items(*doc), ids@));
        }
        Some(space)
    }

    /// Reads the configuration from TOML text (see [`EntrySpace::from_toml`]): nothing
    /// when the text is not TOML.
    pub fn from_toml_text(text: &str) -> (r: Option<Self>)
        ensures
            toml_document(text@) is None ==> r is None,
            toml_document(text@) is Some ==> {
                let doc = toml_document(text@)->0;
                &&& !(field(doc, "entry"@) matches Some(TomlValue::Array(_))) ==> r is None
                &&& (field(doc, "entry"@) matches Some(TomlValue::Array(_))) && entry_items(doc).len() == 0
                    ==> r is Some
            },
            r matches Some(space) ==> exists|ids: Seq<Ident>|
                ids.len() == entry_items(toml_document(text@)->0).len() && #[trigger] space.loaded_from(
                    entry_items(toml_document(text@)->0),
                    ids,
                ),
    {
        match parse_toml(text) {
            Some(doc) => Self::from_toml(&doc),
            None => None,
        }
    }

    /// The space holds exactly what the configured items `es` with identities `ids`
    /// make, no trigger entry is open and nothing was searched yet.
    pub open spec fn loaded_from(&self, es: Seq<TomlValue>, ids: Seq<Ident>) -> bool {
        &&& self.wf()
        &&& self.named() == named_entries(es, ids, es.len() as int)
        &&& self.triggers() == trigger_entries_of(es, ids, es.len() as int)
        &&& self.active_ident() is None
        &&& self.engine().result().len() == 0
    }

    /// Builds the space from the configured items `entries`, item `i` with identity
    /// `ids[i]`.
    pub fn from_parts(entries: &Vec<TomlValue>, ids: &Vec<Ident>) -> (s: Self)
        requires
            ids@.len() == entries@.len(),
        ensures
            s.loaded_from(entries@, ids@),
    {
        let mut engine: SearchEngine<Entry> = SearchEngine::new();
        let mut triggers = triggers_new();
        let n = entries.len();
        let mut i: usize = 0;
        while i < n
            invariant
                n == entries@.len(),
                ids@.len() == n,
                i <= n,
                engine.wf(),
                engine.result().len() == 0,
                Seq::new(engine.names().len(), |k: int| (engine.names()[k], engine.values()[k]@))
                    == named_entries(entries@, ids@, i as int),
                engine.names().len() == engine.values().len(),
                trigger_table(triggers).map_values(|e: Entry| e@) == trigger_entries_of(entries@, ids@, i as int),
            decreases n - i,
        {
            let each = &entries[i];
            let entry = Self::make_entry(each, ids[i]);
            let ghost ev = entry@;
            let ghost before_names = engine.names();
            let ghost before_vals = engine.values();
            let ghost before_t = trigger_table(triggers);
            match get_field_str(each, "trigger") {
                Some(prefix) => {
                    let _replaced = triggers_insert(&mut triggers, prefix.clone(), entry.duplicate());
                    proof {
                        assert(trigger_table(triggers).map_values(|e: Entry| e@) =~= before_t.map_values(|e: Entry| e@).insert(prefix@, ev));
                    }
                },
                None => {},
            }
            match get_field_str(each, "name") {
                Some(name) => {
                    if name.as_str().is_ascii() {
                        engine.push(name.clone(), entry);
                        proof {
                            assert(Seq::new(engine.names().len(), |k: int| (engine.names()[k], engine.values()[k]@))
                                =~= Seq::new(before_names.len(), |k: int| (before_names[k], before_vals[k]@)).push((name@, ev)));
                        }
                    }
                },
                None => {},
            }
            proof {
                assert(named_entries(entries@, ids@, i + 1) == named_entries(entries@, ids@, i as int) + match field_str(entries@[i as int], "name"@) {
                    Some(n) => if vstd::utf8::is_ascii_chars(n) {
                        seq![(n, config_entry(entries@[i as int], ids@[i as int]))]
                    } else {
                        Seq::empty()
                    },
                    None => Seq::empty(),
                });
            }
            i = i + 1;
        }
        let space = EntrySpace { engine, triggers, active_trigger: None };
        proof {
            assert(space.named() =~= named_entries(entries@, ids@, n as int));
        }
        space
    }

    fn make_entry(each: &TomlValue, ident: Ident) -> (e: Entry)
        ensures
            e@ == config_entry(*each, ident),
    {
        let loader = match get_field_str(each, "crate-type") {
            Some(ct) => {
                if string_eq_str(ct, "shell") {
                    match get_field_str(each, "exec") {
                        Some(program) => Loader::Shell { program: program.clone(), args: get_str_items(each, "args") },
                        None => Loader::Message { text: "Shell entry lack of `exec` key!".to_owned() },
                    }
                } else if string_eq_str(ct, "dylib") {
                    match get_field_str(each, "path") {
                        Some(path) => Loader::Dylib { path: path.clone() },
                        None => Loader::Message { text: "Dylib entry lack of `path` key!".to_owned() },
                    }
                } else if string_eq_str(ct, "lua") {
                    match get_field_str(each, "path") {
                        Some(path) => Loader::Lua { path: path.clone() },
                        None => Loader::Message { text: "Lua entry lack of `path` key!".to_owned() },
                    }
                } else {
                    Loader::Message { text: "Unrecognized crate-type!".to_owned() }
                }
            },
            None => Loader::Message { text: "No valid crate-type key!".to_owned() },
        };
        let title = match get_field_str(each, "title") {
            Some(t) => t.clone(),
            None => "<No title>".to_owned(),
        };
        let description = match get_field_str(each, "description") {
            Some(d) => d.clone(),
            None => String::new(),
        };
        Entry { loader, read: Read { title, description }, ident }
    }

    /// Opens `entry` as the trigger entry `ident`, and writes `args` (the input after
    /// the trigger prefix) to it.
    pub fn activate(&mut self, ident: Ident, entry: E, args: EntryArgs)
        ensures
            final(self).active_ident() == Some(ident),
            entry.pushed(args@, final(self).active_entry()),
            final(self).named() == old(self).named(),
            final(self).triggers() == old(self).triggers(),
            final(self).engine().result() == old(self).engine().result(),
            final(self).wf() == old(self).wf(),
    {
        let mut entry = entry;
        entry.push(args);
        self.active_trigger = Some((ident, Box::new(entry)));
    }

    /// Writes the input. When it starts with a trigger prefix and a space: the open
    /// entry of that trigger gets the rest of the input; another trigger's entry is
    /// closed and the trigger's entry must be raised (the answer says which, with the
    /// rest of the input). Any other input closes the trigger entry and searches the
    /// entries by name.
    pub fn push(&mut self, args: EntryArgs) -> (r: Option<TriggerRaise>)
        requires
            old(self).wf(),
        ensures
            final(self).wf(),
            final(self).named() == old(self).named(),
            final(self).triggers() == old(self).triggers(),
            ({
                let t = old(self).triggers();
                match split_first_space(args@) {
                    Some((p, rest)) if t.contains_key(p) => {
                        if old(self).active_ident() == Some(t[p].ident) {
                            &&& r is None
                            &&& final(self).active_ident() == old(self).active_ident()
                            &&& old(self).active_entry().pushed(rest, final(self).active_entry())
                            &&& final(self).engine().result() == old(self).engine().result()
                        } else {
                            &&& r matches Some(raise) && raise.ident == t[p].ident && raise.loader@
                                == t[p].loader && raise.args@ == rest
                            &&& final(self).active_ident() is None
                            &&& final(self).engine().result() == old(self).engine().result()
                        }
                    },
                    _ => {
                        &&& r is None
                        &&& final(self).active_ident() is None
                        &&& is_ranking(
                            final(self).engine().result(),
                            old(self).engine().names(),
                            args@,
                            old(self).engine().names().len() as int,
                        )
                    },
                }
            }),
    {
        match split_once_space(args.as_str()) {
            Some((prefix, rest)) => {
                match triggers_get(&self.triggers, prefix.as_str()) {
                    Some(trigger) => {
                        let same = match &self.active_trigger {
                            Some((id, _)) => *id == trigger.ident,
                            None => false,
                        };
                        if same {
                            let (id, mut active) = self.active_trigger.take().unwrap();
                            active.push(rest);
                            self.active_trigger = Some((id, active));
                            return None;
                        } else {
                            let raise = TriggerRaise {
                                ident: trigger.ident,
                                loader: trigger.loader.duplicate(),
                                args: rest,
                            };
                            self.active_trigger = None;
                            return Some(raise);
                        }
                    },
                    None => {},
                }
            },
            None => {},
        }
        self.active_trigger = None;
        self.engine.search(args.as_str());
        None
    }

    /// Row `index`: the open trigger entry's row, or else the row of the entry that
    /// the last search ranked `index`.
    pub fn read(&self, index: usize) -> (r: Option<Read>)
        requires
            self.wf(),
        ensures
            self.active_ident() is None ==> {
                let res = self.engine().result();
                &&& index < res.len() ==> (r matches Some(x) && x@ == self.engine().values()[res[index as int].1 as int].read@)
                &&& index >= res.len() ==> r is None
            },
            self.active_ident() is Some ==> self.active_entry().shows(index, read_view(r)),
    {
        match &self.active_trigger {
            Some((_, active)) => active.read(index),
            None => match self.engine.get(index) {
                Some(fetch) => Some(fetch.read.duplicate()),
                None => None,
            },
        }
    }

    /// Calls row `index`: the open trigger entry answers, or else the entry that the
    /// last search ranked `index` is to be invoked.
    pub fn call(&self, index: usize) -> (r: Option<SpaceCall<E>>)
        requires
            self.wf(),
        ensures
            self.active_ident() is None ==> {
                let res = self.engine().result();
                &&& index < res.len() ==> (r matches Some(SpaceCall::Run(l)) && l@ == self.engine().values()[res[index as int].1 as int].loader@)
                &&& index >= res.len() ==> r is None
            },
            self.active_ident() is Some ==> match r {
                Some(SpaceCall::Entry(i)) => self.active_entry().answers(index, Some(i)),
                Some(SpaceCall::Run(_)) => false,
                None => self.active_entry().answers(index, None),
            },
    {
        match &self.active_trigger {
            Some((_, active)) => match active.call(index) {
                Some(invoke) => Some(SpaceCall::Entry(invoke)),
                None => None,
            },
            None => match self.engine.get(index) {
                Some(item) => Some(SpaceCall::Run(item.loader.duplicate())),
                None => None,
            },
        }
    }
}

} // verus!
