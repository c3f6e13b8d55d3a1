//! The persisted settings store: a flat document of named flags and
//! strings, read-modify-written wholesale and rendered to the host's
//! structured-text format.

use vstd::prelude::*;
use crate::strutil::str_eq;

verus! {

/// A value a settings entry can hold.
pub enum SettingValue {
    /// A boolean flag.
    Flag(bool),
    /// A free-form string.
    Text(String),
}

/// The mathematical shape of a [`SettingValue`].
pub enum ValueView {
    Flag(bool),
    Text(Seq<char>),
}

impl View for SettingValue {
    type V = ValueView;

    open spec fn view(&self) -> ValueView {
        match self {
            SettingValue::Flag(b) => ValueView::Flag(*b),
            SettingValue::Text(t) => ValueView::Text(t@),
        }
    }
}

/// One named entry of the document.
pub struct SettingEntry {
    pub key: String,
    pub value: SettingValue,
}

/// The document a flag name maps to under a sequence of entries, later
/// entries winning.
pub open spec fn entry_map(s: Seq<SettingEntry>) -> Map<Seq<char>, ValueView>
    decreases s.len(),
{
    if s.len() == 0 {
        Map::empty()
    } else {
        entry_map(s.drop_last()).insert(s.last().key@, s.last().value@)
    }
}

/// No two entries share a key.
pub open spec fn unique_keys(s: Seq<SettingEntry>) -> bool {
    forall|i: int, j: int| 0 <= i < j < s.len() ==> s[i].key@ != s[j].key@
}

/// The flat settings document: a mapping from flag name to value.
/// Abstractly it is a [`Map`] from key to [`ValueView`]; insertion order
/// carries no meaning.
pub struct SettingsDoc {
    entries: Vec<SettingEntry>,
}

impl View for SettingsDoc {
    type V = Map<Seq<char>, ValueView>;

    closed spec fn view(&self) -> Map<Seq<char>, ValueView> {
        entry_map(self.entries@)
    }
}

/// The flag value the document holds under `key`, if any.
pub open spec fn flag_of(m: Map<Seq<char>, ValueView>, key: Seq<char>) -> Option<bool> {
    if m.contains_key(key) {
        match m[key] {
            ValueView::Flag(b) => Some(b),
            ValueView::Text(_) => None,
        }
    } else {
        None
    }
}

/// The flag value under `key`, or `default` where the key is absent or
/// holds no boolean.
pub open spec fn flag_or(m: Map<Seq<char>, ValueView>, key: Seq<char>, default: bool) -> bool {
    match flag_of(m, key) {
        Some(b) => b,
        None => default,
    }
}

proof fn lemma_entry_map_index(s: Seq<SettingEntry>, i: int)
    requires
        unique_keys(s),
        0 <= i < s.len(),
    ensures
        entry_map(s).contains_key(s[i].key@),
        entry_map(s)[s[i].key@] == s[i].value@,
    decreases s.len(),
{
    if i < s.len() - 1 {
        assert(unique_keys(s.drop_last()));
        lemma_entry_map_index(s.drop_last(), i);
        assert(s[i].key@ != s.last().key@);
    }
}

proof fn lemma_entry_map_absent(s: Seq<SettingEntry>, key: Seq<char>)
    requires
        forall|i: int| 0 <= i < s.len() ==> s[i].key@ != key,
    ensures
        !entry_map(s).contains_key(key),
    decreases s.len(),
{
    if s.len() > 0 {
        lemma_entry_map_absent(s.drop_last(), key);
    }
}

proof fn lemma_entry_map_push(s: Seq<SettingEntry>, e: SettingEntry)
    ensures
        entry_map(s.push(e)) == entry_map(s).insert(e.key@, e.value@),
{
    assert(s.push(e).drop_last() =~= s);
}

proof fn lemma_entry_map_update(s: Seq<SettingEntry>, i: int, e: SettingEntry)
    requires
        unique_keys(s),
        0 <= i < s.len(),
        s[i].key@ == e.key@,
    ensures
        entry_map(s.update(i, e)) =~= entry_map(s).insert(e.key@, e.value@),
        unique_keys(s.update(i, e)),
    decreases s.len(),
{
    let t = s.update(i, e);
    assert forall|a: int, b: int| 0 <= a < b < t.len() implies t[a].key@ != t[b].key@ by {
        assert(t[a].key@ == s[a].key@);
        assert(t[b].key@ == s[b].key@);
    }
    if i == s.len() - 1 {
        assert(t.drop_last() =~= s.drop_last());
        assert(t.last() == e);
    } else {
        assert(unique_keys(s.drop_last()));
        assert(s.drop_last()[i] == s[i]);
        lemma_entry_map_update(s.drop_last(), i, e);
        assert(t.drop_last() =~= s.drop_last().update(i, e));
        assert(t.last() == s.last());
        assert(s[i].key@ != s.last().key@);
    }
}

impl SettingsDoc {
    /// Type validity: entry keys are distinct, so a linear scan agrees with
    /// the abstract map.
    pub closed spec fn wf(&self) -> bool {
        unique_keys(self.entries@)
    }

    /// The empty document: what loading absent, unreadable or malformed
    /// backing text yields.
    pub fn empty() -> (doc: Self)
        ensures
            doc.wf(),
            doc@ == Map::<Seq<char>, ValueView>::empty(),
    {
        SettingsDoc { entries: Vec::new() }
    }

    /// Reads the flag stored under `key`: `Some` exactly where the
    /// document holds a boolean under that name.
    pub fn get_flag(&self, key: &str) -> (r: Option<bool>)
        requires
            self.wf(),
        ensures
            r == flag_of(self@, key@),
    {
        let n = self.entries.len();
        let mut i: usize = 0;
        while i < n
            invariant
                0 <= i <= n,
                n == self.entries@.len(),
                self.wf(),
                forall|j: int| 0 <= j < i ==> self.entries@[j].key@ != key@,
            decreases n - i,
        {
            if str_eq(self.entries[i].key.as_str(), key) {
                proof {
                    lemma_entry_map_index(self.entries@, i as int);
                }
                return match &self.entries[i].value {
                    SettingValue::Flag(b) => Some(*b),
                    SettingValue::Text(_) => None,
                };
            }
            i = i + 1;
        }
        proof {
            lemma_entry_map_absent(self.entries@, key@);
        }
        None
    }

    /// Stores `value` as the flag under `key`, replacing whatever the
    /// document held there.
    pub fn set_flag(&mut self, key: &str, value: bool)
        requires
            old(self).wf(),
        ensures
            final(self).wf(),
            final(self)@ == old(self)@.insert(key@, ValueView::Flag(value)),
    {
        let n = self.entries.len();
        let mut i: usize = 0;
        while i < n
            invariant
                0 <= i <= n,
                n == self.entries@.len(),
                self.wf(),
                *self == *old(self),
                forall|j: int| 0 <= j < i ==> self.entries@[j].key@ != key@,
            decreases n - i,
        {
            if str_eq(self.entries[i].key.as_str(), key) {
                let entry = SettingEntry {
                    key: key.to_owned(),
                    value: SettingValue::Flag(value),
                };
                proof {
                    lemma_entry_map_update(self.entries@, i as int, entry);
                }
                self.entries[i] = entry;
                return ;
            }
            i = i + 1;
        }
        let entry = SettingEntry { key: key.to_owned(), value: SettingValue::Flag(value) };
        proof {
            lemma_entry_map_push(self.entries@, entry);
        }
        self.entries.push(entry);
    }

    /// Inverts the flag under `key` and stores the inverted value: the new
    /// value is the negation of what the document held, with an absent or
    /// non-boolean entry read as `default`. Returns the new value.
    pub fn toggle_flag(&mut self, key: &str, default: bool) -> (new_val: bool)
        requires
            old(self).wf(),
        ensures
            final(self).wf(),
            new_val == !flag_or(old(self)@, key@, default),
            final(self)@ == old(self)@.insert(key@, ValueView::Flag(new_val)),
    {
        let current = match self.get_flag(key) {
            Some(b) => b,
            None => default,
        };
        let new_val = !current;
        self.set_flag(key, new_val);
        new_val
    }
}

/// The document a settings rendering parses to. Parsing depends on the
/// text alone, so the result carries a name; text that is not a JSON
/// object of flags and strings contributes the empty document or drops
/// the foreign entries.
pub uninterp spec fn json_doc(s: Seq<char>) -> Map<Seq<char>, ValueView>;

/// Relies on serde_json::from_str on serde_json::Value: parsing is a
/// function of the text alone; a failed parse or a non-object value is
/// read as the empty document; an object's map holds each key once
/// (serde_json's object map replaces on duplicate keys), so the entries
/// collected from it have distinct keys. Entries whose value is neither a
/// boolean nor a string lie outside the document model and are dropped.
#[verifier::external_body]
fn parse_doc(text: &str) -> (doc: SettingsDoc)
    ensures
        doc.wf(),
        doc@ == json_doc(text@),
        doc@ == (if text@.len() == 0 {
            Map::<Seq<char>, ValueView>::empty()
        } else {
            json_doc(text@)
        }),
{
    let mut entries = Vec::new();
    if let Ok(serde_json::Value::Object(map)) = serde_json::from_str::<serde_json::Value>(text) {
        for (key, value) in map {
            match value {
                serde_json::Value::Bool(b) => entries.push(SettingEntry { key, value: SettingValue::Flag(b) }),
                serde_json::Value::String(t) => entries.push(SettingEntry { key, value: SettingValue::Text(t) }),
                _ => {},
            }
        }
    }
    SettingsDoc { entries }
}

/// Relies on serde_json::Value's Display rendering and serde_json's
/// round-trip guarantee: a string-keyed object of booleans and strings
/// renders to JSON text that parses back to the same object, so the
/// rendering of a document parses to that document.
#[verifier::external_body]
fn render_doc(doc: &SettingsDoc) -> (text: String)
    ensures
        json_doc(text@) == doc@,
{
    let mut map = serde_json::Map::new();
    for e in &doc.entries {
        let value = match &e.value {
            SettingValue::Flag(b) => serde_json::Value::Bool(*b),
            SettingValue::Text(t) => serde_json::Value::String(t.clone()),
        };
        map.insert(e.key.clone(), value);
    }
    serde_json::Value::Object(map).to_string()
}

/// Loads the document from the backing file's text. Absent, unreadable or
/// malformed text is the empty document, never an error; the caller hands
/// in an empty string where the file could not be read.
pub fn load_doc(text: &str) -> (doc: SettingsDoc)
    ensures
        doc.wf(),
        doc@ == json_doc(text@),
        text@.len() == 0 ==> doc@ == Map::<Seq<char>, ValueView>::empty(),
{
    parse_doc(text)
}

/// Renders the document for wholesale persistence. Loading the rendering
/// yields the document back, so a persisted toggle survives a reload.
pub fn save_doc(doc: &SettingsDoc) -> (text: String)
    ensures
        json_doc(text@) == doc@,
{
    render_doc(doc)
}

/// Toggle round-trip: toggling the same flag twice in succession restores
/// the value the first toggle inverted — the second toggle yields the
/// first reading back and the document again holds it.
pub proof fn lemma_toggle_round_trip(m: Map<Seq<char>, ValueView>, key: Seq<char>, default: bool)
    ensures
        flag_or(m.insert(key, ValueView::Flag(!flag_or(m, key, default))), key, default)
            == !flag_or(m, key, default),
        !flag_or(m.insert(key, ValueView::Flag(!flag_or(m, key, default))), key, default)
            == flag_or(m, key, default),
{
}

} // verus!
