//! Translations: one table of messages for each language, loaded from JSON
//! documents whose nested keys are joined with dots.

use crate::config::json::Json;
use crate::config::json::Member;
use crate::config::json::JsonView;
use crate::config::json::MemberView;
use crate::text::same_text;
use crate::web::validator::field_views;
use crate::web::validator::FieldErrorsView;
use crate::web::validator::ValidationErrorView;
use crate::web::validator::ValidationErrors;
use crate::text::text_of;
use vstd::prelude::*;

verus! {

/// One message of a table.
#[derive(Clone)]
pub struct Entry {
    pub key: String,
    pub text: String,
}

/// What the first `n` entries say, a later entry overriding an earlier one
/// of the same key.
pub open spec fn table_of(entries: Seq<Entry>, n: int) -> Map<Seq<char>, Seq<char>>
    decreases n,
{
    if n <= 0 {
        Map::empty()
    } else {
        table_of(entries, n - 1).insert(entries[n - 1].key@, entries[n - 1].text@)
    }
}

/// The messages of one language, by key.
#[derive(Clone)]
pub struct Translation {
    entries: Vec<Entry>,
}

impl View for Translation {
    type V = Map<Seq<char>, Seq<char>>;

    closed spec fn view(&self) -> Map<Seq<char>, Seq<char>> {
        table_of(self.entries@, self.entries@.len() as int)
    }
}

/// Putting an entry last adds what it says to what the others say.
proof fn table_of_push(entries: Seq<Entry>, entry: Entry, n: int)
    requires
        0 <= n <= entries.len(),
    ensures
        table_of(entries.push(entry), n) == table_of(entries, n),
    decreases n,
{
    if n > 0 {
        table_of_push(entries, entry, n - 1);
        assert(entries.push(entry)[n - 1] == entries[n - 1]);
    }
}

impl Translation {
    pub fn new() -> (table: Translation)
        ensures
            table@ == Map::<Seq<char>, Seq<char>>::empty(),
    {
        Translation { entries: Vec::new() }
    }

    /// Sets the message of `key`, in place of an earlier one if there is
    /// one.
    pub fn insert(&mut self, key: String, text: String)
        ensures
            final(self)@ == old(self)@.insert(key@, text@),
    {
        let entry = Entry { key, text };
        proof {
            table_of_push(self.entries@, entry, self.entries@.len() as int);
        }
        self.entries.push(entry);
    }

    /// The message of `key`, if the table has one.
    pub fn get(&self, key: &str) -> (text: Option<&String>)
        ensures
            match text {
                Some(t) => self@.contains_key(key@) && self@[key@] == t@,
                None => !self@.contains_key(key@),
            },
    {
        let mut i: usize = self.entries.len();
        while i > 0
            invariant
                i <= self.entries@.len(),
                self@.contains_key(key@) == table_of(self.entries@, i as int).contains_key(key@),
                self@.contains_key(key@) ==> self@[key@] == table_of(self.entries@, i as int)[key@],
            decreases i,
        {
            i = i - 1;
            if same_text(self.entries[i].key.as_str(), key) {
                return Some(&self.entries[i].text);
            }
        }
        None
    }
}

/// The key of a member under a prefix: the two joined by a dot, or the
/// member's own key where there is no prefix.
pub open spec fn joined(prefix: Option<Seq<char>>, key: Seq<char>) -> Seq<char> {
    match prefix {
        Some(p) => p + "."@ + key,
        None => key,
    }
}

/// The table after the texts of `value` are entered under `prefix`: a text
/// under the prefix itself, if there is one; the members of an object in
/// order, each under the prefix joined with its key; nothing of any other
/// value.
pub open spec fn flat(
    value: JsonView,
    prefix: Option<Seq<char>>,
    table: Map<Seq<char>, Seq<char>>,
) -> Map<Seq<char>, Seq<char>>
    decreases value, 0nat,
{
    match value {
        JsonView::Object(members) => flat_members(members, members.len(), prefix, table),
        JsonView::Text(text) => match prefix {
            Some(key) => table.insert(key, text),
            None => table,
        },
        JsonView::Other => table,
    }
}

/// The table after the first `n` members are entered under `prefix`.
pub open spec fn flat_members(
    members: Seq<MemberView>,
    n: nat,
    prefix: Option<Seq<char>>,
    table: Map<Seq<char>, Seq<char>>,
) -> Map<Seq<char>, Seq<char>>
    decreases members, n,
{
    if n == 0 || n > members.len() {
        table
    } else {
        flat(
            members[n - 1].value,
            Some(joined(prefix, members[n - 1].key)),
            flat_members(members, (n - 1) as nat, prefix, table),
        )
    }
}

/// Enters the texts of `value` into `map` under `prefix`.
pub fn flatten_json(value: &Json, prefix: Option<String>, map: &mut Translation)
    ensures
        final(map)@ == flat(value@, text_of(prefix), old(map)@),
    decreases value,
{
    match value {
        Json::Object(members) => {
            let ghost views = value@->Object_0;
            let ghost start = map@;
            let mut i: usize = 0;
            while i < members.len()
                invariant
                    i <= members@.len(),
                    value@ == JsonView::Object(views),
                    value == Json::Object(*members),
                    views.len() == members@.len(),
                    map@ == flat_members(views, i as nat, text_of(prefix), start),
                decreases members@.len() - i,
            {
                let member = &members[i];
                let new_prefix = match &prefix {
                    Some(pref) => pref.clone().concat(".").concat(member.key.as_str()),
                    None => member.key.clone(),
                };
                assert(views[i as int] == member@);
                flatten_json(&member.value, Some(new_prefix), map);
                i = i + 1;
            }
        },
        Json::Text(s) => {
            if let Some(key) = prefix {
                map.insert(key, s.clone());
            }
        },
        Json::Other => {},
    }
}

/// `serde_json::Value`, a parsed JSON document. It is carried, not looked
/// into.
#[verifier::external_type_specification]
#[verifier::external_body]
pub struct ExValue(serde_json::Value);

/// `serde_json::Error`, the parser's complaint. It is carried, not looked
/// into.
#[verifier::external_type_specification]
#[verifier::external_body]
pub struct ExJsonError(serde_json::Error);

/// What reading a text as a JSON document gives: the value, or nothing
/// where the text is no such document.
pub uninterp spec fn parsed_json(text: Seq<char>) -> Option<JsonView>;

/// What a parsed document holds: the members of an object in the order in
/// which the document's map hands them out, a text, or anything else for a
/// value that is neither.
pub uninterp spec fn value_json(value: serde_json::Value) -> JsonView;

/// `serde_json::from_str` at the type `serde_json::Value`: the document
/// that the text denotes, or the parser's error. The outcome depends on the
/// text alone.
#[verifier::external_body]
fn parse_value(text: &str) -> (r: Result<serde_json::Value, serde_json::Error>)
    ensures
        match r {
            Ok(value) => parsed_json(text@) == Some(value_json(value)),
            Err(_) => parsed_json(text@) is None,
        },
{
    serde_json::from_str::<serde_json::Value>(text)
}

/// An entry of a parsed object: its key, and a copy of its value.
pub struct ValueMember {
    pub key: String,
    pub value: serde_json::Value,
}

/// The entries of a parsed object as mathematical values.
pub open spec fn value_members_view(members: Seq<ValueMember>) -> Seq<MemberView> {
    members.map_values(|m: ValueMember| MemberView { key: m.key@, value: value_json(m.value) })
}

/// `serde_json::Value::as_str`: the text of a `Value::String`, nothing of
/// any other value.
#[verifier::external_body]
fn value_text(value: &serde_json::Value) -> (text: Option<String>)
    ensures
        match text {
            Some(t) => value_json(*value) == JsonView::Text(t@),
            None => !(value_json(*value) is Text),
        },
{
    value.as_str().map(|text| text.to_string())
}

/// `serde_json::Value::as_object` and, on the map it gives, `Map::iter`:
/// the entries of a `Value::Object` in the order in which the map hands
/// them out, each with a copy of its key and value; nothing of any other
/// value.
#[verifier::external_body]
fn value_members(value: &serde_json::Value) -> (members: Option<Vec<ValueMember>>)
    ensures
        match members {
            Some(m) => value_json(*value) == JsonView::Object(value_members_view(m@)),
            None => !(value_json(*value) is Object),
        },
{
    value.as_object().map(
        |map| map.iter().map(|(k, v)| ValueMember { key: k.clone(), value: v.clone() }).collect(),
    )
}

/// Copies a parsed document into a `Json`.
fn json_of(value: &serde_json::Value) -> (json: Json)
    ensures
        json@ == value_json(*value),
    decreases value_json(*value),
{
    match value_members(value) {
        Some(entries) => {
            let ghost views = value_members_view(entries@);
            let mut members: Vec<Member> = Vec::new();
            let mut i: usize = 0;
            while i < entries.len()
                invariant
                    i <= entries@.len(),
                    views == value_members_view(entries@),
                    value_json(*value) == JsonView::Object(views),
                    members@.len() == i,
                    forall|k: int| 0 <= k < i ==> (#[trigger] members@[k])@ == views[k],
                decreases entries@.len() - i,
            {
                let entry = &entries[i];
                assert(views[i as int] == MemberView {
                    key: entry.key@,
                    value: value_json(entry.value),
                });
                proof {
                    let whole = value_json(*value);
                    assert(whole == JsonView::Object(views));
                    assert(decreases_to!(whole => whole->Object_0));
                    assert(decreases_to!(views => views[i as int]));
                    assert(decreases_to!(views[i as int] => views[i as int].value));
                }
                let member = Member { key: entry.key.clone(), value: json_of(&entry.value) };
                members.push(member);
                i = i + 1;
            }
            let json = Json::Object(members);
            assert(json@->Object_0 =~= views);
            json
        },
        None => match value_text(value) {
            Some(text) => Json::Text(text),
            None => Json::Other,
        },
    }
}

/// The `Display` text of a `serde_json::Error`. Nothing is claimed of it.
#[verifier::external_body]
fn error_report(error: &serde_json::Error) -> String {
    error.to_string()
}

/// A translation document as it was read: the language it is for, and its
/// content.
pub struct TranslationFile {
    pub language: String,
    pub content: String,
}

/// Why the translations could not be loaded: the document of `language` is
/// no JSON; `report` is the parser's complaint.
pub struct LoadError {
    pub language: String,
    pub report: String,
}

/// The table that a document gives, or nothing where it is no JSON.
pub open spec fn document_table(content: Seq<char>) -> Option<Map<Seq<char>, Seq<char>>> {
    match parsed_json(content) {
        Some(json) => Some(flat(json, None, Map::empty())),
        None => None,
    }
}

/// Reads a document into a table of its texts, or hands back the parser's
/// error.
pub fn load_and_flatten_translation(content: &str) -> (result: Result<
    Translation,
    serde_json::Error,
>)
    ensures
        match result {
            Ok(table) => document_table(content@) == Some(table@),
            Err(_) => document_table(content@) is None,
        },
{
    match parse_value(content) {
        Ok(value) => {
            let json = json_of(&value);
            let mut translation = Translation::new();
            flatten_json(&json, None, &mut translation);
            Ok(translation)
        },
        Err(error) => Err(error),
    }
}

/// The messages of one language.
#[derive(Clone)]
pub struct Language {
    pub name: String,
    pub table: Translation,
}

/// What the first `n` languages say, a later one overriding an earlier one
/// of the same name.
pub open spec fn tables_of(languages: Seq<Language>, n: int) -> Map<
    Seq<char>,
    Map<Seq<char>, Seq<char>>,
>
    decreases n,
{
    if n <= 0 {
        Map::empty()
    } else {
        tables_of(languages, n - 1).insert(languages[n - 1].name@, languages[n - 1].table@)
    }
}

/// What the first `n` documents give, all of them being JSON: for each
/// language the table of its document, a later document overriding an
/// earlier one for the same language.
pub open spec fn loaded(files: Seq<TranslationFile>, n: int) -> Map<
    Seq<char>,
    Map<Seq<char>, Seq<char>>,
>
    decreases n,
{
    if n <= 0 {
        Map::empty()
    } else {
        loaded(files, n - 1).insert(
            files[n - 1].language@,
            document_table(files[n - 1].content@).unwrap(),
        )
    }
}

/// The first `n` documents are JSON.
pub open spec fn all_are_json(files: Seq<TranslationFile>, n: int) -> bool {
    forall|k: int| 0 <= k < n ==> parsed_json(#[trigger] files[k].content@) is Some
}

proof fn tables_of_push(languages: Seq<Language>, language: Language, n: int)
    requires
        0 <= n <= languages.len(),
    ensures
        tables_of(languages.push(language), n) == tables_of(languages, n),
    decreases n,
{
    if n > 0 {
        tables_of_push(languages, language, n - 1);
        assert(languages.push(language)[n - 1] == languages[n - 1]);
    }
}

/// Loads the documents in order. The first that is no JSON ends the load
/// with its language and the parser's report.
pub fn load_all_translations(files: &Vec<TranslationFile>) -> (result: Result<
    Vec<Language>,
    LoadError,
>)
    ensures
        match result {
            Ok(languages) => all_are_json(files@, files@.len() as int) && tables_of(
                languages@,
                languages@.len() as int,
            ) == loaded(files@, files@.len() as int),
            Err(error) => exists|k: int|
                0 <= k < files@.len() && all_are_json(files@, k) && parsed_json(
                    #[trigger] files@[k].content@,
                ) is None && error.language@ == files@[k].language@,
        },
{
    let mut all_translations: Vec<Language> = Vec::new();
    let mut i: usize = 0;
    while i < files.len()
        invariant
            i <= files@.len(),
            all_are_json(files@, i as int),
            tables_of(all_translations@, all_translations@.len() as int) == loaded(files@, i as int),
        decreases files@.len() - i,
    {
        let file = &files[i];
        match load_and_flatten_translation(file.content.as_str()) {
            Ok(table) => {
                let language = Language { name: file.language.clone(), table };
                proof {
                    tables_of_push(all_translations@, language, all_translations@.len() as int);
                }
                all_translations.push(language);
            },
            Err(error) => {
                return Err(
                    LoadError { language: file.language.clone(), report: error_report(&error) },
                );
            },
        }
        i = i + 1;
    }
    Ok(all_translations)
}

#[derive(Clone)]
pub struct I18n {
    translations: Vec<Language>,
}

impl View for I18n {
    type V = Map<Seq<char>, Map<Seq<char>, Seq<char>>>;

    closed spec fn view(&self) -> Map<Seq<char>, Map<Seq<char>, Seq<char>>> {
        tables_of(self.translations@, self.translations@.len() as int)
    }
}

/// What a message reads in a language: its translation where the language
/// has a table with the message in it, else the message itself.
pub open spec fn translated(
    tables: Map<Seq<char>, Map<Seq<char>, Seq<char>>>,
    language: Seq<char>,
    msg: Seq<char>,
) -> Seq<char> {
    if tables.contains_key(language) && tables[language].contains_key(msg) {
        tables[language][msg]
    } else {
        msg
    }
}

impl I18n {
    /// Loads the translations from the documents of a directory, one for
    /// each language.
    pub fn new(files: Vec<TranslationFile>) -> (result: Result<I18n, LoadError>)
        ensures
            match result {
                Ok(i18n) => all_are_json(files@, files@.len() as int) && i18n@ == loaded(
                    files@,
                    files@.len() as int,
                ),
                Err(error) => exists|k: int|
                    0 <= k < files@.len() && all_are_json(files@, k) && parsed_json(
                        #[trigger] files@[k].content@,
                    ) is None && error.language@ == files@[k].language@,
            },
    {
        match load_all_translations(&files) {
            Ok(translations) => Ok(I18n { translations }),
            Err(error) => Err(error),
        }
    }

    /// The table of a language, if one was loaded.
    fn table(&self, language: &str) -> (table: Option<&Translation>)
        ensures
            match table {
                Some(t) => self@.contains_key(language@) && self@[language@] == t@,
                None => !self@.contains_key(language@),
            },
    {
        let mut i: usize = self.translations.len();
        while i > 0
            invariant
                i <= self.translations@.len(),
                self@.contains_key(language@) == tables_of(
                    self.translations@,
                    i as int,
                ).contains_key(language@),
                self@.contains_key(language@) ==> self@[language@] == tables_of(
                    self.translations@,
                    i as int,
                )[language@],
            decreases i,
        {
            i = i - 1;
            if same_text(self.translations[i].name.as_str(), language) {
                return Some(&self.translations[i].table);
            }
        }
        None
    }

    /// Translates a message into the preferred language.
    pub fn translate(&self, preferred_language: &str, msg: &str) -> (text: String)
        ensures
            text@ == translated(self@, preferred_language@, msg@),
    {
        match self.table(preferred_language) {
            Some(table) => match table.get(msg) {
                Some(text) => text.clone(),
                None => String::from_str(msg),
            },
            None => String::from_str(msg),
        }
    }
}

/// The messages of one refused field, translated.
pub struct FieldMessages {
    pub field: String,
    pub messages: Vec<String>,
}

pub struct FieldMessagesView {
    pub field: Seq<char>,
    pub messages: Seq<Seq<char>>,
}

impl View for FieldMessages {
    type V = FieldMessagesView;

    open spec fn view(&self) -> FieldMessagesView {
        FieldMessagesView { field: self.field@, messages: self.messages@.map_values(|m: String| m@) }
    }
}

/// The fields of a list as mathematical values.
pub open spec fn message_views(fields: Seq<FieldMessages>) -> Seq<FieldMessagesView> {
    fields.map_values(|f: FieldMessages| f@)
}

/// The message that a refusal asks for: its own, or a general one where it
/// has none.
pub open spec fn message_key(error: ValidationErrorView) -> Seq<char> {
    match error.message {
        Some(message) => message,
        None => "parameter error"@,
    }
}

/// The messages of one field in a language: that of each refusal,
/// translated, in the order of the refusals.
pub open spec fn field_messages(
    tables: Map<Seq<char>, Map<Seq<char>, Seq<char>>>,
    language: Seq<char>,
    field: FieldErrorsView,
) -> FieldMessagesView {
    FieldMessagesView {
        field: field.field,
        messages: field.errors.map_values(
            |e: ValidationErrorView| translated(tables, language, message_key(e)),
        ),
    }
}

impl I18n {
    /// Translates the refusals of a form into the preferred language, field
    /// by field.
    pub fn translate_errors(&self, preferred_language: &str, errors: &ValidationErrors) -> (error_map:
        Vec<FieldMessages>)
        ensures
            message_views(error_map@) == errors@.map_values(
                |f: FieldErrorsView| field_messages(self@, preferred_language@, f),
            ),
    {
        let fields = errors.field_errors();
        let mut error_map: Vec<FieldMessages> = Vec::new();
        let mut i: usize = 0;
        while i < fields.len()
            invariant
                i <= fields@.len(),
                field_views(fields@) == errors@,
                error_map@.len() == i,
                forall|k: int|
                    0 <= k < i ==> (#[trigger] error_map@[k])@ == field_messages(
                        self@,
                        preferred_language@,
                        errors@[k],
                    ),
            decreases fields@.len() - i,
        {
            let field = &fields[i];
            assert(field_views(fields@)[i as int] == field@);
            let mut translated_messages: Vec<String> = Vec::new();
            let mut j: usize = 0;
            while j < field.errors.len()
                invariant
                    j <= field.errors@.len(),
                    translated_messages@.len() == j,
                    forall|k: int|
                        0 <= k < j ==> (#[trigger] translated_messages@[k])@ == translated(
                            self@,
                            preferred_language@,
                            message_key(field.errors@[k]@),
                        ),
                decreases field.errors@.len() - j,
            {
                let error = &field.errors[j];
                let text = match &error.message {
                    Some(message) => self.translate(preferred_language, message.as_str()),
                    None => self.translate(preferred_language, "parameter error"),
                };
                translated_messages.push(text);
                j = j + 1;
            }
            let entry = FieldMessages { field: field.field.clone(), messages: translated_messages };
            assert(entry@.messages =~= field_messages(
                self@,
                preferred_language@,
                errors@[i as int],
            ).messages);
            error_map.push(entry);
            i = i + 1;
        }
        assert(message_views(error_map@) =~= errors@.map_values(
            |f: FieldErrorsView| field_messages(self@, preferred_language@, f),
        ));
        error_map
    }
}

} // verus!
