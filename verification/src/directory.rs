//! The account directory: which recipient and which sender belong to an
//! account identifier.

use vstd::prelude::*;
use crate::json::{elements, elements_of, member, member_of, parse_document, parsed_document, text, text_of};

verus! {

/// One entry of the directory as it was written: any of the three fields may
/// be absent.
#[derive(Clone, Debug)]
pub struct AccountEntry {
    pub id: Option<String>,
    pub email: Option<String>,
    pub from_email: Option<String>,
}

/// A complete routing record: the result of a successful lookup.
#[derive(Clone, Debug)]
pub struct AccountRecord {
    pub id: String,
    pub recipient_email: String,
    pub sender_email: String,
}

/// The directory: its entries in the order in which they were written.
#[derive(Clone, Debug)]
pub struct AccountDirectory {
    pub entries: Vec<AccountEntry>,
}

/// Why a text is not a directory.
#[derive(Clone, Copy, Debug, PartialEq, Eq, Structural)]
pub enum DirectoryError {
    /// The text is not a JSON document.
    Malformed,
    /// The document has no member `accounts` that is an array.
    NoAccountsArray,
}

/// Why a lookup found no record.
#[derive(Clone, Copy, Debug, PartialEq, Eq, Structural)]
pub enum LookupError {
    /// No entry has the identifier.
    NoAccount,
    /// The first entry with the identifier has no recipient address.
    NoRecipient,
    /// The first entry with the identifier has no sender address.
    NoSender,
}

/// An entry as plain values.
pub struct EntryView {
    pub id: Option<Seq<char>>,
    pub email: Option<Seq<char>>,
    pub from_email: Option<Seq<char>>,
}

/// A record as plain values.
pub struct RecordView {
    pub id: Seq<char>,
    pub recipient_email: Seq<char>,
    pub sender_email: Seq<char>,
}

/// The characters of an optional string.
pub open spec fn text_view(field: Option<String>) -> Option<Seq<char>> {
    match field {
        Some(s) => Some(s@),
        None => None,
    }
}

impl View for AccountEntry {
    type V = EntryView;

    open spec fn view(&self) -> EntryView {
        EntryView {
            id: text_view(self.id),
            email: text_view(self.email),
            from_email: text_view(self.from_email),
        }
    }
}

impl View for AccountRecord {
    type V = RecordView;

    open spec fn view(&self) -> RecordView {
        RecordView {
            id: self.id@,
            recipient_email: self.recipient_email@,
            sender_email: self.sender_email@,
        }
    }
}

impl View for AccountDirectory {
    type V = Seq<EntryView>;

    open spec fn view(&self) -> Seq<EntryView> {
        self.entries@.map_values(|e: AccountEntry| e@)
    }
}

/// The string under a key of an object: `None` where the key is absent or
/// holds something other than a string.
pub open spec fn field_text(value: serde_json::Value, key: Seq<char>) -> Option<Seq<char>> {
    match member_of(value, key) {
        Some(found) => text_of(found),
        None => None,
    }
}

/// The entry that one element of the `accounts` array stands for.
pub open spec fn entry_of(value: serde_json::Value) -> EntryView {
    EntryView {
        id: field_text(value, "id"@),
        email: field_text(value, "email"@),
        from_email: field_text(value, "from_email"@),
    }
}

/// The directory that a document holds: one entry for each element of its
/// `accounts` array, in order.
pub open spec fn directory_of(document: serde_json::Value) -> Result<
    Seq<EntryView>,
    DirectoryError,
> {
    match member_of(document, "accounts"@) {
        None => Err(DirectoryError::NoAccountsArray),
        Some(accounts) => match elements_of(accounts) {
            None => Err(DirectoryError::NoAccountsArray),
            Some(items) => Ok(items.map_values(|v: serde_json::Value| entry_of(v))),
        },
    }
}

/// The directory that a text holds.
pub open spec fn directory_of_text(text: Seq<char>) -> Result<Seq<EntryView>, DirectoryError> {
    match parsed_document(text) {
        None => Err(DirectoryError::Malformed),
        Some(document) => directory_of(document),
    }
}

/// The entry carries the identifier.
pub open spec fn names(entry: EntryView, id: Seq<char>) -> bool {
    entry.id == Some(id)
}

/// `at` is the position of the first entry that carries the identifier.
pub open spec fn is_first_named(entries: Seq<EntryView>, id: Seq<char>, at: int) -> bool {
    &&& 0 <= at < entries.len()
    &&& names(entries[at], id)
    &&& forall|j: int| 0 <= j < at ==> !names(#[trigger] entries[j], id)
}

/// No entry carries the identifier.
pub open spec fn none_named(entries: Seq<EntryView>, id: Seq<char>) -> bool {
    forall|j: int| 0 <= j < entries.len() ==> !names(#[trigger] entries[j], id)
}

/// What an entry that carries the identifier yields: its record where both
/// addresses are there, else the first address that is missing.
pub open spec fn resolve(entry: EntryView, id: Seq<char>) -> Result<RecordView, LookupError> {
    match (entry.email, entry.from_email) {
        (None, _) => Err(LookupError::NoRecipient),
        (Some(_), None) => Err(LookupError::NoSender),
        (Some(to), Some(from)) => Ok(
            RecordView { id: id, recipient_email: to, sender_email: from },
        ),
    }
}

/// The position of the first entry that carries the identifier, `None` where
/// no entry does.
pub open spec fn first_named(entries: Seq<EntryView>, id: Seq<char>) -> Option<int>
    decreases entries.len(),
{
    if entries.len() == 0 {
        None
    } else {
        match first_named(entries.drop_last(), id) {
            Some(at) => Some(at),
            None => if names(entries.last(), id) {
                Some(entries.len() - 1)
            } else {
                None
            },
        }
    }
}

/// What a lookup of the identifier yields.
pub open spec fn lookup_spec(entries: Seq<EntryView>, id: Seq<char>) -> Result<
    RecordView,
    LookupError,
> {
    match first_named(entries, id) {
        None => Err(LookupError::NoAccount),
        Some(at) => resolve(entries[at], id),
    }
}

/// `first_named` gives the position of the first entry that carries the
/// identifier, and `None` exactly where no entry carries it.
pub proof fn first_named_is_first(entries: Seq<EntryView>, id: Seq<char>)
    ensures
        match first_named(entries, id) {
            Some(at) => is_first_named(entries, id, at),
            None => none_named(entries, id),
        },
    decreases entries.len(),
{
    if entries.len() > 0 {
        let front = entries.drop_last();
        first_named_is_first(front, id);
        assert forall|j: int| 0 <= j < front.len() implies front[j] == entries[j] by {}
        match first_named(front, id) {
            Some(at) => {
                assert(entries[at] == front[at]);
                assert forall|j: int| 0 <= j < at implies !names(#[trigger] entries[j], id) by {
                    assert(front[j] == entries[j]);
                }
            },
            None => {
                assert forall|j: int| 0 <= j < entries.len() - 1 implies !names(
                    #[trigger] entries[j],
                    id,
                ) by {
                    assert(front[j] == entries[j]);
                }
            },
        }
    }
}

/// The first entry that carries the identifier decides the lookup, whatever
/// follows it.
pub proof fn lookup_goes_by_first(entries: Seq<EntryView>, id: Seq<char>, at: int)
    requires
        is_first_named(entries, id, at),
    ensures
        first_named(entries, id) == Some(at),
        lookup_spec(entries, id) == resolve(entries[at], id),
{
    first_named_is_first(entries, id);
    match first_named(entries, id) {
        Some(other) => {
            if other < at {
                assert(!names(entries[other], id));
            } else if at < other {
                assert(!names(entries[at], id));
            }
        },
        None => {
            assert(!names(entries[at], id));
        },
    }
}

/// No two entries carry the same identifier.
pub open spec fn ids_are_unique(entries: Seq<EntryView>) -> bool {
    forall|i: int, j: int|
        #![trigger entries[i], entries[j]]
        0 <= i < j < entries.len() && entries[i].id.is_some() ==> entries[i].id != entries[j].id
}

/// In a directory whose identifiers are unique, any entry that carries the
/// identifier decides the lookup.
pub proof fn unique_entry_decides(entries: Seq<EntryView>, id: Seq<char>, at: int)
    requires
        ids_are_unique(entries),
        0 <= at < entries.len(),
        names(entries[at], id),
    ensures
        lookup_spec(entries, id) == resolve(entries[at], id),
{
    assert forall|j: int| 0 <= j < at implies !names(#[trigger] entries[j], id) by {
        if names(entries[j], id) {
            assert(entries[j].id == entries[at].id);
        }
    }
    lookup_goes_by_first(entries, id, at);
}

/// A lookup fails for want of an account exactly where no entry carries the
/// identifier.
pub proof fn lookup_misses_absent(entries: Seq<EntryView>, id: Seq<char>)
    ensures
        none_named(entries, id) <==> lookup_spec(entries, id) == Err::<RecordView, LookupError>(
            LookupError::NoAccount,
        ),
{
    first_named_is_first(entries, id);
    match first_named(entries, id) {
        Some(at) => {
            assert(names(entries[at], id));
        },
        None => {},
    }
}

/// A lookup's result over views.
pub open spec fn lookup_view(r: Result<AccountRecord, LookupError>) -> Result<
    RecordView,
    LookupError,
> {
    match r {
        Ok(record) => Ok(record@),
        Err(e) => Err(e),
    }
}

/// A loaded directory over views.
pub open spec fn loaded_view(r: Result<AccountDirectory, DirectoryError>) -> Result<
    Seq<EntryView>,
    DirectoryError,
> {
    match r {
        Ok(directory) => Ok(directory@),
        Err(e) => Err(e),
    }
}

fn text_member(value: &serde_json::Value, key: &str) -> (r: Option<String>)
    ensures
        text_view(r) == field_text(*value, key@),
{
    match member(value, key) {
        Some(found) => match text(found) {
            Some(characters) => Some(characters.to_owned()),
            None => None,
        },
        None => None,
    }
}

impl AccountEntry {
    /// Reads one element of the `accounts` array.
    pub fn from_value(value: &serde_json::Value) -> (r: AccountEntry)
        ensures
            r@ == entry_of(*value),
    {
        AccountEntry {
            id: text_member(value, "id"),
            email: text_member(value, "email"),
            from_email: text_member(value, "from_email"),
        }
    }
}

impl AccountDirectory {
    /// The directory without entries.
    pub fn empty() -> (r: AccountDirectory)
        ensures
            r@ == Seq::<EntryView>::empty(),
    {
        let r = AccountDirectory { entries: Vec::new() };
        assert(r@ =~= Seq::<EntryView>::empty());
        r
    }

    /// The directory of the given entries, in their order.
    pub fn from_entries(entries: Vec<AccountEntry>) -> (r: AccountDirectory)
        ensures
            r.entries == entries,
    {
        AccountDirectory { entries }
    }

    /// Reads the directory from a parsed document.
    pub fn from_document(document: &serde_json::Value) -> (r: Result<
        AccountDirectory,
        DirectoryError,
    >)
        ensures
            loaded_view(r) == directory_of(*document),
    {
        let accounts = match member(document, "accounts") {
            Some(found) => found,
            None => { return Err(DirectoryError::NoAccountsArray); },
        };
        let items = match elements(accounts) {
            Some(found) => found,
            None => { return Err(DirectoryError::NoAccountsArray); },
        };
        let mut entries: Vec<AccountEntry> = Vec::new();
        let mut i: usize = 0;
        while i < items.len()
            invariant
                i <= items.len(),
                entries.len() == i,
                forall|k: int| 0 <= k < i ==> (#[trigger] entries[k])@ == entry_of(items[k]),
            decreases items.len() - i,
        {
            entries.push(AccountEntry::from_value(&items[i]));
            i += 1;
        }
        let directory = AccountDirectory { entries };
        assert(directory@ =~= items@.map_values(|v: serde_json::Value| entry_of(v)));
        Ok(directory)
    }

    /// Reads the directory from the text of a JSON document.
    pub fn from_json(text: &str) -> (r: Result<AccountDirectory, DirectoryError>)
        ensures
            loaded_view(r) == directory_of_text(text@),
    {
        match parse_document(text) {
            Ok(document) => AccountDirectory::from_document(&document),
            Err(_) => Err(DirectoryError::Malformed),
        }
    }

    /// The number of entries.
    pub fn len(&self) -> (n: usize)
        ensures
            n == self@.len(),
    {
        self.entries.len()
    }

    /// Finds the record of an account: the first entry that carries the
    /// identifier decides.
    pub fn lookup(&self, id: &str) -> (r: Result<AccountRecord, LookupError>)
        ensures
            lookup_view(r) == lookup_spec(self@, id@),
    {
        let key = id.to_owned();
        let mut i: usize = 0;
        while i < self.entries.len()
            invariant
                i <= self.entries.len(),
                key@ == id@,
                forall|j: int| 0 <= j < i ==> !names(#[trigger] self@[j], id@),
            decreases self.entries.len() - i,
        {
            let entry = &self.entries[i];
            let found = match &entry.id {
                Some(name) => *name == key,
                None => false,
            };
            if found {
                assert(names(self@[i as int], id@));
                assert(is_first_named(self@, id@, i as int));
                let r = match (&entry.email, &entry.from_email) {
                    (None, _) => Err(LookupError::NoRecipient),
                    (Some(_), None) => Err(LookupError::NoSender),
                    (Some(to), Some(from)) => Ok(
                        AccountRecord {
                            id: key,
                            recipient_email: to.clone(),
                            sender_email: from.clone(),
                        },
                    ),
                };
                assert(lookup_view(r) == resolve(self@[i as int], id@));
                proof {
                    lookup_goes_by_first(self@, id@, i as int);
                }
                return r;
            }
            i += 1;
        }
        proof {
            assert(none_named(self@, id@));
            lookup_misses_absent(self@, id@);
        }
        Err(LookupError::NoAccount)
    }
}

impl LookupError {
    /// The error in words, for the identifier that was looked up.
    pub fn describe(&self, id: &str) -> (r: String)
        ensures
            r@ == match *self {
                LookupError::NoAccount => "No account found for ID: "@ + id@,
                LookupError::NoRecipient => "No recipient email found for ID: "@ + id@,
                LookupError::NoSender => "No sender email found for ID: "@ + id@,
            },
    {
        let head = match self {
            LookupError::NoAccount => "No account found for ID: ",
            LookupError::NoRecipient => "No recipient email found for ID: ",
            LookupError::NoSender => "No sender email found for ID: ",
        };
        head.to_owned().concat(id)
    }
}

impl DirectoryError {
    /// The error in words.
    pub fn describe(&self) -> (r: String)
        ensures
            r@ == match *self {
                DirectoryError::Malformed => "The account directory is not a JSON document"@,
                DirectoryError::NoAccountsArray => "No 'accounts' array found in JSON"@,
            },
    {
        match self {
            DirectoryError::Malformed => "The account directory is not a JSON document".to_owned(),
            DirectoryError::NoAccountsArray => "No 'accounts' array found in JSON".to_owned(),
        }
    }
}

} // verus!
