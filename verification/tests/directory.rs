use form_relay::directory::{AccountDirectory, AccountEntry, DirectoryError, LookupError};

const SAMPLE: &str = r#"{
  "accounts": [
    {"id": "acct1", "email": "dest@example.com", "from_email": "noreply@example.com"},
    {"id": "acct2", "email": "second@example.com", "from_email": "robot@example.com"},
    {"id": "no_recipient", "from_email": "robot@example.com"},
    {"id": "no_sender", "email": "third@example.com"},
    {"id": "bare"},
    {"id": 7, "email": "number@example.com", "from_email": "robot@example.com"},
    {"email": "nameless@example.com", "from_email": "robot@example.com"},
    {"id": "acct1", "email": "shadowed@example.com", "from_email": "shadow@example.com"},
    {"id": "odd", "email": 5, "from_email": ["x"]}
  ]
}"#;

fn sample() -> AccountDirectory {
    AccountDirectory::from_json(SAMPLE).expect("the sample is a directory")
}

#[test]
fn from_json_keeps_every_element_in_order() {
    let directory = sample();
    assert_eq!(directory.len(), 9);
    assert_eq!(directory.entries[0].id.as_deref(), Some("acct1"));
    assert_eq!(directory.entries[0].email.as_deref(), Some("dest@example.com"));
    assert_eq!(directory.entries[0].from_email.as_deref(), Some("noreply@example.com"));
    assert_eq!(directory.entries[1].id.as_deref(), Some("acct2"));
    assert_eq!(directory.entries[2].email, None);
    assert_eq!(directory.entries[3].from_email, None);
    assert_eq!(directory.entries[5].id, None);
    assert_eq!(directory.entries[5].email.as_deref(), Some("number@example.com"));
    assert_eq!(directory.entries[6].id, None);
    assert_eq!(directory.entries[8].email, None);
    assert_eq!(directory.entries[8].from_email, None);
}

#[test]
fn from_json_rejects_text_that_is_not_json() {
    assert_eq!(AccountDirectory::from_json("").err(), Some(DirectoryError::Malformed));
    assert_eq!(AccountDirectory::from_json("{\"accounts\": [").err(), Some(DirectoryError::Malformed));
    assert_eq!(AccountDirectory::from_json("accounts").err(), Some(DirectoryError::Malformed));
    assert_eq!(AccountDirectory::from_json("{} trailing").err(), Some(DirectoryError::Malformed));
}

#[test]
fn from_json_asks_for_an_accounts_array() {
    assert_eq!(AccountDirectory::from_json("{}").err(), Some(DirectoryError::NoAccountsArray));
    assert_eq!(AccountDirectory::from_json("[]").err(), Some(DirectoryError::NoAccountsArray));
    assert_eq!(AccountDirectory::from_json("null").err(), Some(DirectoryError::NoAccountsArray));
    assert_eq!(
        AccountDirectory::from_json("{\"accounts\": {\"id\": \"a\"}}").err(),
        Some(DirectoryError::NoAccountsArray)
    );
    assert_eq!(
        AccountDirectory::from_json("{\"Accounts\": []}").err(),
        Some(DirectoryError::NoAccountsArray)
    );
}

#[test]
fn from_json_takes_an_empty_array() {
    let directory = AccountDirectory::from_json("{\"accounts\": []}").unwrap();
    assert_eq!(directory.len(), 0);
    assert_eq!(directory.lookup("acct1").err(), Some(LookupError::NoAccount));
}

#[test]
fn from_json_takes_elements_that_are_no_objects() {
    let directory = AccountDirectory::from_json("{\"accounts\": [1, \"acct1\", null, [\"id\"]]}").unwrap();
    assert_eq!(directory.len(), 4);
    for entry in directory.entries.iter() {
        assert_eq!(entry.id, None);
        assert_eq!(entry.email, None);
        assert_eq!(entry.from_email, None);
    }
    assert_eq!(directory.lookup("acct1").err(), Some(LookupError::NoAccount));
}

#[test]
fn from_document_agrees_with_from_json() {
    let document: serde_json::Value = serde_json::from_str(SAMPLE).unwrap();
    let directory = AccountDirectory::from_document(&document).unwrap();
    let other = sample();
    assert_eq!(directory.len(), other.len());
    for (a, b) in directory.entries.iter().zip(other.entries.iter()) {
        assert_eq!(a.id, b.id);
        assert_eq!(a.email, b.email);
        assert_eq!(a.from_email, b.from_email);
    }
}

#[test]
fn from_document_reads_a_built_value() {
    let mut entry = serde_json::Map::new();
    entry.insert("id".to_string(), serde_json::Value::String("built".to_string()));
    entry.insert("email".to_string(), serde_json::Value::String("to@example.com".to_string()));
    entry.insert("from_email".to_string(), serde_json::Value::Bool(true));
    let mut root = serde_json::Map::new();
    root.insert(
        "accounts".to_string(),
        serde_json::Value::Array(vec![serde_json::Value::Object(entry)]),
    );
    let directory = AccountDirectory::from_document(&serde_json::Value::Object(root)).unwrap();
    assert_eq!(directory.len(), 1);
    assert_eq!(directory.entries[0].id.as_deref(), Some("built"));
    assert_eq!(directory.entries[0].email.as_deref(), Some("to@example.com"));
    assert_eq!(directory.entries[0].from_email, None);
    assert_eq!(directory.lookup("built").err(), Some(LookupError::NoSender));
}

#[test]
fn from_document_refuses_a_value_without_accounts() {
    let document = serde_json::Value::String("accounts".to_string());
    assert_eq!(
        AccountDirectory::from_document(&document).err(),
        Some(DirectoryError::NoAccountsArray)
    );
}

#[test]
fn entry_from_value_reads_the_three_strings() {
    let value: serde_json::Value =
        serde_json::from_str("{\"id\": \"a\", \"email\": \"b\", \"from_email\": \"c\", \"more\": 1}").unwrap();
    let entry = AccountEntry::from_value(&value);
    assert_eq!(entry.id.as_deref(), Some("a"));
    assert_eq!(entry.email.as_deref(), Some("b"));
    assert_eq!(entry.from_email.as_deref(), Some("c"));
}

#[test]
fn lookup_finds_a_complete_record() {
    let record = sample().lookup("acct2").unwrap();
    assert_eq!(record.id, "acct2");
    assert_eq!(record.recipient_email, "second@example.com");
    assert_eq!(record.sender_email, "robot@example.com");
}

#[test]
fn lookup_goes_by_the_first_entry_of_an_identifier() {
    let record = sample().lookup("acct1").unwrap();
    assert_eq!(record.recipient_email, "dest@example.com");
    assert_eq!(record.sender_email, "noreply@example.com");
}

#[test]
fn lookup_does_not_pass_over_an_incomplete_first_entry() {
    let text = r#"{"accounts": [
        {"id": "a", "from_email": "f@example.com"},
        {"id": "a", "email": "e@example.com", "from_email": "f@example.com"}
    ]}"#;
    let directory = AccountDirectory::from_json(text).unwrap();
    assert_eq!(directory.lookup("a").err(), Some(LookupError::NoRecipient));
}

#[test]
fn lookup_misses_an_absent_identifier() {
    let directory = sample();
    assert_eq!(directory.lookup("acct3").err(), Some(LookupError::NoAccount));
    assert_eq!(directory.lookup("").err(), Some(LookupError::NoAccount));
    assert_eq!(directory.lookup("7").err(), Some(LookupError::NoAccount));
}

#[test]
fn lookup_is_exact_and_case_sensitive() {
    let directory = sample();
    assert_eq!(directory.lookup("ACCT1").err(), Some(LookupError::NoAccount));
    assert_eq!(directory.lookup("acct1 ").err(), Some(LookupError::NoAccount));
    assert_eq!(directory.lookup("acct").err(), Some(LookupError::NoAccount));
}

#[test]
fn lookup_names_the_missing_address() {
    let directory = sample();
    assert_eq!(directory.lookup("no_recipient").err(), Some(LookupError::NoRecipient));
    assert_eq!(directory.lookup("no_sender").err(), Some(LookupError::NoSender));
    assert_eq!(directory.lookup("bare").err(), Some(LookupError::NoRecipient));
    assert_eq!(directory.lookup("odd").err(), Some(LookupError::NoRecipient));
}

#[test]
fn empty_directory_has_no_account() {
    let directory = AccountDirectory::empty();
    assert_eq!(directory.len(), 0);
    assert_eq!(directory.lookup("acct1").err(), Some(LookupError::NoAccount));
}

#[test]
fn from_entries_keeps_the_entries() {
    let directory = AccountDirectory::from_entries(vec![AccountEntry {
        id: Some("x".to_string()),
        email: Some("to@example.com".to_string()),
        from_email: Some("from@example.com".to_string()),
    }]);
    assert_eq!(directory.len(), 1);
    let record = directory.lookup("x").unwrap();
    assert_eq!(record.id, "x");
    assert_eq!(record.recipient_email, "to@example.com");
    assert_eq!(record.sender_email, "from@example.com");
}

#[test]
fn errors_are_described_in_words() {
    assert_eq!(LookupError::NoAccount.describe("acct9"), "No account found for ID: acct9");
    assert_eq!(LookupError::NoRecipient.describe("acct9"), "No recipient email found for ID: acct9");
    assert_eq!(LookupError::NoSender.describe("acct9"), "No sender email found for ID: acct9");
    assert_eq!(DirectoryError::NoAccountsArray.describe(), "No 'accounts' array found in JSON");
    assert_eq!(DirectoryError::Malformed.describe(), "The account directory is not a JSON document");
}
