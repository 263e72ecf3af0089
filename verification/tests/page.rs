use chrono::{DateTime, TimeZone, Utc};
use diary::draft::{TemporaryPage, TemporaryPageHeader};
use diary::page::{join_page_file, split_page_file, Page, PageError, PageHeader, Timestamp};
use serde::ser::{Serialize, SerializeStruct, Serializer};

struct HeaderRecord {
    title: String,
    insert_title: bool,
    author: String,
    created: DateTime<Utc>,
    updated: Vec<DateTime<Utc>>,
    memo: bool,
    prev: String,
    next: String,
}

impl Serialize for HeaderRecord {
    fn serialize<S: Serializer>(&self, serializer: S) -> Result<S::Ok, S::Error> {
        let fields = if self.author.is_empty() { 7 } else { 8 };
        let mut record = serializer.serialize_struct("PageHeader", fields)?;
        record.serialize_field("title", &self.title)?;
        record.serialize_field("insert_title", &self.insert_title)?;
        if !self.author.is_empty() {
            record.serialize_field("author", &self.author)?;
        }
        record.serialize_field("created", &self.created)?;
        record.serialize_field("updated", &self.updated)?;
        record.serialize_field("memo", &self.memo)?;
        record.serialize_field("prev", &self.prev)?;
        record.serialize_field("next", &self.next)?;
        record.end()
    }
}

fn stamp(time: DateTime<Utc>) -> Timestamp {
    Timestamp { secs: time.timestamp(), nanos: time.timestamp_subsec_nanos() }
}

fn time_of(stamp: &Timestamp) -> DateTime<Utc> {
    DateTime::from_timestamp(stamp.secs, stamp.nanos).unwrap()
}

fn encode(header: &PageHeader) -> Result<String, String> {
    let record = HeaderRecord {
        title: header.title.clone(),
        insert_title: header.insert_title,
        author: header.author.clone(),
        created: time_of(&header.created),
        updated: header.updated.iter().map(time_of).collect(),
        memo: header.memo,
        prev: header.prev.clone(),
        next: header.next.clone(),
    };
    toml::to_string(&record).map_err(|error| error.to_string())
}

fn text_field(table: &toml::Value, key: &str) -> Result<String, String> {
    match table.get(key).and_then(|value| value.as_str()) {
        Some(text) => Ok(text.to_string()),
        None => Err(format!("missing field `{}`", key)),
    }
}

fn flag_field(table: &toml::Value, key: &str) -> Result<bool, String> {
    match table.get(key).and_then(|value| value.as_bool()) {
        Some(flag) => Ok(flag),
        None => Err(format!("missing field `{}`", key)),
    }
}

fn time_field(text: &str) -> Result<Timestamp, String> {
    match text.parse::<DateTime<Utc>>() {
        Ok(time) => Ok(stamp(time)),
        Err(error) => Err(error.to_string()),
    }
}

fn decode(encoded: &str) -> Result<PageHeader, String> {
    let table = encoded.parse::<toml::Value>().map_err(|error| error.to_string())?;
    let mut updated = Vec::new();
    match table.get("updated").and_then(|value| value.as_array()) {
        Some(times) => {
            for time in times {
                match time.as_str() {
                    Some(text) => updated.push(time_field(text)?),
                    None => return Err("invalid type".to_string()),
                }
            }
        }
        None => return Err("missing field `updated`".to_string()),
    }
    Ok(PageHeader {
        title: text_field(&table, "title")?,
        insert_title: flag_field(&table, "insert_title")?,
        author: text_field(&table, "author").unwrap_or_default(),
        created: time_field(&text_field(&table, "created")?)?,
        updated,
        memo: flag_field(&table, "memo")?,
        prev: text_field(&table, "prev")?,
        next: text_field(&table, "next")?,
    })
}

fn example_page() -> Page {
    Page {
        id: "example".to_string(),
        header: PageHeader {
            title: "taitoru".to_string(),
            insert_title: true,
            author: String::new(),
            created: stamp(Utc.with_ymd_and_hms(2018, 8, 15, 17, 52, 11).unwrap()),
            updated: vec![stamp(Utc.with_ymd_and_hms(2018, 8, 15, 17, 52, 44).unwrap())],
            memo: true,
            prev: "NULL".to_string(),
            next: "NULL".to_string(),
        },
        text: "本文".to_string(),
    }
}

#[test]
fn page_to_str() {
    let page = example_page();

    let expected = r#"---
title = "taitoru"
insert_title = true
created = "2018-08-15T17:52:11Z"
updated = ["2018-08-15T17:52:44Z"]
memo = true
prev = "NULL"
next = "NULL"
---
本文"#;

    assert_eq!(page.to_str(encode).unwrap(), expected);
}

#[test]
fn page_from_str_reads_what_to_str_wrote() {
    let page = example_page();
    let file = page.to_str(encode).unwrap();
    assert_eq!(Page::from_str(&file, "example", decode), Ok(page));
}

#[test]
fn page_from_str_trims_the_text_and_ignores_what_stands_before_the_header() {
    let file = "ignored---\ntitle = \"t\"\ninsert_title = false\ncreated = \"2018-08-15T17:52:11Z\"\nupdated = []\nmemo = false\nprev = \"a\"\nnext = \"NULL\"\n---\n\n  two\nlines \n\n";
    let page = Page::from_str(file, "b", decode).unwrap();
    assert_eq!(page.id, "b");
    assert_eq!(page.text, "two\nlines");
    assert_eq!(page.header.title, "t");
    assert_eq!(page.header.prev, "a");
    assert_eq!(page.header.created, Timestamp { secs: 1534355531, nanos: 0 });
    assert!(page.header.updated.is_empty());
}

#[test]
fn page_from_str_cuts_the_header_at_the_second_separator() {
    let seen = std::cell::RefCell::new(Vec::new());
    let result = Page::from_str("a---b---c---d", "x", |encoded: &str| {
        seen.borrow_mut().push(encoded.to_string());
        Err("no".to_string())
    });
    assert_eq!(result, Err(PageError::DeserializeTomlError { error: "no".to_string() }));
    assert_eq!(*seen.borrow(), vec!["b".to_string()]);
    assert_eq!(split_page_file("a---b---c---d"), Ok(("b".to_string(), "c---d".to_string())));
}

#[test]
fn page_from_str_needs_two_separators() {
    let missing = PageError::ParseError("Header or text does not exists".to_string());
    assert_eq!(Page::from_str("", "x", decode), Err(missing.clone()));
    assert_eq!(Page::from_str("no separator", "x", decode), Err(missing.clone()));
    assert_eq!(Page::from_str("---\ntitle = 1\n", "x", decode), Err(missing.clone()));
    assert_eq!(Page::from_str("-----", "x", decode), Err(missing.clone()));
    assert_eq!(split_page_file("--- --"), Err(missing));
    assert_eq!(split_page_file("------"), Ok((String::new(), String::new())));
    assert_eq!(split_page_file("-------"), Ok((String::new(), "-".to_string())));
}

#[test]
fn page_from_str_reports_a_header_that_is_no_toml() {
    match Page::from_str("---\ntitle = \n---\ntext", "x", decode) {
        Err(PageError::DeserializeTomlError { error }) => assert!(!error.is_empty()),
        other => panic!("unexpected: {:?}", other),
    }
}

#[test]
fn page_to_str_reports_a_header_that_cannot_be_encoded() {
    let page = example_page();
    let result = page.to_str(|_header: &PageHeader| Err("too late".to_string()));
    assert_eq!(result, Err(PageError::SerializeTomlError { error: "too late".to_string() }));
}

#[test]
fn page_error_messages() {
    assert_eq!(
        PageError::ParseError("Header or text does not exists".to_string()).message(),
        "Failed to parse page: Header or text does not exists"
    );
    assert_eq!(
        PageError::DeserializeTomlError { error: "bad".to_string() }.message(),
        "Failed to deserialize toml: bad"
    );
    assert_eq!(
        PageError::SerializeTomlError { error: "worse".to_string() }.message(),
        "Failed to serialize toml: worse"
    );
}

#[test]
fn join_page_file_puts_the_separators_on_lines_of_their_own() {
    assert_eq!(join_page_file("a = 1\n", "text"), "---\na = 1\n---\ntext");
    assert_eq!(join_page_file("", ""), "---\n---\n");
    assert_eq!(
        split_page_file(&join_page_file("a = 1\n", " text \n")),
        Ok(("\na = 1\n".to_string(), "text".to_string()))
    );
}

#[test]
fn draft_from_page_and_apply() {
    let mut page = example_page();
    let draft = TemporaryPage::from_page(&page);
    assert_eq!(draft.header.title, "taitoru");
    assert!(draft.header.insert_title);
    assert!(draft.header.memo);
    assert_eq!(draft.header.author, "");
    assert_eq!(draft.text, "本文");
    assert_eq!(TemporaryPageHeader::from_pageheader(&page.header), draft.header);

    let edited = TemporaryPage {
        header: TemporaryPageHeader {
            title: "new title".to_string(),
            insert_title: false,
            author: "me".to_string(),
            memo: false,
        },
        text: "new text".to_string(),
    };
    let before = page.clone();
    edited.apply(&mut page);
    assert_eq!(page.header.title, "new title");
    assert!(!page.header.insert_title);
    assert_eq!(page.header.author, "me");
    assert!(!page.header.memo);
    assert_eq!(page.text, "new text");
    assert_eq!(page.id, before.id);
    assert_eq!(page.header.created, before.header.created);
    assert_eq!(page.header.updated, before.header.updated);
    assert_eq!(page.header.prev, before.header.prev);
    assert_eq!(page.header.next, before.header.next);
    assert_eq!(TemporaryPage::from_page(&page), edited);
}

#[test]
fn draft_to_str_and_from_str() {
    let draft = TemporaryPage {
        header: TemporaryPageHeader {
            title: "t".to_string(),
            insert_title: true,
            author: "a".to_string(),
            memo: false,
        },
        text: "body".to_string(),
    };
    let file = draft
        .to_str(|header: &TemporaryPageHeader| {
            Ok(format!("title = \"{}\"\nmemo = {}\n", header.title, header.memo))
        })
        .unwrap();
    assert_eq!(file, "---\ntitle = \"t\"\nmemo = false\n---\nbody");

    let read = TemporaryPage::from_str(&file, |encoded: &str| {
        assert_eq!(encoded, "\ntitle = \"t\"\nmemo = false\n");
        Ok(TemporaryPageHeader {
            title: "t".to_string(),
            insert_title: true,
            author: "a".to_string(),
            memo: false,
        })
    });
    assert_eq!(read, Ok(draft.clone()));

    assert_eq!(
        TemporaryPage::from_str("just text", |_encoded: &str| Err(String::new())),
        Err(PageError::ParseError("Header or text does not exists".to_string()))
    );
    assert_eq!(
        TemporaryPage::from_str(&file, |_encoded: &str| Err("bad".to_string())),
        Err(PageError::DeserializeTomlError { error: "bad".to_string() })
    );
    assert_eq!(
        draft.to_str(|_header: &TemporaryPageHeader| Err("bad".to_string())),
        Err(PageError::SerializeTomlError { error: "bad".to_string() })
    );
}
