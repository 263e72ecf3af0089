//! Pages and the layout of a page file.
//!
//! A page file holds a header and a text, each introduced by a separator of three hyphens:
//! whatever stands before the first separator is ignored, the header runs from there to the
//! second separator, and the text is the rest, without the white space around it. The header is
//! TOML; turning it into a `PageHeader` and back is left to the caller, who hands in a codec.

use crate::text::{
    chars_of, contains, find, first_at, is_whitespace, occurs_at, trim, trimmed, trimmed_start,
};
use vstd::prelude::*;

verus! {

/// The id that stands for "no page" in the links of a page and in the head pointer.
pub const NULL_ID: &'static str = "NULL";

/// A point in time: seconds since the Unix epoch, and the nanoseconds past that second.
#[derive(Clone, Copy, Debug, PartialEq, Eq, Structural)]
pub struct Timestamp {
    pub secs: i64,
    pub nanos: u32,
}

/// What can go wrong when a page file is read or written.
#[derive(Clone, Debug, PartialEq, Eq)]
pub enum PageError {
    /// The file does not have the layout of a page.
    ParseError(String),
    /// The header could not be decoded; `error` is the decoder's message.
    DeserializeTomlError { error: String },
    /// The header could not be encoded; `error` is the encoder's message.
    SerializeTomlError { error: String },
}

/// The metadata of a page.
#[derive(Clone, Debug, PartialEq, Eq)]
pub struct PageHeader {
    pub title: String,
    pub insert_title: bool,
    pub author: String,
    pub created: Timestamp,
    pub updated: Vec<Timestamp>,
    pub memo: bool,
    /// The id of the page created before this one, or `NULL`.
    pub prev: String,
    /// The id of the page created after this one, or `NULL`.
    pub next: String,
}

/// One entry of the diary.
#[derive(Clone, Debug, PartialEq, Eq)]
pub struct Page {
    pub id: String,
    pub header: PageHeader,
    pub text: String,
}

/// A `PageError` as a mathematical value.
pub enum PageErrorView {
    ParseError(Seq<char>),
    DeserializeTomlError { error: Seq<char> },
    SerializeTomlError { error: Seq<char> },
}

/// A `PageHeader` as a mathematical value.
pub struct HeaderView {
    pub title: Seq<char>,
    pub insert_title: bool,
    pub author: Seq<char>,
    pub created: Timestamp,
    pub updated: Seq<Timestamp>,
    pub memo: bool,
    pub prev: Seq<char>,
    pub next: Seq<char>,
}

/// A `Page` as a mathematical value.
pub struct PageView {
    pub id: Seq<char>,
    pub header: HeaderView,
    pub text: Seq<char>,
}

impl View for PageError {
    type V = PageErrorView;

    open spec fn view(&self) -> PageErrorView {
        match self {
            PageError::ParseError(message) => PageErrorView::ParseError(message@),
            PageError::DeserializeTomlError { error } => PageErrorView::DeserializeTomlError {
                error: error@,
            },
            PageError::SerializeTomlError { error } => PageErrorView::SerializeTomlError {
                error: error@,
            },
        }
    }
}

impl View for PageHeader {
    type V = HeaderView;

    open spec fn view(&self) -> HeaderView {
        HeaderView {
            title: self.title@,
            insert_title: self.insert_title,
            author: self.author@,
            created: self.created,
            updated: self.updated@,
            memo: self.memo,
            prev: self.prev@,
            next: self.next@,
        }
    }
}

impl View for Page {
    type V = PageView;

    open spec fn view(&self) -> PageView {
        PageView { id: self.id@, header: self.header@, text: self.text@ }
    }
}

/// The separator of a page file.
pub open spec fn separator() -> Seq<char> {
    seq!['-', '-', '-']
}

/// Whether the first two separators of `s` stand at `first` and `second`.
pub open spec fn framed(s: Seq<char>, first: int, second: int) -> bool {
    &&& first_at(s, separator(), 0, first)
    &&& first_at(s, separator(), first + 3, second)
}

/// Whether `s` has the layout of a page file: it holds two separators that do not overlap.
pub open spec fn has_layout(s: Seq<char>) -> bool {
    exists|first: int, second: int| framed(s, first, second)
}

/// The header of a page file whose first two separators stand at `first` and `second`.
pub open spec fn header_part(s: Seq<char>, first: int, second: int) -> Seq<char> {
    s.subrange(first + 3, second)
}

/// The text of a page file whose second separator stands at `second`.
pub open spec fn text_part(s: Seq<char>, second: int) -> Seq<char> {
    trimmed(s.subrange(second + 3, s.len() as int))
}

/// The page file that holds the encoded header `header` and the text `text`.
pub open spec fn page_file(header: Seq<char>, text: Seq<char>) -> Seq<char> {
    "---\n"@ + header + "---\n"@ + text
}

/// The message of the error for a file without the layout of a page.
pub open spec fn missing_parts() -> Seq<char> {
    "Header or text does not exists"@
}

/// Where the first two separators of a page file stand: there is one answer at most.
pub proof fn framed_once(s: Seq<char>, first: int, second: int, other_first: int, other_second: int)
    requires
        framed(s, first, second),
        framed(s, other_first, other_second),
    ensures
        first == other_first,
        second == other_second,
{
    if first < other_first {
        assert(!occurs_at(s, separator(), first));
    }
    if other_first < first {
        assert(!occurs_at(s, separator(), other_first));
    }
    if second < other_second {
        assert(!occurs_at(s, separator(), second));
    }
    if other_second < second {
        assert(!occurs_at(s, separator(), other_second));
    }
}

/// A page file that is laid out from an encoded header and a text is split at the two
/// separators that were put in, where the header holds no separator and does not end in a
/// hyphen: the header comes back behind a line break, and the text without the white space
/// around it.
pub proof fn page_file_splits(header: Seq<char>, text: Seq<char>)
    requires
        !contains(header, separator()),
        header.len() > 0 ==> header.last() != '-',
    ensures
        framed(page_file(header, text), 0, 4 + header.len() as int),
        header_part(page_file(header, text), 0, 4 + header.len() as int) == seq!['\n'] + header,
        text_part(page_file(header, text), 4 + header.len() as int) == trimmed(text),
{
    reveal_strlit("---\n");
    let file = page_file(header, text);
    let mark = separator();
    let second = 4 + header.len() as int;
    assert(file.len() == 8 + header.len() + text.len());
    assert(file.subrange(0, 3) =~= mark);
    assert(file.subrange(second, second + 3) =~= mark);
    assert forall|j: int| 3 <= j < second implies !occurs_at(file, mark, j) by {
        if occurs_at(file, mark, j) {
            let window = file.subrange(j, j + 3);
            assert(window[0] == '-' && window[1] == '-' && window[2] == '-');
            if j == 3 {
                assert(window[0] == file[3]);
            } else if j + 3 <= second {
                assert(header.subrange(j - 4, j - 1) =~= mark);
                assert(occurs_at(header, mark, j - 4));
            } else {
                assert(window[0] == file[j]);
                assert(window[1] == file[j + 1]);
                assert(file[second - 1] == header.last());
            }
        }
    }
    assert(header_part(file, 0, second) =~= seq!['\n'] + header);
    let rest = file.subrange(second + 3, file.len() as int);
    assert(rest =~= seq!['\n'] + text);
    assert(rest.drop_first() =~= text);
    assert(is_whitespace(rest[0]));
    assert(trimmed_start(rest) == trimmed_start(text));
}

/// Splits a page file into its header, still encoded, and its text.
pub fn split_page_file(s: &str) -> (parts: Result<(String, String), PageError>)
    ensures
        match parts {
            Ok((header, text)) => exists|first: int, second: int|
                {
                    &&& framed(s@, first, second)
                    &&& header@ == header_part(s@, first, second)
                    &&& text@ == text_part(s@, second)
                },
            Err(error) => !has_layout(s@) && error@ == PageErrorView::ParseError(missing_parts()),
        },
{
    let chars = chars_of(s);
    let mut mark: Vec<char> = Vec::new();
    mark.push('-');
    mark.push('-');
    mark.push('-');
    assert(mark@ =~= separator());
    assert(separator().len() == 3);
    let first = match find(&chars, &mark, 0) {
        Some(first) => first,
        None => {
            return Err(PageError::ParseError(String::from_str("Header or text does not exists")));
        },
    };
    assert(first + 3 <= chars.len());
    let second = match find(&chars, &mark, first + 3) {
        Some(second) => second,
        None => {
            proof {
                assert forall|a: int, b: int| !framed(s@, a, b) by {
                    if framed(s@, a, b) {
                        if a < first {
                            assert(!occurs_at(s@, separator(), a));
                        }
                        if first < a {
                            assert(!occurs_at(s@, separator(), first as int));
                        }
                        assert(!occurs_at(s@, separator(), b));
                    }
                }
            }
            return Err(PageError::ParseError(String::from_str("Header or text does not exists")));
        },
    };
    assert(second + 3 <= chars.len());
    let header = s.substring_char(first + 3, second).to_owned();
    let rest = s.substring_char(second + 3, chars.len());
    let text = trim(rest);
    assert(framed(s@, first as int, second as int));
    Ok((header, text))
}

/// Lays out a page file from an encoded header and a text.
pub fn join_page_file(header: &str, text: &str) -> (file: String)
    ensures
        file@ == page_file(header@, text@),
{
    let mut file = String::from_str("---\n");
    file.append(header);
    file.append("---\n");
    file.append(text);
    file
}

impl PageError {
    /// The error as a line for the user.
    pub fn message(&self) -> (line: String)
        ensures
            line@ == match self@ {
                PageErrorView::ParseError(message) => "Failed to parse page: "@ + message,
                PageErrorView::DeserializeTomlError { error } => "Failed to deserialize toml: "@
                    + error,
                PageErrorView::SerializeTomlError { error } => "Failed to serialize toml: "@
                    + error,
            },
    {
        match self {
            PageError::ParseError(message) => {
                let mut line = String::from_str("Failed to parse page: ");
                line.append(message.as_str());
                line
            },
            PageError::DeserializeTomlError { error } => {
                let mut line = String::from_str("Failed to deserialize toml: ");
                line.append(error.as_str());
                line
            },
            PageError::SerializeTomlError { error } => {
                let mut line = String::from_str("Failed to serialize toml: ");
                line.append(error.as_str());
                line
            },
        }
    }
}

impl Page {
    /// Reads a page from the contents of its file. `decode` turns the encoded header into a
    /// `PageHeader`, or into the message of its failure.
    ///
    /// A file without the layout of a page is a `ParseError`, and `decode` is not called. Else
    /// `decode` is called once, on the header part: its failure is a `DeserializeTomlError`, and
    /// with its header the page is made, under the id `id` and with the text part as its text.
    pub fn from_str<F: Fn(&str) -> Result<PageHeader, String>>(s: &str, id: &str, decode: F) -> (page:
        Result<Page, PageError>)
        requires
            forall|encoded: &str| decode.requires((encoded,)),
        ensures
            !has_layout(s@) ==> page is Err && page->Err_0@ == PageErrorView::ParseError(
                missing_parts(),
            ),
            has_layout(s@) ==> exists|
                first: int,
                second: int,
                encoded: &str,
                decoded: Result<PageHeader, String>,
            |
                {
                    &&& framed(s@, first, second)
                    &&& encoded@ == header_part(s@, first, second)
                    &&& decode.ensures((encoded,), decoded)
                    &&& match decoded {
                        Ok(header) => page is Ok && page->Ok_0@ == (PageView {
                            id: id@,
                            header: header@,
                            text: text_part(s@, second),
                        }),
                        Err(error) => page is Err && page->Err_0@
                            == (PageErrorView::DeserializeTomlError { error: error@ }),
                    }
                },
    {
        let (encoded, text) = match split_page_file(s) {
            Ok(parts) => parts,
            Err(error) => {
                return Err(error);
            },
        };
        let decoded = decode(encoded.as_str());
        Page::with_header(id, decoded, text)
    }

    /// Makes the page `id` from its decoded header and its text, or reports why the header could
    /// not be decoded.
    pub fn with_header(id: &str, decoded: Result<PageHeader, String>, text: String) -> (page:
        Result<Page, PageError>)
        ensures
            match decoded {
                Ok(header) => page is Ok && page->Ok_0@ == (PageView {
                    id: id@,
                    header: header@,
                    text: text@,
                }),
                Err(error) => page is Err && page->Err_0@
                    == (PageErrorView::DeserializeTomlError { error: error@ }),
            },
    {
        match decoded {
            Ok(header) => Ok(Page { id: id.to_owned(), header, text }),
            Err(error) => Err(PageError::DeserializeTomlError { error }),
        }
    }

    /// The contents of the page's file. `encode` turns the header into TOML, or into the message
    /// of its failure, which comes back as a `SerializeTomlError`.
    pub fn to_str<F: Fn(&PageHeader) -> Result<String, String>>(&self, encode: F) -> (file: Result<
        String,
        PageError,
    >)
        requires
            encode.requires((&self.header,)),
        ensures
            exists|encoded: Result<String, String>|
                {
                    &&& encode.ensures((&self.header,), encoded)
                    &&& match encoded {
                        Ok(header) => file is Ok && file->Ok_0@ == page_file(header@, self.text@),
                        Err(error) => file is Err && file->Err_0@
                            == (PageErrorView::SerializeTomlError { error: error@ }),
                    }
                },
    {
        let encoded = encode(&self.header);
        Page::with_encoded_header(encoded, self.text.as_str())
    }

    /// The contents of a page file from its encoded header and its text, or the report of why
    /// the header could not be encoded.
    pub fn with_encoded_header(encoded: Result<String, String>, text: &str) -> (file: Result<
        String,
        PageError,
    >)
        ensures
            match encoded {
                Ok(header) => file is Ok && file->Ok_0@ == page_file(header@, text@),
                Err(error) => file is Err && file->Err_0@ == (PageErrorView::SerializeTomlError {
                    error: error@,
                }),
            },
    {
        match encoded {
            Ok(header) => Ok(join_page_file(header.as_str(), text)),
            Err(error) => Err(PageError::SerializeTomlError { error }),
        }
    }
}

} // verus!
