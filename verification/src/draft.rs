//! The part of a page that its author edits, and the file that the editor works on.
//!
//! The file has the layout of a page file; its header holds only what the author may change.

use crate::page::{
    framed, has_layout, header_part, join_page_file, missing_parts, page_file, split_page_file,
    text_part, HeaderView, Page, PageError, PageErrorView, PageHeader, PageView,
};
use vstd::prelude::*;

verus! {

/// The metadata of a page that its author may change.
#[derive(Clone, Debug, PartialEq, Eq)]
pub struct TemporaryPageHeader {
    pub title: String,
    pub insert_title: bool,
    pub author: String,
    pub memo: bool,
}

/// What the editor is given of a page, and what comes back from it.
#[derive(Clone, Debug, PartialEq, Eq)]
pub struct TemporaryPage {
    pub header: TemporaryPageHeader,
    pub text: String,
}

/// A `TemporaryPageHeader` as a mathematical value.
pub struct DraftHeaderView {
    pub title: Seq<char>,
    pub insert_title: bool,
    pub author: Seq<char>,
    pub memo: bool,
}

/// A `TemporaryPage` as a mathematical value.
pub struct DraftView {
    pub header: DraftHeaderView,
    pub text: Seq<char>,
}

impl View for TemporaryPageHeader {
    type V = DraftHeaderView;

    open spec fn view(&self) -> DraftHeaderView {
        DraftHeaderView {
            title: self.title@,
            insert_title: self.insert_title,
            author: self.author@,
            memo: self.memo,
        }
    }
}

impl View for TemporaryPage {
    type V = DraftView;

    open spec fn view(&self) -> DraftView {
        DraftView { header: self.header@, text: self.text@ }
    }
}

/// What the author may change of a header.
pub open spec fn draft_header_of(header: HeaderView) -> DraftHeaderView {
    DraftHeaderView {
        title: header.title,
        insert_title: header.insert_title,
        author: header.author,
        memo: header.memo,
    }
}

/// What the author may change of a page.
pub open spec fn draft_of(page: PageView) -> DraftView {
    DraftView { header: draft_header_of(page.header), text: page.text }
}

/// The page `page` after the author's changes `draft`: title, title switch, author, memo flag
/// and text are the draft's, the rest stays.
pub open spec fn applied(draft: DraftView, page: PageView) -> PageView {
    PageView {
        id: page.id,
        header: HeaderView {
            title: draft.header.title,
            insert_title: draft.header.insert_title,
            author: draft.header.author,
            memo: draft.header.memo,
            ..page.header
        },
        text: draft.text,
    }
}

/// A draft taken from a page and applied to it again changes nothing.
pub proof fn own_draft_changes_nothing(page: PageView)
    ensures
        applied(draft_of(page), page) == page,
{
}

/// Applying a draft leaves the page's id, its times and its links as they were, and the draft
/// can be read off the page again.
pub proof fn applied_keeps_links(draft: DraftView, page: PageView)
    ensures
        applied(draft, page).id == page.id,
        applied(draft, page).header.prev == page.header.prev,
        applied(draft, page).header.next == page.header.next,
        applied(draft, page).header.created == page.header.created,
        applied(draft, page).header.updated == page.header.updated,
        draft_of(applied(draft, page)) == draft,
{
}

impl TemporaryPageHeader {
    /// What the author may change of `header`.
    pub fn from_pageheader(header: &PageHeader) -> (draft: TemporaryPageHeader)
        ensures
            draft@ == draft_header_of(header@),
    {
        TemporaryPageHeader {
            title: header.title.clone(),
            insert_title: header.insert_title,
            author: header.author.clone(),
            memo: header.memo,
        }
    }
}

impl TemporaryPage {
    /// Reads a draft from the contents of the edited file. `decode` turns the encoded header
    /// into a `TemporaryPageHeader`, or into the message of its failure.
    ///
    /// A file without the layout of a page is a `ParseError`, and `decode` is not called. Else
    /// `decode` is called once, on the header part: its failure is a `DeserializeTomlError`, and
    /// with its header the draft is made, with the text part as its text.
    pub fn from_str<F: Fn(&str) -> Result<TemporaryPageHeader, String>>(s: &str, decode: F) -> (draft:
        Result<TemporaryPage, PageError>)
        requires
            forall|encoded: &str| decode.requires((encoded,)),
        ensures
            !has_layout(s@) ==> draft is Err && draft->Err_0@ == PageErrorView::ParseError(
                missing_parts(),
            ),
            has_layout(s@) ==> exists|
                first: int,
                second: int,
                encoded: &str,
                decoded: Result<TemporaryPageHeader, String>,
            |
                {
                    &&& framed(s@, first, second)
                    &&& encoded@ == header_part(s@, first, second)
                    &&& decode.ensures((encoded,), decoded)
                    &&& match decoded {
                        Ok(header) => draft is Ok && draft->Ok_0@ == (DraftView {
                            header: header@,
                            text: text_part(s@, second),
                        }),
                        Err(error) => draft is Err && draft->Err_0@
                            == (PageErrorView::DeserializeTomlError { error: error@ }),
                    }
                },
    {
        let (encoded, text) = match split_page_file(s) {
            Ok(parts) => parts,
            Err(error) => {
                return Err(error);
            },
        };
        let decoded = decode(encoded.as_str());
        TemporaryPage::with_header(decoded, text)
    }

    /// Makes a draft from its decoded header and its text, or reports why the header could not
    /// be decoded.
    pub fn with_header(decoded: Result<TemporaryPageHeader, String>, text: String) -> (draft: Result<
        TemporaryPage,
        PageError,
    >)
        ensures
            match decoded {
                Ok(header) => draft is Ok && draft->Ok_0@ == (DraftView {
                    header: header@,
                    text: text@,
                }),
                Err(error) => draft is Err && draft->Err_0@
                    == (PageErrorView::DeserializeTomlError { error: error@ }),
            },
    {
        match decoded {
            Ok(header) => Ok(TemporaryPage { header, text }),
            Err(error) => Err(PageError::DeserializeTomlError { error }),
        }
    }

    /// The contents of the file to edit. `encode` turns the header into TOML, or into the
    /// message of its failure, which comes back as a `SerializeTomlError`.
    pub fn to_str<F: Fn(&TemporaryPageHeader) -> Result<String, String>>(&self, encode: F) -> (file:
        Result<String, PageError>)
        requires
            encode.requires((&self.header,)),
        ensures
            exists|encoded: Result<String, String>|
                {
                    &&& encode.ensures((&self.header,), encoded)
                    &&& match encoded {
                        Ok(header) => file is Ok && file->Ok_0@ == page_file(header@, self.text@),
                        Err(error) => file is Err && file->Err_0@
                            == (PageErrorView::SerializeTomlError { error: error@ }),
                    }
                },
    {
        let encoded = encode(&self.header);
        match encoded {
            Ok(header) => Ok(join_page_file(header.as_str(), self.text.as_str())),
            Err(error) => Err(PageError::SerializeTomlError { error }),
        }
    }

    /// What the author may change of `page`.
    pub fn from_page(page: &Page) -> (draft: TemporaryPage)
        ensures
            draft@ == draft_of(page@),
    {
        TemporaryPage {
            header: TemporaryPageHeader::from_pageheader(&page.header),
            text: page.text.clone(),
        }
    }

    /// Carries the author's changes over to `page`.
    pub fn apply(&self, page: &mut Page)
        ensures
            final(page)@ == applied(self@, old(page)@),
    {
        page.header.title = self.header.title.clone();
        page.header.insert_title = self.header.insert_title;
        page.header.author = self.header.author.clone();
        page.header.memo = self.header.memo;
        page.text = self.text.clone();
    }
}

} // verus!
