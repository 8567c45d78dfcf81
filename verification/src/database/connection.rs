//! From the rows of a catalog query to the books of a session.

use vstd::prelude::*;
use vstd::string::*;
use crate::app::{books_view, Book, BookView};
use crate::text::{chars_of, push_char, split, split_spec, strings_view, unknown_name};

verus! {

/// The most books a search hands back.
pub const SEARCH_LIMIT: usize = 100;

/// One row of a catalog query: a book's columns, with its author names and
/// its tag names each written as one text, the names separated by a comma
/// and a space.
#[derive(Debug)]
pub struct BookRow {
    pub id: i32,
    pub title: String,
    pub path: String,
    pub has_cover: bool,
    pub timestamp: String,
    pub format: String,
    pub filename: String,
    pub authors: String,
    pub tags: String,
}

/// The separator of the names in a row's list columns.
pub open spec fn list_separator() -> Seq<char> {
    seq![',', ' ']
}

/// The author names of a row: `Unknown` alone where the row names none,
/// else the parts of the column between the separators.
pub open spec fn authors_spec(column: Seq<char>) -> Seq<Seq<char>> {
    if column.len() == 0 {
        seq![unknown_name()]
    } else {
        split_spec(column, list_separator())
    }
}

/// The tag names of a row: none where the row names none, else the parts of
/// the column between the separators.
pub open spec fn tags_spec(column: Seq<char>) -> Seq<Seq<char>> {
    if column.len() == 0 {
        Seq::empty()
    } else {
        split_spec(column, list_separator())
    }
}

/// The book of a row.
pub open spec fn book_of(row: BookRow) -> BookView {
    BookView {
        id: row.id as int,
        title: row.title@,
        authors: authors_spec(row.authors@),
        path: row.path@,
        has_cover: row.has_cover,
        timestamp: row.timestamp@,
        format: row.format@,
        filename: row.filename@,
        tags: tags_spec(row.tags@),
    }
}

/// The books of a list of rows, in order.
pub open spec fn books_of(rows: Seq<BookRow>) -> Seq<BookView> {
    rows.map_values(|row: BookRow| book_of(row))
}

/// The author names written in a row's column.
pub fn authors_of(column: &str) -> (r: Vec<String>)
    ensures
        strings_view(r@) == authors_spec(column@),
        r@.len() >= 1,
{
    if column.unicode_len() == 0 {
        let mut names: Vec<String> = Vec::new();
        proof {
            reveal_strlit("Unknown");
            assert("Unknown"@ =~= unknown_name());
        }
        names.push(String::from_str("Unknown"));
        assert(strings_view(names@) =~= seq![unknown_name()]);
        names
    } else {
        proof {
            reveal_strlit(", ");
            assert(", "@ =~= list_separator());
        }
        split(column, ", ")
    }
}

/// The tag names written in a row's column.
pub fn tags_of(column: &str) -> (r: Vec<String>)
    ensures
        strings_view(r@) == tags_spec(column@),
{
    if column.unicode_len() == 0 {
        let names: Vec<String> = Vec::new();
        assert(strings_view(names@) =~= Seq::empty());
        names
    } else {
        proof {
            reveal_strlit(", ");
            assert(", "@ =~= list_separator());
        }
        split(column, ", ")
    }
}

/// The book of a row.
pub fn book_from_row(row: BookRow) -> (r: Book)
    ensures
        r@ == book_of(row),
        r@.authors.len() >= 1,
{
    let authors = authors_of(row.authors.as_str());
    let tags = tags_of(row.tags.as_str());
    Book {
        id: row.id,
        title: row.title,
        authors,
        path: row.path,
        has_cover: row.has_cover,
        timestamp: row.timestamp,
        format: row.format,
        filename: row.filename,
        tags,
    }
}

/// The books of the rows of a query, in the rows' order.
pub fn books_from_rows(rows: Vec<BookRow>) -> (r: Vec<Book>)
    ensures
        books_view(r@) == books_of(rows@),
{
    let ghost all = rows@;
    let mut rows = rows;
    let mut out: Vec<Book> = Vec::new();
    while rows.len() > 0
        invariant
            out@.len() + rows@.len() == all.len(),
            forall|i: int| 0 <= i < out@.len() ==> (#[trigger] out@[i])@ == book_of(all[i]),
            forall|i: int| 0 <= i < rows@.len() ==> rows@[i] == all[out@.len() + i],
        decreases rows@.len(),
    {
        let row = rows.remove(0);
        out.push(book_from_row(row));
    }
    assert(books_view(out@) =~= books_of(all));
    out
}

/// The character that takes the special meaning from the character behind
/// it in a pattern.
pub const ESCAPE: char = '\\';

/// Whether a character means something else than itself in a pattern: `%`
/// stands for any text, `_` for any character, and the escape character
/// changes what follows it.
pub open spec fn is_special(c: char) -> bool {
    c == '%' || c == '_' || c == ESCAPE
}

/// A text written so that every character in it means itself in a pattern:
/// the escape character stands in front of each special character.
pub open spec fn escaped(text: Seq<char>) -> Seq<char>
    decreases text.len(),
{
    if text.len() == 0 {
        Seq::empty()
    } else if is_special(text.last()) {
        escaped(text.drop_last()).push(ESCAPE).push(text.last())
    } else {
        escaped(text.drop_last()).push(text.last())
    }
}

/// A text without special characters is written as it is.
pub proof fn lemma_escaped_plain(text: Seq<char>)
    requires
        forall|i: int| 0 <= i < text.len() ==> !is_special(#[trigger] text[i]),
    ensures
        escaped(text) == text,
    decreases text.len(),
{
    if text.len() > 0 {
        let head = text.drop_last();
        assert forall|i: int| 0 <= i < head.len() implies !is_special(#[trigger] head[i]) by {
            assert(head[i] == text[i]);
        }
        lemma_escaped_plain(head);
        assert(!is_special(text[text.len() - 1]));
        assert(head.push(text.last()) =~= text);
    }
}

/// Writes a text so that every character in it means itself in a pattern.
pub fn escape_text(text: &str) -> (r: String)
    ensures
        r@ == escaped(text@),
{
    let chars = chars_of(text);
    let mut out = String::new();
    let mut i: usize = 0;
    assert(chars@.subrange(0, 0) =~= Seq::empty());
    while i < chars.len()
        invariant
            i <= chars.len(),
            chars@ == text@,
            out@ == escaped(chars@.subrange(0, i as int)),
        decreases chars.len() - i,
    {
        let ghost upto = chars@.subrange(0, i + 1);
        proof {
            assert(upto.drop_last() =~= chars@.subrange(0, i as int));
            assert(upto.last() == chars@[i as int]);
        }
        let c = chars[i];
        if c == '%' || c == '_' || c == ESCAPE {
            push_char(&mut out, ESCAPE);
        }
        push_char(&mut out, c);
        i += 1;
    }
    assert(chars@.subrange(0, chars.len() as int) =~= chars@);
    out
}

/// The pattern that finds `query`, and nothing but `query`, anywhere in a
/// column: the query with every character meaning itself, between two `%`.
/// It is to be matched with [`ESCAPE`] as the escape character.
pub fn search_pattern(query: &str) -> (r: String)
    ensures
        r@ == seq!['%'] + escaped(query@) + seq!['%'],
{
    proof {
        reveal_strlit("%");
        assert("%"@ =~= seq!['%']);
    }
    let inner = escape_text(query);
    String::from_str("%").concat(inner.as_str()).concat("%")
}

} // verus!
