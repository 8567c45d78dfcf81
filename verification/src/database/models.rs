//! The plain model of a book record.

use vstd::prelude::*;
use vstd::string::*;
use vstd::utf8::{decode_utf8, encode_utf8, is_char_boundary};
use crate::text::{clone_strings, join_spec, join_strings, strings_view};

verus! {

/// The longest title shown in full, in bytes.
pub const TITLE_LIMIT: usize = 50;

/// The number of bytes kept of a longer title, before the ellipsis.
pub const TITLE_KEPT: usize = 47;

/// A book record with the fields every catalog has.
#[derive(Debug)]
pub struct Book {
    pub id: i32,
    pub title: String,
    pub authors: Vec<String>,
    pub path: String,
    pub has_cover: bool,
    pub timestamp: String,
}

/// What a [`Book`] holds, as mathematical values.
pub struct BookView {
    pub id: int,
    pub title: Seq<char>,
    pub authors: Seq<Seq<char>>,
    pub path: Seq<char>,
    pub has_cover: bool,
    pub timestamp: Seq<char>,
}

impl View for Book {
    type V = BookView;

    open spec fn view(&self) -> BookView {
        BookView {
            id: self.id as int,
            title: self.title@,
            authors: strings_view(self.authors@),
            path: self.path@,
            has_cover: self.has_cover,
            timestamp: self.timestamp@,
        }
    }
}

impl Clone for Book {
    fn clone(&self) -> (r: Self)
        ensures
            r@ == self@,
    {
        Book {
            id: self.id,
            title: self.title.clone(),
            authors: clone_strings(&self.authors),
            path: self.path.clone(),
            has_cover: self.has_cover,
            timestamp: self.timestamp.clone(),
        }
    }
}

/// The length of a title's UTF-8 form, in bytes, as a machine word holds
/// it.
pub open spec fn byte_length(title: Seq<char>) -> usize {
    encode_utf8(title).len() as usize
}

/// Whether a title can be cut for display: it is short enough to need no
/// cut, or the cut falls between two characters.
pub open spec fn can_cut(title: Seq<char>) -> bool {
    byte_length(title) > TITLE_LIMIT ==> is_char_boundary(encode_utf8(title), TITLE_KEPT as int)
}

/// The title as a list line shows it: whole when its UTF-8 form has at most
/// `TITLE_LIMIT` bytes, else the text of its first `TITLE_KEPT` bytes
/// followed by `...`.
pub open spec fn display_title_spec(title: Seq<char>) -> Seq<char> {
    if byte_length(title) > TITLE_LIMIT {
        decode_utf8(encode_utf8(title).subrange(0, TITLE_KEPT as int)) + seq!['.', '.', '.']
    } else {
        title
    }
}

impl Book {
    /// The author names, separated by a comma and a space.
    pub fn author_list(&self) -> (r: String)
        ensures
            r@ == join_spec(self@.authors, seq![',', ' ']),
    {
        proof {
            reveal_strlit(", ");
            assert(", "@ =~= seq![',', ' ']);
        }
        join_strings(&self.authors, ", ")
    }

    /// The title, cut to fit a list line. The cut is made by bytes, so a
    /// long title must have a character boundary where it is cut.
    pub fn display_title(&self) -> (r: String)
        requires
            can_cut(self@.title),
        ensures
            r@ == display_title_spec(self@.title),
    {
        let title = self.title.as_str();
        if title.len() > TITLE_LIMIT {
            let (head, _) = title.split_at(TITLE_KEPT);
            proof {
                reveal_strlit("...");
                assert("..."@ =~= seq!['.', '.', '.']);
                vstd::utf8::encode_utf8_decode_utf8(head@);
                assert(head.spec_bytes() == encode_utf8(head@));
                assert(title.spec_bytes() == encode_utf8(self.title@));
                assert(head@ == decode_utf8(
                    encode_utf8(self.title@).subrange(0, TITLE_KEPT as int),
                ));
            }
            String::from_str(head).concat("...")
        } else {
            self.title.clone()
        }
    }

    /// Whether [`Book::display_title`] can cut this book's title.
    pub fn can_display_title(&self) -> (r: bool)
        ensures
            r == can_cut(self@.title),
    {
        let title = self.title.as_str();
        title.len() <= TITLE_LIMIT || title.is_char_boundary(TITLE_KEPT)
    }
}

} // verus!
