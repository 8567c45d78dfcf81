//! Opening a book: where its file lies in the library, and the command
//! that hands a file to the system's default application.

use vstd::prelude::*;
use vstd::string::*;
use crate::app::{Book, BookView};
use crate::text::{lowercase_text, strings_view, to_lowercase};
use crate::ui::selector::Platform;
use crate::ui::UI;

verus! {

/// Where a book's file lies, below the library's directory.
#[derive(Debug)]
pub struct BookFile {
    /// The book's folder, relative to the library.
    pub folder: String,
    /// The file's name in that folder.
    pub file_name: String,
}

/// A command for the system: a program and its arguments.
#[derive(Debug)]
pub struct OpenCommand {
    pub program: String,
    pub arguments: Vec<String>,
}

/// Whether the catalog says which file a book has.
pub open spec fn has_file(book: BookView) -> bool {
    book.filename.len() > 0 && book.format.len() > 0
}

/// The name of a book's file: the name the catalog gives, a dot, and the
/// format in lower case.
pub open spec fn book_file_name(book: BookView) -> Seq<char> {
    book.filename + seq!['.'] + lowercase_text(book.format)
}

/// The program and the arguments that open `file_path` on a kind of
/// system, or `None` where none is known.
pub open spec fn open_command_spec(platform: Platform, file_path: Seq<char>) -> Option<
    (Seq<char>, Seq<Seq<char>>),
> {
    match platform {
        Platform::Linux => Some(("xdg-open"@, seq![file_path])),
        Platform::MacOs => Some(("open"@, seq![file_path])),
        Platform::Windows => Some(("cmd"@, seq!["/c start \"\" \""@ + file_path + "\""@])),
        Platform::Other => None,
    }
}

impl UI {
    /// Where the file of `book` lies, or `None` for a book of which the
    /// catalog names no file or no format.
    pub fn open_book_file(&self, book: &Book) -> (r: Option<BookFile>)
        ensures
            r is Some <==> has_file(book@),
            r matches Some(file) ==> file.folder@ == book@.path && file.file_name@
                == book_file_name(book@),
    {
        if book.filename.as_str().unicode_len() == 0 || book.format.as_str().unicode_len() == 0 {
            return None;
        }
        proof {
            reveal_strlit(".");
            assert("."@ =~= seq!['.']);
        }
        let format = to_lowercase(book.format.as_str());
        let file_name = book.filename.clone().concat(".").concat(format.as_str());
        Some(BookFile { folder: book.path.clone(), file_name })
    }

    /// The command that opens the file at `file_path` with the default
    /// application of a kind of system.
    pub fn open_command(platform: Platform, file_path: &str) -> (r: Option<OpenCommand>)
        ensures
            match r {
                Some(command) => open_command_spec(platform, file_path@) == Some(
                    (command.program@, strings_view(command.arguments@)),
                ),
                None => open_command_spec(platform, file_path@) is None,
            },
    {
        let mut arguments: Vec<String> = Vec::new();
        match platform {
            Platform::Linux => {
                arguments.push(String::from_str(file_path));
                assert(strings_view(arguments@) =~= seq![file_path@]);
                Some(OpenCommand { program: String::from_str("xdg-open"), arguments })
            },
            Platform::MacOs => {
                arguments.push(String::from_str(file_path));
                assert(strings_view(arguments@) =~= seq![file_path@]);
                Some(OpenCommand { program: String::from_str("open"), arguments })
            },
            Platform::Windows => {
                let argument = String::from_str("/c start \"\" \"").concat(file_path).concat("\"");
                arguments.push(argument);
                assert(strings_view(arguments@) =~= seq!["/c start \"\" \""@ + file_path@ + "\""@]);
                Some(OpenCommand { program: String::from_str("cmd"), arguments })
            },
            Platform::Other => None,
        }
    }
}

} // verus!
