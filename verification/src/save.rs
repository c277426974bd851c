//! Saving a file through the native save dialog: what follows from the
//! user's choice and from the attempt to write.
//!
//! The host shows the dialog and writes the file. Between the two, and after
//! them, the rules here decide how the request ends: `Ok(true)` when the file
//! was saved, `Ok(false)` when the user cancelled, and an error text
//! otherwise.

use vstd::prelude::*;
use vstd::string::*;

verus! {

/// What the save dialog came back with.
#[derive(Clone, Copy, Debug, PartialEq, Eq, Structural)]
pub enum DialogChoice {
    /// The user chose a path in the file system.
    Path,
    /// The user chose a location that is not a file-system path.
    Other,
    /// The user closed the dialog without choosing.
    Cancelled,
}

/// What the host is to do after the dialog.
#[derive(Debug, PartialEq, Eq)]
pub enum SaveStep {
    /// Write the content to the chosen path and report how that went.
    Write,
    /// The request is over, with this result.
    Finished(Result<bool, String>),
}

/// The filter that the save dialog offers.
#[derive(Debug, PartialEq, Eq)]
pub struct FileFilter {
    /// The name shown to the user.
    pub name: String,
    /// The file extensions that it admits, without the dot.
    pub extensions: Vec<String>,
}

/// The result of a request as a mathematical value.
pub open spec fn result_text(result: Result<bool, String>) -> Result<bool, Seq<char>> {
    match result {
        Ok(saved) => Ok(saved),
        Err(message) => Err(message@),
    }
}

/// What follows from the user's choice: a path is written to, any other
/// location is refused, and a cancelled dialog ends the request unsaved.
pub open spec fn after_dialog_model(choice: DialogChoice) -> Option<Result<bool, Seq<char>>> {
    match choice {
        DialogChoice::Path => None,
        DialogChoice::Other => Some(Err("Unsupported path type"@)),
        DialogChoice::Cancelled => Some(Ok(false)),
    }
}

/// What follows from the attempt to write: the file is saved, or the reason
/// why it is not becomes the error.
pub open spec fn after_write_model(failure: Option<Seq<char>>) -> Result<bool, Seq<char>> {
    match failure {
        None => Ok(true),
        Some(message) => Err(message),
    }
}

/// The filter that the save dialog offers: CSV files.
pub fn csv_filter() -> (filter: FileFilter)
    ensures
        filter.name@ == "CSV Files"@,
        filter.extensions@.len() == 1,
        filter.extensions@[0]@ == "csv"@,
{
    let mut extensions: Vec<String> = Vec::new();
    extensions.push(String::from_str("csv"));
    FileFilter { name: String::from_str("CSV Files"), extensions }
}

/// Decides what follows from the user's choice in the save dialog.
pub fn after_dialog(choice: DialogChoice) -> (step: SaveStep)
    ensures
        step is Write <==> after_dialog_model(choice) is None,
        step matches SaveStep::Finished(result) ==> Some(result_text(result))
            == after_dialog_model(choice),
{
    match choice {
        DialogChoice::Path => SaveStep::Write,
        DialogChoice::Other => SaveStep::Finished(Err(String::from_str("Unsupported path type"))),
        DialogChoice::Cancelled => SaveStep::Finished(Ok(false)),
    }
}

/// Decides how the request ends after the attempt to write, given the text
/// of the write error, if there was one.
pub fn after_write(failure: Option<String>) -> (result: Result<bool, String>)
    ensures
        result_text(result) == after_write_model(
            match failure {
                Some(message) => Some(message@),
                None => None,
            },
        ),
{
    match failure {
        None => Ok(true),
        Some(message) => Err(message),
    }
}

} // verus!
