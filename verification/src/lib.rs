//! Lists the links of a text or Markdown file at the end of that file.
//!
//! The file is rendered to HTML, the anchor elements of the HTML are read in
//! the order of the document, and the list of their texts and addresses is
//! appended to the file under a heading, as a Markdown list. A file without
//! links is left as it is.
//!
//! - `input`: which command lines and paths are accepted.
//! - `render`: the call of the Markdown renderer.
//! - `dom`: the calls of the HTML engine.
//! - `extract`: from the text to its anchors and to its links.
//! - `listing`: the text of the list, and where each link stands in it.
//! - `run`: a run of the tool from the command line to the exit, which says
//!   what is to be done to the file and leaves the doing to its caller.
//! - `link`, `error`: the data and the failures.

pub mod dom;
pub mod error;
pub mod extract;
pub mod input;
pub mod link;
pub mod listing;
pub mod render;
pub mod run;
