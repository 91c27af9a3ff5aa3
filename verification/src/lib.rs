//! Planning for a downloader of web directory listings.
//!
//! A directory listing page (the kind that web servers generate for a folder)
//! is scanned table by table and row by row; every link of a row is paired with
//! the icons of that row, whose `alt` text tells whether the entry is a folder,
//! an image, a document, the parent folder or the column-header icon. The
//! library decides, for each such pair, what the program does: descend into a
//! sub-listing, download a file into a local folder, or only report the entry.
pub mod download;
pub mod listing;
pub mod page;
pub mod prompt;
pub mod scrape;
pub mod text;
pub mod walk;
