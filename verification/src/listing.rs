//! What to do with each entry of a directory listing.
use vstd::prelude::*;

use crate::text::{
    last_piece, last_piece_text, leading_pieces, leading_pieces_text, remove_all,
    remove_all_text, same_text,
};

verus! {

/// What the icon of a listing row says about its entry, read from the
/// icon's `alt` text.
#[derive(Debug, Clone, Copy, PartialEq, Eq, Structural)]
pub enum EntryKind {
    /// `[PARENTDIR]`: the link back up to the enclosing folder.
    ParentDirectory,
    /// `[ICO]`: the icon in the header row of the table.
    Icon,
    /// `[DIR]`: a sub-folder.
    Directory,
    /// `[IMG]`: an image file.
    Image,
    /// `[   ]`: a plain file, such as a PDF document.
    Document,
    /// Any other `alt` text.
    Other,
}

/// The kind of entry that an icon's `alt` text announces.
pub open spec fn kind_of_alt(alt: Seq<char>) -> EntryKind {
    if alt == "[PARENTDIR]"@ {
        EntryKind::ParentDirectory
    } else if alt == "[ICO]"@ {
        EntryKind::Icon
    } else if alt == "[DIR]"@ {
        EntryKind::Directory
    } else if alt == "[IMG]"@ {
        EntryKind::Image
    } else if alt == "[   ]"@ {
        EntryKind::Document
    } else {
        EntryKind::Other
    }
}

/// Reads the kind of entry from an icon's `alt` text.
pub fn classify_alt(alt: &str) -> (kind: EntryKind)
    ensures
        kind == kind_of_alt(alt@),
{
    if same_text(alt, "[PARENTDIR]") {
        EntryKind::ParentDirectory
    } else if same_text(alt, "[ICO]") {
        EntryKind::Icon
    } else if same_text(alt, "[DIR]") {
        EntryKind::Directory
    } else if same_text(alt, "[IMG]") {
        EntryKind::Image
    } else if same_text(alt, "[   ]") {
        EntryKind::Document
    } else {
        EntryKind::Other
    }
}

/// A yes/no answer given as one character: `y` or `Y` means yes.
pub open spec fn says_yes(answer: char) -> bool {
    answer == 'y' || answer == 'Y'
}

/// Whether the answer character means yes.
pub fn answers_yes(answer: char) -> (yes: bool)
    ensures
        yes == says_yes(answer),
{
    answer == 'y' || answer == 'Y'
}

/// The user's three answers, each a single character (`y`/`Y` for yes).
#[derive(Debug, Clone, Copy, PartialEq, Eq, Structural)]
pub struct DownloadOptions {
    /// Whether plain files (`[   ]` entries, such as PDFs) are downloaded.
    pub download_pdfs: char,
    /// Whether images (`[IMG]` entries) are downloaded.
    pub download_imgs: char,
    /// Whether sub-folders (`[DIR]` entries) are scanned in turn.
    pub scan_subfolders: char,
}

/// The local folder under which scanned sub-folders are created, and the
/// folder that the top-level listings download into.
pub open spec fn download_root() -> Seq<char> {
    "Download/"@
}

/// The local root folder, `Download/`.
pub fn root_folder() -> (root: String)
    ensures
        root@ == download_root(),
{
    String::from_str("Download/")
}

/// One decision about one entry, in terms of the texts it involves.
pub enum Step {
    /// Create the local folder `local_dir`, then scan the listing at `link`,
    /// whose files go under `folder`.
    Descend { link: Seq<char>, local_dir: Seq<char>, folder: Seq<char> },
    /// A sub-folder that is left alone because sub-folders are not scanned.
    PassDirectory { link: Seq<char> },
    /// Download the image at `link` into the local folder `folder`.
    FetchImage { link: Seq<char>, folder: Seq<char> },
    /// Download the file at `link` into the local folder `folder`.
    FetchDocument { link: Seq<char>, folder: Seq<char> },
    /// An image that is reported but not downloaded.
    PassImage { link: Seq<char> },
    /// A file that is reported but not downloaded.
    PassDocument { link: Seq<char> },
    /// An entry of an unknown kind: `link` is reported, made of the page's
    /// address and `href`.
    Unrecognised { link: Seq<char>, href: Seq<char> },
}

/// One decision about one entry of a listing.
#[derive(Debug, PartialEq, Eq)]
pub enum EntryAction {
    /// Create the local folder `local_dir`, then scan the listing at `link`,
    /// whose files go under `folder`.
    Descend { link: String, local_dir: String, folder: String },
    /// A sub-folder that is left alone because sub-folders are not scanned.
    PassDirectory { link: String },
    /// Download the image at `link` into the local folder `folder`.
    FetchImage { link: String, folder: String },
    /// Download the file at `link` into the local folder `folder`.
    FetchDocument { link: String, folder: String },
    /// An image that is reported but not downloaded.
    PassImage { link: String },
    /// A file that is reported but not downloaded.
    PassDocument { link: String },
    /// An entry of an unknown kind: `link` is reported, made of the page's
    /// address and `href`.
    Unrecognised { link: String, href: String },
}

impl DeepView for EntryAction {
    type V = Step;

    open spec fn deep_view(&self) -> Step {
        match self {
            EntryAction::Descend { link, local_dir, folder } => Step::Descend {
                link: link@,
                local_dir: local_dir@,
                folder: folder@,
            },
            EntryAction::PassDirectory { link } => Step::PassDirectory { link: link@ },
            EntryAction::FetchImage { link, folder } => Step::FetchImage {
                link: link@,
                folder: folder@,
            },
            EntryAction::FetchDocument { link, folder } => Step::FetchDocument {
                link: link@,
                folder: folder@,
            },
            EntryAction::PassImage { link } => Step::PassImage { link: link@ },
            EntryAction::PassDocument { link } => Step::PassDocument { link: link@ },
            EntryAction::Unrecognised { link, href } => Step::Unrecognised {
                link: link@,
                href: href@,
            },
        }
    }
}

/// The local folder that an entry belongs to: the page's folder followed by
/// the first two `/`-separated pieces of the entry's `href`.
pub open spec fn entry_folder(file_path: Seq<char>, href: Seq<char>) -> Seq<char> {
    file_path + leading_pieces(href, '/', 2)
}

/// The folder a file is downloaded into: the entry's folder with every
/// occurrence of the file's name (the last `/`-separated piece of `href`)
/// taken out.
pub open spec fn download_folder(file_path: Seq<char>, href: Seq<char>) -> Seq<char> {
    remove_all(entry_folder(file_path, href), last_piece(href, '/'))
}

/// The decision about the entry `href` whose icon reads `alt`, on the listing
/// at `url` whose files go under `file_path`. Parent-folder and header-icon
/// rows get none.
pub open spec fn entry_step(
    url: Seq<char>,
    file_path: Seq<char>,
    href: Seq<char>,
    alt: Seq<char>,
    options: DownloadOptions,
) -> Option<Step> {
    let link = url + href;
    match kind_of_alt(alt) {
        EntryKind::ParentDirectory => None,
        EntryKind::Icon => None,
        EntryKind::Directory => if says_yes(options.scan_subfolders) {
            Some(
                Step::Descend {
                    link,
                    local_dir: download_root() + href,
                    folder: entry_folder(file_path, href),
                },
            )
        } else {
            Some(Step::PassDirectory { link })
        },
        EntryKind::Image => if says_yes(options.download_imgs) {
            Some(Step::FetchImage { link, folder: download_folder(file_path, href) })
        } else {
            Some(Step::PassImage { link })
        },
        EntryKind::Document => if says_yes(options.download_pdfs) {
            Some(Step::FetchDocument { link, folder: download_folder(file_path, href) })
        } else {
            Some(Step::PassDocument { link })
        },
        EntryKind::Other => Some(Step::Unrecognised { link, href }),
    }
}

/// Rows whose icon marks the parent folder or the table header lead to no
/// decision at all, whatever the link and the answers.
pub proof fn law_parent_and_header_rows_do_nothing(
    url: Seq<char>,
    file_path: Seq<char>,
    href: Seq<char>,
    alt: Seq<char>,
    options: DownloadOptions,
)
    requires
        kind_of_alt(alt) == EntryKind::ParentDirectory || kind_of_alt(alt) == EntryKind::Icon,
    ensures
        entry_step(url, file_path, href, alt, options) is None,
{
}

/// A scanned sub-folder is visited at the entry's address, and what is found
/// there goes under the entry's own folder, which begins with the page's
/// folder.
pub proof fn law_descend_target(
    url: Seq<char>,
    file_path: Seq<char>,
    href: Seq<char>,
    options: DownloadOptions,
)
    requires
        says_yes(options.scan_subfolders),
    ensures
        entry_step(url, file_path, href, "[DIR]"@, options) == Some(
            Step::Descend {
                link: url + href,
                local_dir: download_root() + href,
                folder: entry_folder(file_path, href),
            },
        ),
        entry_step(url, file_path, href, "[DIR]"@, options) == Some(
            Step::Descend {
                link: url + href,
                local_dir: "Download/"@ + href,
                folder: file_path + leading_pieces(href, '/', 2),
            },
        ),
        entry_folder(file_path, href).take(file_path.len() as int) =~= file_path,
{
    law_kind_of_alt_exact("[DIR]"@);
}

/// The five icon texts differ from one another.
proof fn lemma_icon_texts_distinct()
    ensures
        "[PARENTDIR]"@ != "[ICO]"@,
        "[PARENTDIR]"@ != "[DIR]"@,
        "[PARENTDIR]"@ != "[IMG]"@,
        "[PARENTDIR]"@ != "[   ]"@,
        "[ICO]"@ != "[DIR]"@,
        "[ICO]"@ != "[IMG]"@,
        "[ICO]"@ != "[   ]"@,
        "[DIR]"@ != "[IMG]"@,
        "[DIR]"@ != "[   ]"@,
        "[IMG]"@ != "[   ]"@,
{
    reveal_strlit("[PARENTDIR]");
    reveal_strlit("[ICO]");
    reveal_strlit("[DIR]");
    reveal_strlit("[IMG]");
    reveal_strlit("[   ]");
    assert("[PARENTDIR]"@.len() == 11);
    assert("[ICO]"@.len() == 5);
    assert("[ICO]"@[1] == 'I' && "[ICO]"@[2] == 'C');
    assert("[DIR]"@[1] == 'D');
    assert("[IMG]"@[1] == 'I' && "[IMG]"@[2] == 'M');
    assert("[   ]"@[1] == ' ');
}

/// Each kind is announced by exactly one icon text, and every other text is
/// of unknown kind.
pub proof fn law_kind_of_alt_exact(alt: Seq<char>)
    ensures
        (kind_of_alt(alt) == EntryKind::ParentDirectory) == (alt == "[PARENTDIR]"@),
        (kind_of_alt(alt) == EntryKind::Icon) == (alt == "[ICO]"@),
        (kind_of_alt(alt) == EntryKind::Directory) == (alt == "[DIR]"@),
        (kind_of_alt(alt) == EntryKind::Image) == (alt == "[IMG]"@),
        (kind_of_alt(alt) == EntryKind::Document) == (alt == "[   ]"@),
        (kind_of_alt(alt) == EntryKind::Other) == (alt != "[PARENTDIR]"@ && alt != "[ICO]"@
            && alt != "[DIR]"@ && alt != "[IMG]"@ && alt != "[   ]"@),
{
    lemma_icon_texts_distinct();
}

/// An image entry is downloaded exactly when the image answer is yes,
/// whatever the other answers, into the entry's folder with the file name
/// taken out; otherwise it is only reported.
pub proof fn law_image_entry(
    url: Seq<char>,
    file_path: Seq<char>,
    href: Seq<char>,
    options: DownloadOptions,
)
    ensures
        says_yes(options.download_imgs) ==> entry_step(url, file_path, href, "[IMG]"@, options)
            == Some(
            Step::FetchImage {
                link: url + href,
                folder: remove_all(file_path + leading_pieces(href, '/', 2), last_piece(href, '/')),
            },
        ),
        !says_yes(options.download_imgs) ==> entry_step(url, file_path, href, "[IMG]"@, options)
            == Some(Step::PassImage { link: url + href }),
{
    law_kind_of_alt_exact("[IMG]"@);
}

/// A plain-file entry is downloaded exactly when the document answer is yes,
/// whatever the other answers, into the entry's folder with the file name
/// taken out; otherwise it is only reported.
pub proof fn law_document_entry(
    url: Seq<char>,
    file_path: Seq<char>,
    href: Seq<char>,
    options: DownloadOptions,
)
    ensures
        says_yes(options.download_pdfs) ==> entry_step(url, file_path, href, "[   ]"@, options)
            == Some(
            Step::FetchDocument {
                link: url + href,
                folder: remove_all(file_path + leading_pieces(href, '/', 2), last_piece(href, '/')),
            },
        ),
        !says_yes(options.download_pdfs) ==> entry_step(url, file_path, href, "[   ]"@, options)
            == Some(Step::PassDocument { link: url + href }),
{
    law_kind_of_alt_exact("[   ]"@);
}

/// A sub-folder entry is entered exactly when the scanning answer is yes,
/// whatever the other answers; otherwise it is only reported.
pub proof fn law_directory_entry(
    url: Seq<char>,
    file_path: Seq<char>,
    href: Seq<char>,
    options: DownloadOptions,
)
    ensures
        !says_yes(options.scan_subfolders) ==> entry_step(url, file_path, href, "[DIR]"@, options)
            == Some(Step::PassDirectory { link: url + href }),
{
    law_kind_of_alt_exact("[DIR]"@);
}

/// An entry whose icon text is none of the five known ones is only reported,
/// with its address and its link target.
pub proof fn law_unknown_entry(
    url: Seq<char>,
    file_path: Seq<char>,
    href: Seq<char>,
    alt: Seq<char>,
    options: DownloadOptions,
)
    requires
        alt != "[PARENTDIR]"@,
        alt != "[ICO]"@,
        alt != "[DIR]"@,
        alt != "[IMG]"@,
        alt != "[   ]"@,
    ensures
        entry_step(url, file_path, href, alt, options) == Some(
            Step::Unrecognised { link: url + href, href },
        ),
{
    law_kind_of_alt_exact(alt);
}

/// Decides what to do with the entry `href` whose icon reads `alt`, on the
/// listing at `url` whose files go under `file_path`.
pub fn plan_entry(
    url: &str,
    file_path: &str,
    href: &str,
    alt: &str,
    options: &DownloadOptions,
) -> (action: Option<EntryAction>)
    ensures
        action.deep_view() == entry_step(url@, file_path@, href@, alt@, *options),
{
    let kind = classify_alt(alt);
    match kind {
        EntryKind::ParentDirectory => return None,
        EntryKind::Icon => return None,
        _ => {},
    }
    let link = String::from_str(url).concat(href);
    match kind {
        EntryKind::Directory => {
            if answers_yes(options.scan_subfolders) {
                let local_dir = root_folder().concat(href);
                let folder = entry_folder_text(file_path, href);
                Some(EntryAction::Descend { link, local_dir, folder })
            } else {
                Some(EntryAction::PassDirectory { link })
            }
        },
        EntryKind::Image => {
            if answers_yes(options.download_imgs) {
                let folder = download_folder_text(file_path, href);
                Some(EntryAction::FetchImage { link, folder })
            } else {
                Some(EntryAction::PassImage { link })
            }
        },
        EntryKind::Document => {
            if answers_yes(options.download_pdfs) {
                let folder = download_folder_text(file_path, href);
                Some(EntryAction::FetchDocument { link, folder })
            } else {
                Some(EntryAction::PassDocument { link })
            }
        },
        _ => Some(EntryAction::Unrecognised { link, href: String::from_str(href) }),
    }
}

/// The local folder of the entry `href` on a listing whose files go under
/// `file_path`.
pub fn entry_folder_text(file_path: &str, href: &str) -> (folder: String)
    ensures
        folder@ == entry_folder(file_path@, href@),
{
    proof {
        reveal_strlit("/");
        assert("/"@ =~= seq!['/']);
    }
    String::from_str(file_path).concat(leading_pieces_text(href, '/', "/", 2).as_str())
}

/// The folder a file named by `href` is downloaded into, on a listing whose
/// files go under `file_path`.
pub fn download_folder_text(file_path: &str, href: &str) -> (folder: String)
    ensures
        folder@ == download_folder(file_path@, href@),
{
    let folder = entry_folder_text(file_path, href);
    let file_name = last_piece_text(href, '/');
    remove_all_text(folder.as_str(), file_name.as_str())
}

} // verus!
