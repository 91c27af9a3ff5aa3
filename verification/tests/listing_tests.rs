use listing_downloader::listing::{
    answers_yes, classify_alt, download_folder_text, entry_folder_text, plan_entry, root_folder,
    DownloadOptions, EntryAction, EntryKind,
};

fn options(pdfs: char, imgs: char, scan: char) -> DownloadOptions {
    DownloadOptions { download_pdfs: pdfs, download_imgs: imgs, scan_subfolders: scan }
}

#[test]
fn classify_alt_reads_each_icon() {
    assert_eq!(classify_alt("[PARENTDIR]"), EntryKind::ParentDirectory);
    assert_eq!(classify_alt("[ICO]"), EntryKind::Icon);
    assert_eq!(classify_alt("[DIR]"), EntryKind::Directory);
    assert_eq!(classify_alt("[IMG]"), EntryKind::Image);
    assert_eq!(classify_alt("[   ]"), EntryKind::Document);
    assert_eq!(classify_alt("[TXT]"), EntryKind::Other);
    assert_eq!(classify_alt("[  ]"), EntryKind::Other);
    assert_eq!(classify_alt(""), EntryKind::Other);
}

#[test]
fn answers_yes_takes_both_cases() {
    assert!(answers_yes('y'));
    assert!(answers_yes('Y'));
    assert!(!answers_yes('n'));
    assert!(!answers_yes('N'));
    assert!(!answers_yes('x'));
}

#[test]
fn root_folder_is_download() {
    assert_eq!(root_folder(), "Download/");
}

#[test]
fn folders_of_entries() {
    assert_eq!(entry_folder_text("Download/", "books/"), "Download/books/");
    assert_eq!(entry_folder_text("Download/", "a/b/c.pdf"), "Download/a/b");
    assert_eq!(download_folder_text("Download/", "sub/file.pdf"), "Download/sub/");
    assert_eq!(download_folder_text("Download/", "file.pdf"), "Download/");
    assert_eq!(download_folder_text("Download/books/", "books/"), "Download/books/books/");
    assert_eq!(download_folder_text("Download/a/", "a"), "Downlod//");
    assert_eq!(download_folder_text("Download/a/", "a"), "Download/a/a".replace("a", ""));
}

#[test]
fn parent_and_header_rows_give_nothing() {
    let all = options('y', 'y', 'y');
    assert_eq!(plan_entry("http://h/", "Download/", "/", "[PARENTDIR]", &all), None);
    assert_eq!(plan_entry("http://h/", "Download/", "?C=N;O=D", "[ICO]", &all), None);
}

#[test]
fn directories_are_entered_only_when_scanning() {
    let scan = options('n', 'n', 'Y');
    assert_eq!(
        plan_entry("http://h/pdfs/", "Download/", "books/", "[DIR]", &scan),
        Some(EntryAction::Descend {
            link: "http://h/pdfs/books/".to_string(),
            local_dir: "Download/books/".to_string(),
            folder: "Download/books/".to_string(),
        })
    );
    let stay = options('y', 'y', 'n');
    assert_eq!(
        plan_entry("http://h/pdfs/", "Download/", "books/", "[DIR]", &stay),
        Some(EntryAction::PassDirectory { link: "http://h/pdfs/books/".to_string() })
    );
}

#[test]
fn images_and_documents_follow_their_answers() {
    let all = options('y', 'y', 'n');
    assert_eq!(
        plan_entry("http://h/p/", "Download/p/", "cover.jpg", "[IMG]", &all),
        Some(EntryAction::FetchImage {
            link: "http://h/p/cover.jpg".to_string(),
            folder: "Download/p/".to_string(),
        })
    );
    assert_eq!(
        plan_entry("http://h/p/", "Download/p/", "manual.pdf", "[   ]", &all),
        Some(EntryAction::FetchDocument {
            link: "http://h/p/manual.pdf".to_string(),
            folder: "Download/p/".to_string(),
        })
    );
    let none = options('n', 'n', 'n');
    assert_eq!(
        plan_entry("http://h/p/", "Download/p/", "cover.jpg", "[IMG]", &none),
        Some(EntryAction::PassImage { link: "http://h/p/cover.jpg".to_string() })
    );
    assert_eq!(
        plan_entry("http://h/p/", "Download/p/", "manual.pdf", "[   ]", &none),
        Some(EntryAction::PassDocument { link: "http://h/p/manual.pdf".to_string() })
    );
}

#[test]
fn unknown_icons_are_reported() {
    let all = options('y', 'y', 'y');
    assert_eq!(
        plan_entry("http://h/", "Download/", "notes.txt", "[TXT]", &all),
        Some(EntryAction::Unrecognised {
            link: "http://h/notes.txt".to_string(),
            href: "notes.txt".to_string(),
        })
    );
}
