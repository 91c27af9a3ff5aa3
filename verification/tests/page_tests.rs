use listing_downloader::listing::{DownloadOptions, EntryAction};
use listing_downloader::page::{plan_page, plan_tables};
use listing_downloader::scrape::ListingRow;

const LISTING: &str = r#"<html><head><title>Index of /pdfs</title></head><body>
<h1>Index of /pdfs</h1>
<table>
<tr><th valign="top"><img src="/icons/blank.gif" alt="[ICO]"></th><th><a href="?C=N;O=D">Name</a></th></tr>
<tr><td valign="top"><img src="/icons/back.gif" alt="[PARENTDIR]"></td><td><a href="/">Parent Directory</a></td></tr>
<tr><td valign="top"><img src="/icons/folder.gif" alt="[DIR]"></td><td><a href="books/">books/</a></td></tr>
<tr><td valign="top"><img src="/icons/image2.gif" alt="[IMG]"></td><td><a href="cover.jpg">cover.jpg</a></td></tr>
<tr><td valign="top"><img src="/icons/layout.gif" alt="[   ]"></td><td><a href="manual.pdf">manual.pdf</a></td></tr>
<tr><td valign="top"><img src="/icons/text.gif" alt="[TXT]"></td><td><a href="notes.txt">notes.txt</a></td></tr>
<tr><td valign="top"><img src="/icons/text.gif"></td><td><a href="untitled">untitled</a></td></tr>
<tr><td>no icon</td><td><a href="loose.pdf">loose.pdf</a></td></tr>
</table></body></html>"#;

fn options(pdfs: char, imgs: char, scan: char) -> DownloadOptions {
    DownloadOptions { download_pdfs: pdfs, download_imgs: imgs, scan_subfolders: scan }
}

fn row(links: &[Option<&str>], alts: &[Option<&str>]) -> ListingRow {
    ListingRow {
        links: links.iter().map(|l| l.map(String::from)).collect(),
        image_alts: alts.iter().map(|a| a.map(String::from)).collect(),
    }
}

#[test]
fn plan_page_reads_an_apache_listing() {
    let plan = plan_page("http://h/pdfs/", "Download/", LISTING, &options('y', 'y', 'y'));
    assert_eq!(
        plan,
        vec![
            EntryAction::Descend {
                link: "http://h/pdfs/books/".to_string(),
                local_dir: "Download/books/".to_string(),
                folder: "Download/books/".to_string(),
            },
            EntryAction::FetchImage {
                link: "http://h/pdfs/cover.jpg".to_string(),
                folder: "Download/".to_string(),
            },
            EntryAction::FetchDocument {
                link: "http://h/pdfs/manual.pdf".to_string(),
                folder: "Download/".to_string(),
            },
            EntryAction::Unrecognised {
                link: "http://h/pdfs/notes.txt".to_string(),
                href: "notes.txt".to_string(),
            },
        ]
    );
}

#[test]
fn plan_page_with_every_answer_no() {
    let plan = plan_page("http://h/pdfs/", "Download/", LISTING, &options('n', 'n', 'n'));
    assert_eq!(
        plan,
        vec![
            EntryAction::PassDirectory { link: "http://h/pdfs/books/".to_string() },
            EntryAction::PassImage { link: "http://h/pdfs/cover.jpg".to_string() },
            EntryAction::PassDocument { link: "http://h/pdfs/manual.pdf".to_string() },
            EntryAction::Unrecognised {
                link: "http://h/pdfs/notes.txt".to_string(),
                href: "notes.txt".to_string(),
            },
        ]
    );
}

#[test]
fn plan_page_without_tables_is_empty() {
    let plan = plan_page("http://h/", "Download/", "<p><a href=\"x.pdf\">x</a></p>", &options('y', 'y', 'y'));
    assert_eq!(plan, vec![]);
    assert_eq!(plan_page("http://h/", "Download/", "", &options('y', 'y', 'y')), vec![]);
}

#[test]
fn plan_tables_pairs_each_link_with_each_image() {
    let tables = vec![vec![row(&[Some("a.pdf"), Some("b.jpg")], &[Some("[   ]"), None, Some("[IMG]")])]];
    let plan = plan_tables("u/", "D/", &tables, &options('y', 'n', 'n'));
    assert_eq!(
        plan,
        vec![
            EntryAction::FetchDocument { link: "u/a.pdf".to_string(), folder: "D/".to_string() },
            EntryAction::PassImage { link: "u/a.pdf".to_string() },
            EntryAction::FetchDocument { link: "u/b.jpg".to_string(), folder: "D/".to_string() },
            EntryAction::PassImage { link: "u/b.jpg".to_string() },
        ]
    );
}

#[test]
fn plan_tables_of_two_tables_is_both_plans_in_order() {
    let first = vec![row(&[Some("x/")], &[Some("[DIR]")])];
    let second = vec![row(&[Some("y.txt")], &[Some("[TXT]")]), row(&[Some("/")], &[Some("[PARENTDIR]")])];
    let opts = options('n', 'n', 'y');
    let both = plan_tables("u/", "D/", &vec![first, second], &opts);
    assert_eq!(
        both,
        vec![
            EntryAction::Descend {
                link: "u/x/".to_string(),
                local_dir: "Download/x/".to_string(),
                folder: "D/x/".to_string(),
            },
            EntryAction::Unrecognised { link: "u/y.txt".to_string(), href: "y.txt".to_string() },
        ]
    );
}

#[test]
fn plan_page_reads_every_table_and_uppercase_attributes() {
    let html = "<table><tr><td><IMG ALT='[IMG]'></td><td><A HREF='a.png'>a</A></td></tr></table>\
                <table><tr><td><img alt='[   ]'><a href='b.pdf'>b</a></td></tr></table>";
    let plan = plan_page("u/", "D/", html, &options('y', 'y', 'n'));
    assert_eq!(
        plan,
        vec![
            EntryAction::FetchImage { link: "u/a.png".to_string(), folder: "D/".to_string() },
            EntryAction::FetchDocument { link: "u/b.pdf".to_string(), folder: "D/".to_string() },
        ]
    );
}
