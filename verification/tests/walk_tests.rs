use listing_downloader::listing::DownloadOptions;
use listing_downloader::walk::{Command, Outcome, Walk};

const TOP: &str = r#"<table>
<tr><td><img alt="[PARENTDIR]"></td><td><a href="/">Parent</a></td></tr>
<tr><td><img alt="[DIR]"></td><td><a href="sub/">sub/</a></td></tr>
<tr><td><img alt="[   ]"></td><td><a href="top.pdf">top.pdf</a></td></tr>
<tr><td><img alt="[TXT]"></td><td><a href="read.me">read.me</a></td></tr>
</table>"#;

const SUB: &str = r#"<table>
<tr><td><img alt="[IMG]"></td><td><a href="pic.png">pic.png</a></td></tr>
<tr><td><img alt="[   ]"></td><td><a href="doc.pdf">doc.pdf</a></td></tr>
</table>"#;

fn yes_to_all() -> DownloadOptions {
    DownloadOptions { download_pdfs: 'y', download_imgs: 'y', scan_subfolders: 'y' }
}

fn s(text: &str) -> String {
    text.to_string()
}

#[test]
fn walk_of_no_addresses_finishes() {
    let mut walk = Walk::new(vec![], yes_to_all());
    assert_eq!(walk.next(Outcome::Done), Command::Finished);
    assert_eq!(walk.next(Outcome::Done), Command::Finished);
}

#[test]
fn walk_goes_depth_first_through_sub_listings() {
    let mut walk = Walk::new(vec![s("http://h/")], yes_to_all());
    assert_eq!(walk.next(Outcome::Done), Command::VisitPage { url: s("http://h/"), folder: s("Download/") });
    assert_eq!(
        walk.next(Outcome::Loaded(s(TOP))),
        Command::CreateFolder { link: s("http://h/sub/"), dir: s("Download/sub/") }
    );
    assert_eq!(walk.next(Outcome::Done), Command::VisitPage { url: s("http://h/sub/"), folder: s("Download/sub/") });
    assert_eq!(
        walk.next(Outcome::Loaded(s(SUB))),
        Command::Download { link: s("http://h/sub/pic.png"), folder: s("Download/sub/") }
    );
    assert_eq!(
        walk.next(Outcome::Done),
        Command::Download { link: s("http://h/sub/doc.pdf"), folder: s("Download/sub/") }
    );
    assert_eq!(walk.next(Outcome::Done), Command::Download { link: s("http://h/top.pdf"), folder: s("Download/") });
    assert_eq!(
        walk.next(Outcome::Done),
        Command::Unrecognised { link: s("http://h/read.me"), page_url: s("http://h/"), href: s("read.me") }
    );
    assert_eq!(walk.next(Outcome::Done), Command::Finished);
}

#[test]
fn failed_folder_creation_still_visits_the_folder() {
    let mut walk = Walk::new(vec![s("http://h/")], yes_to_all());
    walk.next(Outcome::Done);
    walk.next(Outcome::Loaded(s(TOP)));
    assert_eq!(walk.next(Outcome::Failed), Command::VisitPage { url: s("http://h/sub/"), folder: s("Download/sub/") });
}

#[test]
fn failed_download_abandons_the_whole_start_address() {
    let mut walk = Walk::new(vec![s("http://h/"), s("http://g/")], yes_to_all());
    walk.next(Outcome::Done);
    walk.next(Outcome::Loaded(s(TOP)));
    walk.next(Outcome::Done);
    assert_eq!(
        walk.next(Outcome::Loaded(s(SUB))),
        Command::Download { link: s("http://h/sub/pic.png"), folder: s("Download/sub/") }
    );
    assert_eq!(walk.next(Outcome::Failed), Command::VisitPage { url: s("http://g/"), folder: s("Download/") });
    assert_eq!(walk.next(Outcome::Failed), Command::Finished);
}

#[test]
fn failed_page_fetch_moves_to_the_next_address() {
    let mut walk = Walk::new(vec![s("a"), s("b")], yes_to_all());
    assert_eq!(walk.next(Outcome::Done), Command::VisitPage { url: s("a"), folder: s("Download/") });
    assert_eq!(walk.next(Outcome::Failed), Command::VisitPage { url: s("b"), folder: s("Download/") });
    assert_eq!(walk.next(Outcome::Loaded(s("<p>empty</p>"))), Command::Finished);
}

#[test]
fn answers_no_only_report() {
    let options = DownloadOptions { download_pdfs: 'n', download_imgs: 'N', scan_subfolders: 'x' };
    let mut walk = Walk::new(vec![s("http://h/")], options);
    walk.next(Outcome::Done);
    assert_eq!(walk.next(Outcome::Loaded(s(TOP))), Command::PassDirectory { link: s("http://h/sub/") });
    assert_eq!(walk.next(Outcome::Done), Command::PassDocument { link: s("http://h/top.pdf") });
}
