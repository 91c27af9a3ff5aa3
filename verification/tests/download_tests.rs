use listing_downloader::download::{plan_download, size_in_megabytes, DownloadPlan};
use listing_downloader::prompt::{first_answer, is_white_space};

#[test]
fn plan_download_names_the_file() {
    assert_eq!(
        plan_download("http://h/pdfs/book.tar.gz", "Download/pdfs/"),
        DownloadPlan {
            file_name: "book.tar.gz".to_string(),
            file_type: "gz".to_string(),
            path: "Download/pdfs/book.tar.gz".to_string(),
        }
    );
    assert_eq!(
        plan_download("http://h/dir/", "Download/"),
        DownloadPlan { file_name: "".to_string(), file_type: "".to_string(), path: "Download/".to_string() }
    );
    assert_eq!(
        plan_download("README", "x/"),
        DownloadPlan {
            file_name: "README".to_string(),
            file_type: "README".to_string(),
            path: "x/README".to_string(),
        }
    );
}

#[test]
fn size_in_megabytes_rounds_down() {
    assert_eq!(size_in_megabytes(0), 0);
    assert_eq!(size_in_megabytes(1048575), 0);
    assert_eq!(size_in_megabytes(1048576), 1);
    assert_eq!(size_in_megabytes(3 * 1048576 + 5), 3);
}

#[test]
fn first_answer_trims_the_line() {
    assert_eq!(first_answer("y\n"), Some('y'));
    assert_eq!(first_answer("  \tNo thanks\r\n"), Some('N'));
    assert_eq!(first_answer("\u{a0}\u{2003}y"), Some('y'));
    assert_eq!(first_answer("\n"), None);
    assert_eq!(first_answer(""), None);
    for line in ["  yes ", "\t\n", "é", " \u{3000}q"] {
        assert_eq!(first_answer(line), line.trim().chars().next());
    }
}

#[test]
fn is_white_space_agrees_with_std_on_every_char() {
    for code in 0u32..=0x10FFFF {
        if let Some(c) = char::from_u32(code) {
            assert_eq!(is_white_space(c), c.is_whitespace(), "U+{:04X}", code);
        }
    }
}
