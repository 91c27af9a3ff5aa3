use listing_downloader::text::{
    last_piece_text, leading_pieces_text, remove_all_text, same_text, split_text,
};

#[test]
fn split_text_gives_every_piece() {
    assert_eq!(split_text("a/b/c", '/'), vec!["a", "b", "c"]);
    assert_eq!(split_text("books/", '/'), vec!["books", ""]);
    assert_eq!(split_text("/top", '/'), vec!["", "top"]);
    assert_eq!(split_text("", '/'), vec![""]);
    assert_eq!(split_text("plain", '/'), vec!["plain"]);
    assert_eq!(split_text("a//b", '/'), vec!["a", "", "b"]);
}

#[test]
fn split_text_then_join_gives_back_the_text() {
    for s in ["a/b/c", "", "/", "//x/", "ü/ß/é"] {
        assert_eq!(split_text(s, '/').join("/"), s);
    }
}

#[test]
fn last_piece_is_the_file_name() {
    assert_eq!(last_piece_text("pdfs/book.pdf", '/'), "book.pdf");
    assert_eq!(last_piece_text("book.pdf", '/'), "book.pdf");
    assert_eq!(last_piece_text("books/", '/'), "");
    assert_eq!(last_piece_text("archive.tar.gz", '.'), "gz");
    assert_eq!(last_piece_text("README", '.'), "README");
}

#[test]
fn leading_pieces_stop_before_the_second_separator() {
    assert_eq!(leading_pieces_text("a/b/c/d", '/', "/", 2), "a/b");
    assert_eq!(leading_pieces_text("books/", '/', "/", 2), "books/");
    assert_eq!(leading_pieces_text("file.pdf", '/', "/", 2), "file.pdf");
    assert_eq!(leading_pieces_text("/x/y", '/', "/", 2), "/x");
    assert_eq!(leading_pieces_text("a/b/c", '/', "/", 1), "a");
    assert_eq!(leading_pieces_text("a/b/c", '/', "/", 0), "");
    assert_eq!(leading_pieces_text("a/b/c", '/', "/", 9), "a/b/c");
}

#[test]
fn remove_all_text_matches_replace_with_nothing() {
    assert_eq!(remove_all_text("Download/sub/file.pdf", "file.pdf"), "Download/sub/");
    assert_eq!(remove_all_text("aaa", "aa"), "a");
    assert_eq!(remove_all_text("abc", ""), "abc");
    assert_eq!(remove_all_text("abab", "ab"), "");
    assert_eq!(remove_all_text("aabb", "ab"), "ab");
    assert_eq!(remove_all_text("xy", "xyz"), "xy");
    for (s, p) in [("aaaa", "aa"), ("banana", "ana"), ("a.b.a", "a"), ("", "q"), ("ééé", "é")] {
        assert_eq!(remove_all_text(s, p), s.replace(p, ""));
    }
}

#[test]
fn same_text_compares_characters() {
    assert!(same_text("[DIR]", "[DIR]"));
    assert!(!same_text("[DIR]", "[DIR] "));
    assert!(!same_text("[IMG]", "[ICO]"));
    assert!(same_text("", ""));
}
