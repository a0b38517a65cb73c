use http_serve::listing::render_dir_listing;
use http_serve::listing::EntryName;
use http_serve::paths::resolve_path;
use http_serve::paths::verify_path;
use http_serve::response::file_handler;
use http_serve::response::DirOutcome;
use http_serve::response::FileOutcome;
use http_serve::response::FsObservation;
use http_serve::response::RawOutcome;
use http_serve::response::ResponseBody;

#[test]
fn missing_path_is_404_naming_path() {
    let r = file_handler("missing.txt", FsObservation::Missing);
    assert_eq!(r.status, 404);
    match r.body {
        ResponseBody::Error(m) => assert_eq!(m, "File missing.txt not found!"),
        _ => panic!("expected an error body"),
    }
}

#[test]
fn text_file_round_trips() {
    let obs = FsObservation::File(FileOutcome::Text(String::from("hello")));
    let r = file_handler("index.txt", obs);
    assert_eq!(r.status, 200);
    match r.body {
        ResponseBody::Text(t) => assert_eq!(t, "hello"),
        _ => panic!("expected a text body"),
    }
}

#[test]
fn binary_fallback_round_trips() {
    let bytes: Vec<u8> = vec![0xFF, 0xFE, 0x00, 0x01];
    let obs = FsObservation::File(FileOutcome::NotUtf8(RawOutcome::Bytes(bytes.clone())));
    let r = file_handler("image.bin", obs);
    assert_eq!(r.status, 200);
    match r.body {
        ResponseBody::Bytes(b) => assert_eq!(b, bytes),
        _ => panic!("expected a byte body"),
    }
}

#[test]
fn root_listing_has_one_item_per_child_plus_parent() {
    let entries: Vec<EntryName> = vec![
        EntryName::Utf8(String::from("index.txt")),
        EntryName::Utf8(String::from("image.bin")),
    ];
    let r = file_handler("", FsObservation::Directory(DirOutcome::Listed(entries)));
    assert_eq!(r.status, 200);
    match r.body {
        ResponseBody::Html(h) => {
            assert_eq!(
                h,
                "<html><body><li><a href=>.</li> \
                 <li><a href=%2Findex.txt>\"index.txt\"</li> \
                 <li><a href=%2Fimage.bin>\"image.bin\"</li> \
                 </body></html>"
            );
            let items: usize = h.matches("<li").count();
            assert_eq!(items, 3);
            assert!(h.contains(">.</li>"));
            assert!(h.contains("index.txt"));
            assert!(h.contains("image.bin"));
        }
        _ => panic!("expected an HTML body"),
    }
}

#[test]
fn empty_directory_lists_only_parent() {
    let r = file_handler("d", FsObservation::Directory(DirOutcome::Listed(vec![])));
    assert_eq!(r.status, 200);
    match r.body {
        ResponseBody::Html(h) => {
            assert_eq!(h, "<html><body><li><a href=d>.</li> </body></html>");
            let items: usize = h.matches("<li").count();
            assert_eq!(items, 1);
        }
        _ => panic!("expected an HTML body"),
    }
}

#[test]
fn listing_link_percent_encodes_space() {
    let entries: Vec<EntryName> = vec![EntryName::Utf8(String::from("a b.txt"))];
    let h = render_dir_listing("dir", &entries);
    assert_eq!(
        h,
        "<html><body><li><a href=dir>.</li> \
         <li><a href=dir%2Fa%20b.txt>\"a b.txt\"</li> \
         </body></html>"
    );
    assert!(h.contains("%20"));
}

#[test]
fn listing_shows_raw_entry_unlinked() {
    let entries: Vec<EntryName> = vec![
        EntryName::Utf8(String::from("ok.txt")),
        EntryName::Raw(String::from("\"bad\\xFFname\"")),
    ];
    let h = render_dir_listing("d", &entries);
    assert!(h.contains("<li>\"bad\\xFFname\"</li> "));
    let items: usize = h.matches("<li").count();
    assert_eq!(items, 3);
    let links: usize = h.matches("<a href=").count();
    assert_eq!(links, 2);
}

#[test]
fn enumeration_failure_is_500_with_message() {
    let obs = FsObservation::Directory(DirOutcome::EnumFailed(String::from(
        "permission denied",
    )));
    let r = file_handler("locked", obs);
    assert_eq!(r.status, 500);
    match r.body {
        ResponseBody::Error(m) => {
            assert_eq!(m, "permission denied");
            assert!(!m.is_empty());
        }
        _ => panic!("expected an error body"),
    }
}

#[test]
fn other_read_failure_is_500_with_message() {
    let obs = FsObservation::File(FileOutcome::ReadFailed(String::from(
        "Permission denied (os error 13)",
    )));
    let r = file_handler("secret.txt", obs);
    assert_eq!(r.status, 500);
    match r.body {
        ResponseBody::Error(m) => assert_eq!(m, "Permission denied (os error 13)"),
        _ => panic!("expected an error body"),
    }
}

#[test]
fn failed_raw_reread_is_500_with_message() {
    let obs = FsObservation::File(FileOutcome::NotUtf8(RawOutcome::RawFailed(String::from(
        "unexpected end of file",
    ))));
    let r = file_handler("image.bin", obs);
    assert_eq!(r.status, 500);
    match r.body {
        ResponseBody::Error(m) => assert_eq!(m, "unexpected end of file"),
        _ => panic!("expected an error body"),
    }
}

#[test]
fn resolve_path_joins_with_separator() {
    assert_eq!(resolve_path("root", "sub/file.txt"), "root/sub/file.txt");
    assert_eq!(resolve_path(".", ""), "./");
}

#[test]
fn verify_path_accepts_existing_directory() {
    let r = verify_path("assets", true, true);
    assert_eq!(r, Ok(String::from("assets")));
}

#[test]
fn verify_path_rejects_missing_or_file() {
    let missing = verify_path("gone", false, false);
    assert_eq!(missing, Err("Path does not exist or is not a directory"));
    let not_dir = verify_path("plain.txt", true, false);
    assert_eq!(not_dir, Err("Path does not exist or is not a directory"));
}
