use audire_sync::client::{self, WebDavClient};
use audire_sync::contents;
use audire_sync::http::{Header, HttpMethod, HttpReply, HttpRequest, Status};
use audire_sync::listing::{element_of, list_entries, parse_webdav_xml, Piece};

fn client() -> WebDavClient {
    WebDavClient::new("https://dav.example.com/files/", "user", "pass").unwrap()
}

fn answer<B>(code: u16, body: B) -> Result<HttpReply<B>, String> {
    Ok(HttpReply { status: Status::new(code).unwrap(), body: Ok(body) })
}

fn header<'a>(request: &'a HttpRequest, name: &str) -> Option<&'a str> {
    request.headers.iter().find(|h: &&Header| h.name == name).map(|h: &Header| h.value.as_str())
}

#[test]
fn test_webdav_client_url_normalization() {
    let c1 = WebDavClient::new("app.koofr.net/dav/Koofr", "user", "pass").unwrap();
    assert_eq!(c1.base_url, "https://app.koofr.net/dav/Koofr");

    let c2 = WebDavClient::new("http://my-nas.local:5005/webdav/", "user", "pass").unwrap();
    assert_eq!(c2.base_url, "http://my-nas.local:5005/webdav/");
}

#[test]
fn normal_addresses_stay() {
    for url in ["  dav.example.com ", "http://a/", "https://a", "", "\u{3000}x\u{a0}", "HTTP://a"] {
        let once = WebDavClient::new(url, "u", "p").unwrap().base_url;
        let twice = WebDavClient::new(&once, "u", "p").unwrap().base_url;
        assert_eq!(once, twice);
        assert!(once.starts_with("http://") || once.starts_with("https://"));
    }
    assert_eq!(WebDavClient::new("  a.b ", "u", "p").unwrap().base_url, "https://a.b");
    assert_eq!(WebDavClient::new("HTTP://a", "u", "p").unwrap().base_url, "https://HTTP://a");
    assert_eq!(WebDavClient::new("", "u", "p").unwrap().base_url, "https://");
}

#[test]
fn credentials_are_basic_authentication() {
    let c = WebDavClient::new("a", "  Aladdin ", "open sesame").unwrap();
    assert_eq!(c.auth_header, "Basic QWxhZGRpbjpvcGVuIHNlc2FtZQ==");
    let c = WebDavClient::new("a", "user", " p ").unwrap();
    assert_eq!(c.auth_header, "Basic dXNlcjogcCA=");
    let c = WebDavClient::new("a", "", "").unwrap();
    assert_eq!(c.auth_header, "Basic Og==");
    let c = WebDavClient::new("a", "\u{111}", "\n").unwrap();
    assert_eq!(c.auth_header, "Basic xJE6Cg==");
}

#[test]
fn every_request_is_authorised() {
    let c = WebDavClient::new("a", "na\nme", "\u{0}\u{7f}\u{1F600}").unwrap();
    let requests = vec![
        c.test_connection(),
        c.mkdir("/x"),
        c.upload_bytes("/x", vec![1]),
        c.download_bytes("/x"),
        c.list_files("/x"),
        c.remove("/x"),
        c.get_file_size("/x"),
    ];
    for request in &requests {
        assert_eq!(header(request, "authorization"), Some(c.auth_header.as_str()));
    }
}

#[test]
fn credentials_that_cannot_be_sent_are_left_out() {
    let mut c = client();
    c.auth_header = "Basic\u{1}".to_string();
    assert_eq!(c.headers().len(), 0);
    c.auth_header = "Basic\tx".to_string();
    assert_eq!(c.headers().len(), 1);
    c.auth_header = "Basic \u{7f}".to_string();
    assert_eq!(c.headers().len(), 0);
}

#[test]
fn requests_name_method_address_and_body() {
    let c = client();
    let r = c.mkdir("//AudireReader");
    assert_eq!(r.method, HttpMethod::Mkcol);
    assert_eq!(r.method.name(), "MKCOL");
    assert_eq!(r.url, "https://dav.example.com/files/AudireReader");
    assert!(r.body.is_none());

    let r = c.upload_bytes("/a/b", vec![1, 2, 3]);
    assert_eq!(r.method.name(), "PUT");
    assert_eq!(r.url, "https://dav.example.com/files/a/b");
    assert_eq!(r.body, Some(vec![1, 2, 3]));

    let r = c.download_bytes("a/b/");
    assert_eq!(r.method.name(), "GET");
    assert_eq!(r.url, "https://dav.example.com/files/a/b/");

    let r = c.remove("/a");
    assert_eq!(r.method.name(), "DELETE");
    assert_eq!(header(&r, "depth"), None);

    let r = c.list_files("/a");
    assert_eq!(r.method.name(), "PROPFIND");
    assert_eq!(header(&r, "depth"), Some("1"));

    let r = c.get_file_size("/a");
    assert_eq!(r.method.name(), "PROPFIND");
    assert_eq!(header(&r, "depth"), Some("0"));

    let r = c.test_connection();
    assert_eq!(r.url, "https://dav.example.com/files/");
    assert_eq!(header(&r, "depth"), Some("0"));
}

#[test]
fn paths_are_joined_by_one_slash() {
    let mut c = client();
    for (base, path) in [("https://h/f", "p"), ("https://h/f/", "p"), ("https://h/f//", "//p")] {
        c.base_url = base.to_string();
        assert_eq!(c.remove(path).url, "https://h/f/p");
    }
    assert_eq!(c.remove("").url, "https://h/f/");
}

#[test]
fn replies_to_a_probe() {
    for (code, found) in [(200, true), (207, true), (299, true), (301, false), (401, false), (500, false)] {
        assert_eq!(WebDavClient::test_connection_reply(answer(code, ())), Ok(found));
    }
    assert_eq!(
        WebDavClient::test_connection_reply(Err("no route".to_string())),
        Err("no route".to_string())
    );
}

#[test]
fn replies_to_mkdir_and_remove() {
    assert_eq!(WebDavClient::mkdir_reply(answer(201, ())), Ok(true));
    assert_eq!(WebDavClient::mkdir_reply(answer(405, ())), Ok(true));
    assert_eq!(WebDavClient::mkdir_reply(answer(409, ())), Ok(false));
    assert_eq!(WebDavClient::mkdir_reply(Err("x".to_string())), Err("x".to_string()));
    assert_eq!(WebDavClient::remove_reply(answer(204, ())), Ok(true));
    assert_eq!(WebDavClient::remove_reply(answer(404, ())), Ok(false));
    assert_eq!(WebDavClient::remove_reply(Err("x".to_string())), Err("x".to_string()));
}

#[test]
fn replies_to_an_upload() {
    assert_eq!(WebDavClient::upload_bytes_reply("/a", answer(201, ())), Ok(true));
    assert_eq!(
        WebDavClient::upload_bytes_reply("/a", answer(507, ())),
        Err("Upload failed for '/a' with status: 507 Insufficient Storage".to_string())
    );
    assert_eq!(
        WebDavClient::upload_bytes_reply("/a", answer(599, ())),
        Err("Upload failed for '/a' with status: 599 <unknown status code>".to_string())
    );
    assert_eq!(
        WebDavClient::upload_bytes_reply("/a", Err("reset".to_string())),
        Err("reset".to_string())
    );
}

#[test]
fn replies_to_a_download() {
    assert_eq!(WebDavClient::download_bytes_reply("/a", answer(200, vec![7])), Ok(vec![7]));
    assert_eq!(
        WebDavClient::download_bytes_reply("/a", answer(200, vec![])),
        Err("File '/a' on WebDAV is empty (0 bytes)".to_string())
    );
    assert_eq!(
        WebDavClient::download_bytes_reply("/a", answer(404, vec![7])),
        Err("Download failed for '/a' with status: 404 Not Found".to_string())
    );
    let cut = Ok(HttpReply { status: Status::new(200).unwrap(), body: Err("cut off".to_string()) });
    assert_eq!(WebDavClient::download_bytes_reply("/a", cut), Err("cut off".to_string()));
}

const ONE_FILE: &str =
    "<d:multistatus><d:response><d:href>/f</d:href><d:getcontentlength>42</d:getcontentlength></d:response></d:multistatus>";

#[test]
fn replies_to_a_question_for_the_size() {
    assert_eq!(
        WebDavClient::get_file_size_reply(answer(207, ONE_FILE.to_string())),
        Ok(Some(42))
    );
    assert_eq!(WebDavClient::get_file_size_reply(answer(404, ONE_FILE.to_string())), Ok(None));
    assert_eq!(WebDavClient::get_file_size_reply(answer(200, "<a></a>".to_string())), Ok(None));
    assert!(WebDavClient::get_file_size_reply(answer(207, "<a></b>".to_string())).is_err());
    assert_eq!(WebDavClient::file_exists(Ok(Some(0))), Ok(true));
    assert_eq!(WebDavClient::file_exists(Ok(None)), Ok(false));
    assert_eq!(WebDavClient::file_exists_and_non_empty(Ok(Some(0))), Ok(false));
    assert_eq!(WebDavClient::file_exists_and_non_empty(Ok(Some(1))), Ok(true));
    assert_eq!(WebDavClient::file_exists_and_non_empty(Ok(None)), Ok(false));
    assert_eq!(
        WebDavClient::file_exists_and_non_empty(Err("x".to_string())),
        Err("x".to_string())
    );
    assert_eq!(WebDavClient::file_exists(Err("x".to_string())), Err("x".to_string()));
}

#[test]
fn replies_to_a_listing() {
    let files = WebDavClient::list_files_reply(answer(207, ONE_FILE.to_string())).unwrap();
    assert_eq!(files.len(), 1);
    assert_eq!(files[0].name, "f");
    assert_eq!(files[0].size, 42);
    assert_eq!(
        WebDavClient::list_files_reply(answer(403, String::new())).unwrap_err(),
        "PROPFIND failed with status: 403 Forbidden"
    );
}

#[test]
fn statuses_lie_between_bounds() {
    assert!(Status::new(99).is_none());
    assert_eq!(Status::new(100).unwrap().code(), 100);
    assert_eq!(Status::new(999).unwrap().code(), 999);
    assert!(Status::new(1000).is_none());
    assert!(!Status::new(199).unwrap().is_success());
    assert!(!Status::new(300).unwrap().is_success());
    assert_eq!(Status::new(200).unwrap().text(), "200 OK");
}

#[test]
fn test_webdav_xml_parsing() {
    let sample_xml = r#"<?xml version="1.0" encoding="utf-8"?>
        <d:multistatus xmlns:d="DAV:">
            <d:response>
                <d:href>/dav/Koofr/AudireReader/books/</d:href>
                <d:propstat>
                    <d:prop>
                        <d:displayname>books</d:displayname>
                        <d:resourcetype><d:collection/></d:resourcetype>
                        <d:getcontentlength>0</d:getcontentlength>
                    </d:prop>
                    <d:status>HTTP/1.1 200 OK</d:status>
                </d:propstat>
            </d:response>
            <d:response>
                <d:href>/dav/Koofr/AudireReader/books/my_book.json.gz</d:href>
                <d:propstat>
                    <d:prop>
                        <d:displayname>my_book.json.gz</d:displayname>
                        <d:resourcetype/>
                        <d:getcontentlength>123456</d:getcontentlength>
                        <d:getlastmodified>Wed, 19 Aug 2026 06:51:09 GMT</d:getlastmodified>
                    </d:prop>
                    <d:status>HTTP/1.1 200 OK</d:status>
                </d:propstat>
            </d:response>
        </d:multistatus>"#;

    let files = parse_webdav_xml(sample_xml).expect("Should parse XML");
    assert_eq!(files.len(), 2);
    assert_eq!(files[0].name, "books");
    assert_eq!(files[0].is_dir, true);
    assert_eq!(files[1].name, "my_book.json.gz");
    assert_eq!(files[1].is_dir, false);
    assert_eq!(files[1].size, 123456);
    assert_eq!(files[1].path, "/dav/Koofr/AudireReader/books/my_book.json.gz");
    assert_eq!(files[1].last_modified, "Wed, 19 Aug 2026 06:51:09 GMT");
}

#[test]
fn names_come_from_the_path_where_none_is_given() {
    let files = parse_webdav_xml(
        "<m><RESPONSE><href>/a/b%20c/</href></RESPONSE><response><href>///</href></response>\
         <response><href> x&amp;y </href><collection></collection></response></m>",
    )
    .unwrap();
    assert_eq!(files.len(), 2);
    assert_eq!(files[0].name, "b%20c");
    assert_eq!(files[0].path, "/a/b%20c/");
    assert!(!files[0].is_dir);
    assert_eq!(files[1].name, "x&y");
    assert!(files[1].is_dir);
}

#[test]
fn odd_sizes_count_as_nothing() {
    for (text, size) in [
        ("12", 12),
        ("-3", -3),
        ("+7", 7),
        ("", 0),
        ("1.5", 0),
        ("abc", 0),
        ("9223372036854775807", i64::MAX),
        ("9223372036854775808", 0),
        ("-9223372036854775808", i64::MIN),
    ] {
        let xml = format!(
            "<r><response><href>f</href><getcontentlength>{}</getcontentlength></response></r>",
            text
        );
        assert_eq!(parse_webdav_xml(&xml).unwrap()[0].size, size);
    }
}

#[test]
fn text_outside_a_response_is_passed_over() {
    let files = parse_webdav_xml(
        "<r><href>/lost</href><response><displayname>n</displayname><other>o</other></response></r>",
    )
    .unwrap();
    assert_eq!(files.len(), 1);
    assert_eq!(files[0].name, "n");
    assert_eq!(files[0].path, "");
    assert_eq!(files[0].size, 0);
    assert_eq!(parse_webdav_xml("").unwrap().len(), 0);
}

#[test]
fn entries_stand_in_the_order_of_the_document() {
    let one = "<r><response><href>1</href></response>";
    let two = "<response><href>2</href></response></r>";
    let names: Vec<String> = parse_webdav_xml(&format!("{}{}", one, two))
        .unwrap()
        .into_iter()
        .map(|f| f.name)
        .collect();
    assert_eq!(names, vec!["1", "2"]);
}

#[test]
fn faulty_documents_are_refused() {
    let error = parse_webdav_xml("<a></b>").unwrap_err();
    assert!(error.starts_with("XML error at position "), "{}", error);
    assert!(error.contains("MismatchedEndTag"), "{}", error);
}

#[test]
fn test_gzip_roundtrip() {
    let original_data = b"Hello, AudireReader WebDAV synchronization test!".repeat(100);

    let compressed = contents::pack(&original_data).unwrap();
    assert!(compressed.starts_with(&[0x1f, 0x8b]));
    assert!(compressed.len() < original_data.len());

    let decompressed = contents::unpack(compressed).unwrap();
    assert_eq!(decompressed, original_data);
}

#[test]
fn plain_bytes_are_left_as_they_are() {
    assert_eq!(contents::unpack(b"{}".to_vec()).unwrap(), b"{}".to_vec());
    assert_eq!(contents::unpack(vec![0x1f]).unwrap(), vec![0x1f]);
    assert_eq!(contents::unpack(vec![]).unwrap(), Vec::<u8>::new());
    let empty = contents::pack(&Vec::new()).unwrap();
    assert_eq!(contents::unpack(empty).unwrap(), Vec::<u8>::new());
    let error = contents::unpack(vec![0x1f, 0x8b, 0xff]).unwrap_err();
    assert!(error.starts_with("Failed to decompress gzip book data: "), "{}", error);
}

#[test]
fn entries_come_from_pieces() {
    let tag = |name: &str| Piece::Start(name.to_string());
    let end = |name: &str| Piece::End(name.to_string());
    let text = |data: &str| Piece::Text(Some(data.to_string()));
    let files = list_entries(vec![
        Piece::Other,
        tag("response"),
        tag("href"),
        text(" /a/b/ "),
        end("href"),
        text("lost"),
        Piece::Empty("collection".to_string()),
        tag("getcontentlength"),
        text("17"),
        tag("displayname"),
        Piece::Text(None),
        end("displayname"),
        end("response"),
        Piece::Empty("collection".to_string()),
    ])
    .unwrap();
    assert_eq!(files.len(), 1);
    assert_eq!(files[0].name, "b");
    assert_eq!(files[0].path, "/a/b/");
    assert_eq!(files[0].size, 17);
    assert!(files[0].is_dir);
    let error = list_entries(vec![Piece::Failed(12, "Bad".to_string()), tag("response")]);
    assert_eq!(error.unwrap_err(), "XML error at position 12: Bad");
}

#[test]
fn messages() {
    assert_eq!(client::upload_message("/p", "500 X"), "Upload failed for '/p' with status: 500 X");
    assert_eq!(
        client::download_message("/p", "500 X"),
        "Download failed for '/p' with status: 500 X"
    );
    assert_eq!(client::listing_message("500 X"), "PROPFIND failed with status: 500 X");
    assert_eq!(
        contents::explain(Err("eof".to_string())),
        Err("Failed to decompress gzip book data: eof".to_string())
    );
    assert_eq!(contents::explain(Ok(vec![1])), Ok(vec![1]));
}

#[test]
fn without_an_http_client_there_is_no_client() {
    let failed = WebDavClient::assemble(Err("no tls".to_string()), "a", "b", "c");
    assert_eq!(failed.err().unwrap(), "Failed to build HTTP client: no tls");
    let built = WebDavClient::new("a", "b", "c").unwrap().client;
    let made = WebDavClient::assemble(Ok(built), " h ", " u ", "p").unwrap();
    assert_eq!(made.base_url, "https://h");
    assert_eq!(made.auth_header, "Basic dTpw");
}

fn shown(xml: &str) -> Vec<(String, String, bool, i64, String)> {
    parse_webdav_xml(xml)
        .unwrap()
        .into_iter()
        .map(|f| (f.name, f.path, f.is_dir, f.size, f.last_modified))
        .collect()
}

#[test]
fn responses_are_read_apart() {
    let a = "<response><href>/a/</href><collection/><getcontentlength>3</getcontentlength></response>\
             <response><href>/b</href><displayname>B</displayname></response>";
    let b = "<response><href>/c</href><getlastmodified>now</getlastmodified></response>";
    let alone = |list: &str| shown(&format!("<m>{}</m>", list));
    let mut both = alone(a);
    both.extend(alone(b));
    assert_eq!(both.len(), 3);
    assert_eq!(alone(&format!("{}{}", a, b)), both);
    assert_eq!(alone(&format!("{}{}", a, "")), alone(a));
    assert!(parse_webdav_xml(&format!("<m>{}<x></y></m>", a)).is_err());
}

#[test]
fn prefixes_and_letter_case_of_tags_do_not_count() {
    let plain = "<multistatus><response><href>/a/</href><resourcetype><collection/></resourcetype>\
                 <getcontentlength>3</getcontentlength></response></multistatus>";
    let prefixed = "<D:multistatus><D:response><D:href>/a/</D:href><D:resourcetype><D:collection/>\
                    </D:resourcetype><D:getcontentlength>3</D:getcontentlength></D:response></D:multistatus>";
    let cased = "<d:MultiStatus><d:RESPONSE><d:Href>/a/</d:Href><d:ResourceType><d:Collection/>\
                 </d:ResourceType><d:GetContentLength>3</d:GetContentLength></d:RESPONSE></d:MultiStatus>";
    let expected = vec![("a".to_string(), "/a/".to_string(), true, 3, String::new())];
    assert_eq!(shown(plain), expected);
    assert_eq!(shown(prefixed), expected);
    assert_eq!(shown(cased), expected);
    assert_eq!(element_of(b"GetContentLength"), "getcontentlength");
    assert_eq!(element_of(&[0xc3, 0x84, 0xff]), "\u{e4}\u{fffd}");
}
