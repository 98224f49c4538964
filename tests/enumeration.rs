use creator_mirror::context::{resolve_context, Context, InvalidInput};
use creator_mirror::descriptor::{File, RawFile};
use creator_mirror::listing::{
    detail_files, detail_url, flatten_posts, listing_page_url, Cursor, ListingPage, Post, Props, PAGE_SIZE,
};
use creator_mirror::transfer::destination_path;

fn ctx() -> Context {
    resolve_context("https://kemono.su/patreon/user/123").unwrap()
}

fn raw(name: &str, path: &str) -> RawFile {
    RawFile { name: Some(name.to_string()), server: None, path: Some(path.to_string()) }
}

fn post(id: &str, file: Option<RawFile>, attachments: Option<Vec<RawFile>>) -> Post {
    Post { id: Some(id.to_string()), file, attachments }
}

fn page(count: Option<u64>, n: usize) -> ListingPage {
    let results = (0..n).map(|i| post(&i.to_string(), Some(raw("a.png", "/a/b/a.png")), None)).collect();
    ListingPage { props: Some(Props { count }), results: Some(results) }
}

#[test]
fn resolves_host_path_and_creator() {
    let c = ctx();
    assert_eq!(c.host, "kemono.su");
    assert_eq!(c.creator_path, "patreon/user/123");
    assert_eq!(c.creator_id, "123");
}

#[test]
fn rejects_unparsable_url() {
    assert_eq!(resolve_context("not a url"), Err(InvalidInput::Unparsable));
}

#[test]
fn rejects_url_without_host() {
    assert_eq!(resolve_context("mailto:someone@example.com"), Err(InvalidInput::NoHost));
}

#[test]
fn rejects_url_without_creator_segment() {
    assert_eq!(resolve_context("https://kemono.su/"), Err(InvalidInput::NoCreator));
    assert_eq!(resolve_context("https://kemono.su/patreon/user/"), Err(InvalidInput::NoCreator));
}

#[test]
fn listing_url_carries_offset() {
    assert_eq!(
        listing_page_url(&ctx(), 50),
        "https://kemono.su/api/v1/patreon/user/123/posts-legacy?o=50"
    );
    assert_eq!(Cursor::new(PAGE_SIZE).page_url(&ctx()), "https://kemono.su/api/v1/patreon/user/123/posts-legacy?o=0");
}

#[test]
fn three_posts_need_one_page() {
    let c = ctx();
    let mut cur = Cursor::new(PAGE_SIZE);
    let p = page(Some(3), 3);
    let mut requests = 0;
    let mut files: Vec<File> = Vec::new();
    while !cur.finished {
        requests += 1;
        files.extend(cur.advance(&p));
    }
    assert_eq!(requests, 1);
    assert_eq!(files.len(), 3);
    for f in &files {
        assert!(destination_path("output", &c.creator_id, f).starts_with("output/123/"));
    }
}

#[test]
fn hundred_twenty_posts_need_three_pages() {
    let mut cur = Cursor::new(PAGE_SIZE);
    let mut offsets = Vec::new();
    let mut received = 0u64;
    while !cur.finished {
        offsets.push(cur.offset);
        let n = std::cmp::min(50, 120 - cur.offset) as usize;
        received += n as u64;
        cur.advance(&page(Some(120), n));
    }
    assert_eq!(offsets, vec![0, 50, 100]);
    assert_eq!(received, 120);
    assert_eq!(cur.total, Some(120));
}

#[test]
fn first_reported_total_stays() {
    let mut cur = Cursor::new(PAGE_SIZE);
    cur.advance(&page(Some(120), 50));
    cur.advance(&page(Some(10), 50));
    assert_eq!(cur.total, Some(120));
    assert!(!cur.finished);
}

#[test]
fn empty_page_ends_walk_without_total() {
    let mut cur = Cursor::new(PAGE_SIZE);
    cur.advance(&ListingPage { props: None, results: Some(Vec::new()) });
    assert!(cur.finished);
    assert_eq!(cur.total, None);
    let mut cur = Cursor::new(PAGE_SIZE);
    cur.advance(&ListingPage { props: None, results: None });
    assert!(cur.finished);
}

#[test]
fn walk_without_total_goes_on_while_pages_hold_posts() {
    let mut cur = Cursor::new(PAGE_SIZE);
    cur.advance(&ListingPage { props: None, results: page(None, 50).results });
    assert!(!cur.finished);
    assert_eq!(cur.offset, 50);
}

#[test]
fn props_without_count_leaves_total_unknown() {
    let mut cur = Cursor::new(PAGE_SIZE);
    cur.advance(&page(None, 50));
    assert_eq!(cur.total, None);
    assert!(!cur.finished);
    assert_eq!(cur.offset, 50);
}

#[test]
fn page_without_files_ends_walk() {
    let mut cur = Cursor::new(PAGE_SIZE);
    let p = ListingPage { props: None, results: Some(vec![post("1", None, None), post("2", None, Some(vec![]))]) };
    let files = cur.advance(&p);
    assert!(files.is_empty());
    assert!(cur.finished);
    let mut cur = Cursor::new(PAGE_SIZE);
    cur.advance(&page(Some(500), 50));
    let files = cur.advance(&ListingPage { props: Some(Props { count: Some(500) }), results: Some(vec![post("9", None, None)]) });
    assert!(files.is_empty());
    assert!(cur.finished);
    assert_eq!(cur.offset, 100);
}

#[test]
fn advance_returns_page_descriptors() {
    let mut cur = Cursor::new(PAGE_SIZE);
    let p = ListingPage {
        props: Some(Props { count: Some(1) }),
        results: Some(vec![post("4", Some(raw("m.mp4", "/m.mp4")), Some(vec![raw("t.jpg", "/t.jpg")]))]),
    };
    let files = cur.advance(&p);
    assert_eq!(files, flatten_posts(p.results.as_ref().unwrap()));
    assert_eq!(files.len(), 2);
    assert!(cur.finished);
}

#[test]
fn finished_cursor_stays() {
    let mut cur = Cursor::new(PAGE_SIZE);
    cur.advance(&page(Some(3), 3));
    let before = cur;
    cur.advance(&page(Some(3), 3));
    assert_eq!(cur, before);
}

#[test]
fn flatten_tags_primary_and_attachments() {
    let posts = vec![post(
        "77",
        Some(raw("main.mp4", "/x/main.mp4")),
        Some(vec![raw("one.jpg", "/x/one.jpg"), raw("two.jpg", "/x/two.jpg")]),
    )];
    let files = flatten_posts(&posts);
    let names: Vec<&str> = files.iter().map(|f| f.name.as_str()).collect();
    assert_eq!(names, vec!["main.mp4", "one.jpg", "two.jpg"]);
    assert!(files.iter().all(|f| f.post_id.as_deref() == Some("77")));
    assert_eq!(files[1].path, "/x/one.jpg");
}

#[test]
fn flatten_skips_unusable_entries() {
    let broken = RawFile { name: Some("n".to_string()), server: None, path: None };
    let posts = vec![
        post("1", Some(broken.clone()), Some(vec![raw("ok.jpg", "/ok.jpg"), broken])),
        post("2", None, Some(vec![raw("b.jpg", "/b.jpg")])),
        Post { id: None, file: Some(raw("c.jpg", "/c.jpg")), attachments: None },
    ];
    let files = flatten_posts(&posts);
    assert_eq!(files.len(), 2);
    assert_eq!(files[0].name, "b.jpg");
    assert_eq!(files[0].post_id.as_deref(), Some("2"));
    assert_eq!(files[1].name, "c.jpg");
    assert_eq!(files[1].post_id, None);
}

#[test]
fn flatten_keeps_server_override() {
    let mut r = raw("s.png", "/s.png");
    r.server = Some("https://n2.kemono.su".to_string());
    let files = flatten_posts(&vec![post("5", Some(r), None)]);
    assert_eq!(files[0].server.as_deref(), Some("https://n2.kemono.su"));
}

#[test]
fn detail_url_names_post() {
    assert_eq!(detail_url(&ctx(), "991"), "https://kemono.su/api/v1/patreon/user/123/post/991");
}

#[test]
fn detail_files_isolate_failure() {
    let id = "991".to_string();
    assert!(detail_files(&id, &None).is_empty());
    let files = detail_files(&id, &Some(vec![raw("a.zip", "/a.zip"), raw("b.zip", "/b.zip")]));
    assert_eq!(files.len(), 2);
    assert!(files.iter().all(|f| f.post_id.as_deref() == Some("991")));
    let bad = RawFile { name: None, server: None, path: Some("/c".to_string()) };
    assert!(detail_files(&id, &Some(vec![raw("a.zip", "/a.zip"), bad])).is_empty());
}
