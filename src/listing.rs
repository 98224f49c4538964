//! The paginated listing of a creator's posts: the shape of a page, the file
//! descriptors a page yields, and the cursor that decides which page comes next.

use vstd::prelude::*;
use crate::context::Context;
use crate::descriptor::{descriptor_of, opt_view, tagged, usable, File, FileModel, RawFile, RawFileModel};
use crate::text::{decimal, push_decimal};

verus! {

/// Number of posts the listing endpoint returns per page.
pub const PAGE_SIZE: u64 = 50;

/// One post of a listing page.
#[derive(Clone, Debug, PartialEq, Eq)]
pub struct Post {
    /// The post's identifier, when it is a string.
    pub id: Option<String>,
    /// The post's primary file object, if any.
    pub file: Option<RawFile>,
    /// The post's attachments, when the field is an array of file objects.
    pub attachments: Option<Vec<RawFile>>,
}

/// The mathematical model of a [`Post`].
pub ghost struct PostModel {
    pub id: Option<Seq<char>>,
    pub file: Option<RawFileModel>,
    pub attachments: Option<Seq<RawFileModel>>,
}

/// The views of raw file objects.
pub open spec fn raws_view(v: Vec<RawFile>) -> Seq<RawFileModel> {
    v@.map_values(|x: RawFile| x@)
}

impl View for Post {
    type V = PostModel;

    open spec fn view(&self) -> PostModel {
        PostModel {
            id: opt_view(self.id),
            file: match self.file {
                Some(f) => Some(f@),
                None => None,
            },
            attachments: match self.attachments {
                Some(a) => Some(raws_view(a)),
                None => None,
            },
        }
    }
}

/// The `props` object of a listing page.
#[derive(Clone, Copy, Debug, PartialEq, Eq, Structural)]
pub struct Props {
    /// The reported total number of posts, when it is an unsigned integer.
    pub count: Option<u64>,
}

/// One page of the listing.
#[derive(Clone, Debug, PartialEq, Eq)]
pub struct ListingPage {
    pub props: Option<Props>,
    pub results: Option<Vec<Post>>,
}

/// The views of posts.
pub open spec fn posts_view(v: Vec<Post>) -> Seq<PostModel> {
    v@.map_values(|x: Post| x@)
}

/// The views of file descriptors.
pub open spec fn files_view(v: Vec<File>) -> Seq<FileModel> {
    v@.map_values(|x: File| x@)
}

/// The descriptors of an attachments array: all of them when every entry is
/// usable, none otherwise.
pub open spec fn attachment_files(a: Option<Seq<RawFileModel>>, id: Option<Seq<char>>) -> Seq<FileModel> {
    match a {
        Some(s) => if forall|i: int| 0 <= i < s.len() ==> usable(#[trigger] s[i]) {
            s.map_values(|f: RawFileModel| tagged(f, id))
        } else {
            Seq::empty()
        },
        None => Seq::empty(),
    }
}

/// The descriptors of one post: its primary file, when usable, then its attachments.
pub open spec fn post_files(p: PostModel) -> Seq<FileModel> {
    let primary = match p.file {
        Some(f) => if usable(f) { seq![tagged(f, p.id)] } else { Seq::empty() },
        None => Seq::empty(),
    };
    primary + attachment_files(p.attachments, p.id)
}

/// The descriptors of a sequence of posts, in order.
pub open spec fn page_files(posts: Seq<PostModel>) -> Seq<FileModel>
    decreases posts.len(),
{
    if posts.len() == 0 {
        Seq::empty()
    } else {
        page_files(posts.drop_last()) + post_files(posts.last())
    }
}

/// Appends the descriptors of an attachments array to `out`.
fn push_attachments(out: &mut Vec<File>, a: &Vec<RawFile>, id: &Option<String>)
    ensures
        files_view(*final(out)) == files_view(*old(out)) + attachment_files(Some(raws_view(*a)), opt_view(*id)),
{
    let ghost s = raws_view(*a);
    let mut all = true;
    let mut i: usize = 0;
    while i < a.len()
        invariant
            i <= a.len(),
            s == raws_view(*a),
            all <==> forall|j: int| 0 <= j < i ==> usable(#[trigger] s[j]),
        decreases a.len() - i,
    {
        assert(s[i as int] == a@[i as int]@);
        if a[i].name.is_none() || a[i].path.is_none() {
            all = false;
        }
        i = i + 1;
        assert(all <==> forall|j: int| 0 <= j < i ==> usable(#[trigger] s[j])) by {
            if all {
                assert forall|j: int| 0 <= j < i implies usable(#[trigger] s[j]) by {
                    if j < i - 1 {
                    } else {
                        assert(s[j] == a@[j]@);
                    }
                }
            }
        }
    }
    if !all {
        assert(files_view(*out) =~= files_view(*out) + attachment_files(Some(s), opt_view(*id)));
        return;
    }
    let ghost start = files_view(*out);
    let mut k: usize = 0;
    while k < a.len()
        invariant
            k <= a.len(),
            s == raws_view(*a),
            forall|j: int| 0 <= j < s.len() ==> usable(#[trigger] s[j]),
            files_view(*out) == start + s.subrange(0, k as int).map_values(|f: RawFileModel| tagged(f, opt_view(*id))),
        decreases a.len() - k,
    {
        let d = descriptor_of(&a[k], id);
        assert(s[k as int] == a@[k as int]@);
        assert(usable(s[k as int]));
        let ghost before = files_view(*out);
        let ghost t = tagged(s[k as int], opt_view(*id));
        match d {
            Some(f) => {
                out.push(f);
                assert(files_view(*out) =~= before.push(t));
            },
            None => {},
        }
        assert(s.subrange(0, k + 1).map_values(|f: RawFileModel| tagged(f, opt_view(*id))) =~= s.subrange(
            0,
            k as int,
        ).map_values(|f: RawFileModel| tagged(f, opt_view(*id))).push(t));
        k = k + 1;
        assert(files_view(*out) =~= start + s.subrange(0, k as int).map_values(
            |f: RawFileModel| tagged(f, opt_view(*id)),
        ));
    }
    assert(s.subrange(0, a.len() as int) =~= s);
}

/// Appends the descriptors of one post to `out`.
pub fn push_post_files(out: &mut Vec<File>, p: &Post)
    ensures
        files_view(*final(out)) == files_view(*old(out)) + post_files(p@),
{
    let ghost start = files_view(*out);
    let ghost primary = match p@.file {
        Some(f) => if usable(f) { seq![tagged(f, p@.id)] } else { Seq::<FileModel>::empty() },
        None => Seq::<FileModel>::empty(),
    };
    match &p.file {
        Some(raw) => match descriptor_of(raw, &p.id) {
            Some(f) => out.push(f),
            None => {},
        },
        None => {},
    }
    assert(files_view(*out) =~= start + primary);
    let ghost mid = files_view(*out);
    match &p.attachments {
        Some(a) => push_attachments(out, a, &p.id),
        None => {},
    }
    assert(files_view(*out) =~= mid + attachment_files(p@.attachments, p@.id));
    assert(files_view(*out) =~= start + post_files(p@));
}

/// The file descriptors that a page's posts yield, in listing order: each post's
/// primary file, then its attachments, tagged with the post's identifier.
pub fn flatten_posts(posts: &Vec<Post>) -> (r: Vec<File>)
    ensures
        files_view(r) == page_files(posts_view(*posts)),
{
    let mut r: Vec<File> = Vec::new();
    let mut i: usize = 0;
    while i < posts.len()
        invariant
            i <= posts.len(),
            files_view(r) == page_files(posts_view(*posts).subrange(0, i as int)),
        decreases posts.len() - i,
    {
        let ghost next = posts_view(*posts).subrange(0, i + 1);
        assert(next.drop_last() =~= posts_view(*posts).subrange(0, i as int));
        push_post_files(&mut r, &posts[i]);
        i = i + 1;
    }
    assert(posts_view(*posts).subrange(0, posts.len() as int) =~= posts_view(*posts));
    r
}


/// The URL of the listing page that starts at `offset`.
pub open spec fn listing_url(host: Seq<char>, creator_path: Seq<char>, offset: nat) -> Seq<char> {
    "https://"@ + host + "/api/v1/"@ + creator_path + "/posts-legacy?o="@ + decimal(offset)
}

/// The URL of the listing page of `ctx` that starts at `offset`.
pub fn listing_page_url(ctx: &Context, offset: u64) -> (r: String)
    ensures
        r@ == listing_url(ctx.host@, ctx.creator_path@, offset as nat),
{
    let mut r = String::from_str("https://");
    r.append(ctx.host.as_str());
    r.append("/api/v1/");
    r.append(ctx.creator_path.as_str());
    r.append("/posts-legacy?o=");
    push_decimal(&mut r, offset);
    r
}

/// Where the walk through a listing stands.
#[derive(Clone, Copy, Debug, PartialEq, Eq, Structural)]
pub struct Cursor {
    /// Offset of the next page to request.
    pub offset: u64,
    /// The total number of posts, once a page has reported it.
    pub total: Option<u64>,
    /// Number of posts per page.
    pub page_size: u64,
    /// Whether no further page is to be requested: the known total was
    /// reached, a page yielded no file descriptor, or the offset cannot move on.
    pub finished: bool,
}

/// A fresh cursor at the first page.
pub open spec fn start(page_size: u64) -> Cursor {
    Cursor { offset: 0, total: None, page_size, finished: false }
}

/// The file descriptors that a page yields.
pub open spec fn page_entries(page: ListingPage) -> Seq<FileModel> {
    match page.results {
        Some(v) => page_files(posts_view(v)),
        None => Seq::empty(),
    }
}

/// The total that a cursor knows after a page with `props`: the first total
/// reported stays; a total is learned only from a `props` object with a count.
pub open spec fn learned_total(known: Option<u64>, props: Option<Props>) -> Option<u64> {
    match known {
        Some(t) => Some(t),
        None => match props {
            Some(pr) => pr.count,
            None => None,
        },
    }
}

/// The cursor after a page with `props` that yielded `n` file descriptors: the
/// offset moves on by a page, and the walk ends when the known total is
/// reached, when the page yielded no descriptor, or when the next offset would
/// not fit.
pub open spec fn step(c: Cursor, props: Option<Props>, n: nat) -> Cursor {
    if c.finished {
        c
    } else {
        let total = learned_total(c.total, props);
        if c.offset + c.page_size > u64::MAX {
            Cursor { offset: c.offset, total, page_size: c.page_size, finished: true }
        } else {
            let offset = (c.offset + c.page_size) as u64;
            Cursor {
                offset,
                total,
                page_size: c.page_size,
                finished: n == 0 || match total {
                    Some(t) => offset >= t,
                    None => false,
                },
            }
        }
    }
}

impl Cursor {
    /// A cursor at the first page of a listing with `page_size` posts per page.
    pub fn new(page_size: u64) -> (r: Cursor)
        requires
            page_size > 0,
        ensures
            r == start(page_size),
    {
        Cursor { offset: 0, total: None, page_size, finished: false }
    }

    /// The URL of the page to request next.
    pub fn page_url(&self, ctx: &Context) -> (r: String)
        ensures
            r@ == listing_url(ctx.host@, ctx.creator_path@, self.offset as nat),
    {
        listing_page_url(ctx, self.offset)
    }

    /// Takes in the page that was fetched at the current offset, and returns
    /// the file descriptors it yields.
    pub fn advance(&mut self, page: &ListingPage) -> (r: Vec<File>)
        ensures
            files_view(r) == page_entries(*page),
            *final(self) == step(*old(self), page.props, page_entries(*page).len()),
    {
        let files = match &page.results {
            Some(v) => flatten_posts(v),
            None => Vec::new(),
        };
        proof {
            if page.results is None {
                assert(files_view(files) =~= page_entries(*page));
            }
        }
        if self.finished {
            return files;
        }
        if self.total.is_none() {
            match page.props {
                Some(pr) => {
                    self.total = pr.count;
                },
                None => {},
            }
        }
        if self.offset > u64::MAX - self.page_size {
            self.finished = true;
            return files;
        }
        self.offset = self.offset + self.page_size;
        self.finished = files.len() == 0 || match self.total {
            Some(t) => self.offset >= t,
            None => false,
        };
        files
    }
}

/// The posts a listing of `t` posts holds on the page at `offset`, when every
/// page but the last is full.
pub open spec fn served(t: nat, p: nat, offset: nat) -> nat {
    if offset >= t {
        0
    } else if t - offset < p {
        (t - offset) as nat
    } else {
        p
    }
}

/// The cursor after at most `k` requests against a listing of `t` posts with
/// pages of `p` posts, each post yielding one file descriptor, that reports its
/// total on every page; and the number of descriptors received.
pub open spec fn walk(p: u64, t: u64, k: nat) -> (Cursor, nat)
    decreases k,
{
    if k == 0 {
        (start(p), 0)
    } else {
        let (c, m) = walk(p, t, (k - 1) as nat);
        if c.finished {
            (c, m)
        } else {
            let n = served(t as nat, p as nat, c.offset as nat);
            (step(c, Some(Props { count: Some(t) }), n), m + n)
        }
    }
}

proof fn lemma_walk_prefix(p: u64, t: u64, j: nat)
    requires
        p > 0,
        t > 0,
        j < (t + p - 1) / (p as int),
    ensures
        walk(p, t, j).0.offset == j * p,
        walk(p, t, j).0.total == (if j == 0 { None } else { Some(t) }),
        walk(p, t, j).0.page_size == p,
        !walk(p, t, j).0.finished,
        walk(p, t, j).1 == j * p,
    decreases j,
{
    let k = (t + p - 1) / (p as int);
    lemma_ceil_bounds(t as int, p as int);
    if j > 0 {
        let i = (j - 1) as nat;
        lemma_walk_prefix(p, t, i);
        assert(j * p == i * p + p) by (nonlinear_arith)
            requires j == i + 1;
        assert(j * p < t) by {
            assert(j * p <= (k - 1) * p) by (nonlinear_arith)
                requires j <= k - 1, p > 0;
        }
        let c = walk(p, t, i).0;
        assert(c.offset + p < t);
        assert(served(t as nat, p as nat, c.offset as nat) == p);
        assert(walk(p, t, j) == (step(c, Some(Props { count: Some(t) }), p as nat), (walk(p, t, i).1 + p) as nat));
    }
}

proof fn lemma_ceil_bounds(t: int, p: int)
    requires
        p > 0,
        t > 0,
    ensures
        ((t + p - 1) / p) * p >= t,
        ((t + p - 1) / p - 1) * p < t,
        ((t + p - 1) / p) * p <= t + p - 1,
        (t + p - 1) / p >= 1,
{
    let k = (t + p - 1) / p;
    let r = (t + p - 1) % p;
    vstd::arithmetic::div_mod::lemma_fundamental_div_mod(t + p - 1, p);
    assert(0 <= r < p);
    assert(t + p - 1 == p * k + r);
    assert(k * p == p * k) by (nonlinear_arith);
    assert((k - 1) * p == k * p - p) by (nonlinear_arith);
    assert(k >= 1) by (nonlinear_arith)
        requires t + p - 1 == p * k + r, r < p, t > 0, p > 0;
}

/// Walking a listing of `t > 0` posts with pages of `p > 0` posts, where every
/// page but the last is full and each post yields one file descriptor, requests
/// exactly `ceil(t / p)` pages, at offsets `0, p, 2p, ...`, and receives
/// exactly `t` descriptors.
pub proof fn lemma_page_count(t: u64, p: u64)
    requires
        p > 0,
        t > 0,
    ensures
        forall|j: nat|
            j < (t + p - 1) / (p as int) ==> !(#[trigger] walk(p, t, j)).0.finished && walk(p, t, j).0.offset
                == j * p,
        walk(p, t, ((t + p - 1) / (p as int)) as nat).0.finished,
        walk(p, t, ((t + p - 1) / (p as int)) as nat).1 == t,
{
    let k = (t + p - 1) / (p as int);
    lemma_ceil_bounds(t as int, p as int);
    assert forall|j: nat| j < k implies !(#[trigger] walk(p, t, j)).0.finished && walk(p, t, j).0.offset == j * p by {
        lemma_walk_prefix(p, t, j);
    }
    let i = (k - 1) as nat;
    lemma_walk_prefix(p, t, i);
    assert(i * p < t);
    assert(t <= i * p + p) by (nonlinear_arith)
        requires k * p >= t, i == k - 1;
    assert(walk(p, t, k as nat) == ({
        let (c, m) = walk(p, t, i);
        (step(c, Some(Props { count: Some(t) }), served(t as nat, p as nat, c.offset as nat)), m + served(t as nat, p as nat, c.offset as nat))
    }));
}

/// A page of posts that each carry one usable primary file and no attachments
/// yields exactly one file descriptor per post.
pub proof fn lemma_one_file_posts(posts: Seq<PostModel>)
    requires
        forall|i: int|
            #![trigger posts[i]]
            0 <= i < posts.len() ==> (posts[i].attachments is None && posts[i].file is Some && usable(posts[i].file.unwrap())),
    ensures
        page_files(posts).len() == posts.len(),
    decreases posts.len(),
{
    if posts.len() > 0 {
        let last = posts.last();
        assert(last == posts[posts.len() - 1]);
        assert(post_files(last) =~= seq![tagged(last.file.unwrap(), last.id)]);
        lemma_one_file_posts(posts.drop_last());
    }
}

/// The URL of the detail of post `id`.
pub open spec fn detail_url_of(host: Seq<char>, creator_path: Seq<char>, id: Seq<char>) -> Seq<char> {
    "https://"@ + host + "/api/v1/"@ + creator_path + "/post/"@ + id
}

/// The URL of the detail of post `id` of `ctx`'s creator.
pub fn detail_url(ctx: &Context, id: &str) -> (r: String)
    ensures
        r@ == detail_url_of(ctx.host@, ctx.creator_path@, id@),
{
    let mut r = String::from_str("https://");
    r.append(ctx.host.as_str());
    r.append("/api/v1/");
    r.append(ctx.creator_path.as_str());
    r.append("/post/");
    r.append(id);
    r
}

/// The descriptors that the detail of post `id` yields: its attachments, tagged
/// with `id`, when the detail was fetched and its attachments are all usable;
/// none when fetching or reading the detail failed.
pub open spec fn detail_files_of(id: Seq<char>, attachments: Option<Seq<RawFileModel>>) -> Seq<FileModel> {
    attachment_files(attachments, Some(id))
}

/// The descriptors of post `id` out of its detail's attachments; `None` stands
/// for a detail that could not be fetched or read.
pub fn detail_files(id: &String, attachments: &Option<Vec<RawFile>>) -> (r: Vec<File>)
    ensures
        files_view(r) == detail_files_of(
            id@,
            match attachments {
                Some(a) => Some(raws_view(*a)),
                None => None,
            },
        ),
{
    let mut r: Vec<File> = Vec::new();
    match attachments {
        Some(a) => {
            push_attachments(&mut r, a, &Some(id.clone()));
            assert(files_view(r) =~= Seq::empty() + attachment_files(Some(raws_view(*a)), Some(id@)));
        },
        None => {
            assert(files_view(r) =~= Seq::empty());
        },
    }
    r
}

} // verus!
