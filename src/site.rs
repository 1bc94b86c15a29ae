//! The whole build: every post rendered with its metadata, the home page
//! assembled from their summaries, and the files laid out under an output root.
use vstd::prelude::*;
use crate::index::{
    Avatar, HTMLIndexPage, IndexInfo, IndexTemplate, IndexView, PostInfo, PostInfoView,
    index_page, infos_view,
};
use crate::posts::{
    HTMLPost, MetadataView, PostMetadataList, PostTemplate, RawPost, heading_html,
    markdown_html, opt_strings_view, opt_view, post_page, post_url, shown_date, shown_tags,
    shown_time, default_date, no_tags, tag_separator, date_token, tags_token,
    lemma_page_shows_date_and_tags,
};
use crate::text::{joined, lacks};

verus! {

/// The site's settings.
#[derive(Clone, Debug)]
pub struct SiteConfig {
    pub blog_name: String,
    pub avatar_path: String,
    pub email: String,
    pub github: String,
    pub motto: String,
}

impl SiteConfig {
    pub fn new(
        blog_name: String,
        avatar_path: String,
        email: String,
        github: String,
        motto: String,
    ) -> (r: Self)
        ensures
            r.blog_name == blog_name,
            r.avatar_path == avatar_path,
            r.email == email,
            r.github == github,
            r.motto == motto,
    {
        SiteConfig { blog_name, avatar_path, email, github, motto }
    }
}

/// A post's date once the metadata is applied: the recorded one when its name
/// has an entry, else its own.
pub open spec fn merged_date(p: RawPost, m: Map<Seq<char>, MetadataView>) -> Option<Seq<char>> {
    if m.contains_key(p.name@) {
        Some(m[p.name@].date)
    } else {
        opt_view(p.date)
    }
}

/// A post's tags once the metadata is applied.
pub open spec fn merged_tags(p: RawPost, m: Map<Seq<char>, MetadataView>) -> Option<
    Seq<Seq<char>>,
> {
    if m.contains_key(p.name@) {
        Some(m[p.name@].tags)
    } else {
        opt_strings_view(p.tags)
    }
}

/// The page a post with loaded content becomes under metadata `m`.
pub open spec fn site_page(p: RawPost, m: Map<Seq<char>, MetadataView>, template: Seq<char>) -> Seq<
    char,
> {
    post_page(
        template,
        shown_date(merged_date(p, m)),
        shown_time(p.content->0@),
        shown_tags(merged_tags(p, m)),
        heading_html(p.name@),
        markdown_html(p.content->0@),
    )
}

/// The home-page summary of a post under metadata `m`; the excerpt is empty.
pub open spec fn site_summary(p: RawPost, m: Map<Seq<char>, MetadataView>) -> PostInfoView {
    PostInfoView {
        title: p.name@,
        date: shown_date(merged_date(p, m)),
        url: post_url(p.name@),
        excerpt: Seq::empty(),
    }
}

pub open spec fn site_summaries(ps: Seq<RawPost>, m: Map<Seq<char>, MetadataView>) -> Seq<
    PostInfoView,
> {
    ps.map_values(|p: RawPost| site_summary(p, m))
}

/// A post whose name has metadata shows the recorded date and tags; one
/// without shows the default date and the no-tags label.
pub proof fn lemma_metadata_binding(p: RawPost, m: Map<Seq<char>, MetadataView>, template: Seq<char>)
    ensures
        m.contains_key(p.name@) ==> site_page(p, m, template) == post_page(
            template,
            m[p.name@].date,
            shown_time(p.content->0@),
            joined(m[p.name@].tags, tag_separator()),
            heading_html(p.name@),
            markdown_html(p.content->0@),
        ),
        !m.contains_key(p.name@) && p.date is None && p.tags is None ==> site_page(p, m, template)
            == post_page(
            template,
            default_date(),
            shown_time(p.content->0@),
            no_tags(),
            heading_html(p.name@),
            markdown_html(p.content->0@),
        ),
{
}

/// The metadata of a post stands verbatim in its page. For a template whose
/// first tokens are the date token and then the tags token, with no `<`
/// before or between them, the page begins with the recorded date and the
/// recorded tags joined by a middle dot where the post's name has metadata
/// (neither holding `<`), and with the default date and the no-tags label
/// where it has none.
pub proof fn lemma_page_shows_metadata(
    p: RawPost,
    m: Map<Seq<char>, MetadataView>,
    a: Seq<char>,
    b: Seq<char>,
    c: Seq<char>,
)
    requires
        lacks(a, '<'),
        lacks(b, '<'),
    ensures
        ({
            let template = a + date_token() + b + tags_token() + c;
            let rest = |d: Seq<char>, t: Seq<char>|
                post_page(
                    c,
                    d,
                    shown_time(p.content->0@),
                    t,
                    heading_html(p.name@),
                    markdown_html(p.content->0@),
                );
            &&& m.contains_key(p.name@) && lacks(m[p.name@].date, '<') && lacks(
                joined(m[p.name@].tags, tag_separator()),
                '<',
            ) ==> {
                let d = m[p.name@].date;
                let t = joined(m[p.name@].tags, tag_separator());
                site_page(p, m, template) == a + d + b + t + rest(d, t)
            }
            &&& !m.contains_key(p.name@) && p.date is None && p.tags is None ==> site_page(
                p,
                m,
                template,
            ) == a + default_date() + b + no_tags() + rest(default_date(), no_tags())
        }),
{
    let time = shown_time(p.content->0@);
    let heading = heading_html(p.name@);
    let body = markdown_html(p.content->0@);
    if m.contains_key(p.name@) && lacks(m[p.name@].date, '<') && lacks(
        joined(m[p.name@].tags, tag_separator()),
        '<',
    ) {
        lemma_page_shows_date_and_tags(
            a,
            b,
            c,
            m[p.name@].date,
            time,
            joined(m[p.name@].tags, tag_separator()),
            heading,
            body,
        );
    }
    if !m.contains_key(p.name@) && p.date is None && p.tags is None {
        reveal_strlit("----.--.--");
        reveal_strlit("无标签");
        let d = default_date();
        let t = no_tags();
        assert(d.len() == 10 && t.len() == 3);
        assert(lacks(d, '<')) by {
            assert(d[0] != '<' && d[1] != '<' && d[2] != '<' && d[3] != '<' && d[4] != '<');
            assert(d[5] != '<' && d[6] != '<' && d[7] != '<' && d[8] != '<' && d[9] != '<');
        }
        assert(lacks(t, '<')) by {
            assert(t[0] != '<' && t[1] != '<' && t[2] != '<');
        }
        lemma_page_shows_date_and_tags(a, b, c, d, time, t, heading, body);
    }
}

/// What a build produces: one page per post, in order, and the home page.
pub struct SiteOutput {
    pub pages: Vec<HTMLPost>,
    pub index: HTMLIndexPage,
}

/// Everything a build reads: settings, posts, metadata and both templates.
#[derive(Clone, Debug)]
pub struct SiteFactory {
    pub blog_name: String,
    pub avatar: Avatar,
    pub email: String,
    pub github: String,
    pub motto: String,
    pub posts: Vec<RawPost>,
    pub metadata: PostMetadataList,
    pub post_template: PostTemplate,
    pub index_template: IndexTemplate,
}

impl SiteFactory {
    pub fn new(
        blog_name: String,
        avatar: Avatar,
        email: String,
        github: String,
        motto: String,
        posts: Vec<RawPost>,
        metadata: PostMetadataList,
        post_template: PostTemplate,
        index_template: IndexTemplate,
    ) -> (r: Self)
        ensures
            r.blog_name == blog_name,
            r.avatar == avatar,
            r.email == email,
            r.github == github,
            r.motto == motto,
            r.posts == posts,
            r.metadata == metadata,
            r.post_template == post_template,
            r.index_template == index_template,
    {
        SiteFactory {
            blog_name,
            avatar,
            email,
            github,
            motto,
            posts,
            metadata,
            post_template,
            index_template,
        }
    }

    /// What the home page binds for this site in year `year`.
    pub open spec fn index_view(self, year: Seq<char>) -> IndexView {
        IndexView {
            site_name: self.blog_name@,
            motto: self.motto@,
            github: self.github@,
            email: self.email@,
            date: year,
            avatar_url: self.avatar.url@,
            posts: site_summaries(self.posts@, self.metadata@),
        }
    }

    /// Whether `out` is the build of this site in year `year`.
    pub open spec fn renders(self, year: Seq<char>, out: SiteOutput) -> bool {
        &&& out.pages@.len() == self.posts@.len()
        &&& forall|i: int|
            0 <= i < self.posts@.len() ==> {
                &&& #[trigger] out.pages@[i].name@ == self.posts@[i].name@
                &&& out.pages@[i].content@ == site_page(
                    self.posts@[i],
                    self.metadata@,
                    self.post_template.0@,
                )
            }
        &&& out.index.0@ == index_page(self.index_template.0@, self.index_view(year))
    }

    /// Renders every post, in order, with its metadata, and the home page from
    /// their summaries; `year` is the year the home page shows.
    pub fn render_site(self, year: String) -> (r: SiteOutput)
        requires
            forall|i: int| 0 <= i < self.posts@.len() ==> (#[trigger] self.posts@[i]).content is Some,
        ensures
            self.renders(year@, r),
    {
        let ghost input = self;
        let ghost m = self.metadata@;
        let SiteFactory {
            blog_name,
            avatar,
            email,
            github,
            motto,
            mut posts,
            metadata,
            post_template,
            index_template,
        } = self;
        let n = posts.len();
        let mut pages: Vec<HTMLPost> = Vec::new();
        let mut infos: Vec<PostInfo> = Vec::new();
        let mut k: usize = 0;
        while k < n
            invariant
                k <= n,
                n == input.posts@.len(),
                posts@ == input.posts@.subrange(k as int, n as int),
                m == metadata@,
                post_template == input.post_template,
                forall|i: int| 0 <= i < n ==> (#[trigger] input.posts@[i]).content is Some,
                pages@.len() == k,
                infos@.len() == k,
                forall|i: int|
                    0 <= i < k ==> {
                        &&& #[trigger] pages@[i].name@ == input.posts@[i].name@
                        &&& pages@[i].content@ == site_page(
                            input.posts@[i],
                            m,
                            post_template.0@,
                        )
                    },
                infos_view(infos@) == site_summaries(input.posts@.subrange(0, k as int), m),
            decreases n - k,
        {
            let ghost first = input.posts@[k as int];
            let mut post = posts.remove(0);
            assert(post == first);
            post.apply_metadata(&metadata);
            let ghost merged = post;
            let (info, page) = post.render(&post_template);
            assert(merged.page_of(post_template.0@) == site_page(first, m, post_template.0@));
            assert(info@ == site_summary(first, m));
            let ghost info_v = info@;
            let ghost old_infos = infos@;
            pages.push(page);
            infos.push(info);
            k += 1;
            assert(posts@ =~= input.posts@.subrange(k as int, n as int));
            proof {
                let sub = input.posts@.subrange(0, k as int);
                let prev = input.posts@.subrange(0, k - 1);
                assert forall|j: int| 0 <= j < k implies infos_view(infos@)[j] == site_summaries(
                    sub,
                    m,
                )[j] by {
                    if j < k - 1 {
                        assert(infos@[j] == old_infos[j]);
                        assert(infos_view(old_infos)[j] == site_summaries(prev, m)[j]);
                        assert(sub[j] == prev[j]);
                    } else {
                        assert(infos@[j]@ == info_v);
                        assert(sub[j] == first);
                    }
                }
                assert(infos_view(infos@) =~= site_summaries(sub, m));
            }
        }
        assert(input.posts@.subrange(0, n as int) =~= input.posts@);
        let info = IndexInfo::new(blog_name, motto, github, email, year, avatar, infos);
        let index = index_template.render(info);
        SiteOutput { pages, index }
    }
}

/// Two builds of the same site in the same year agree page for page and on
/// the home page, byte for byte.
pub proof fn lemma_build_deterministic(f: SiteFactory, year: Seq<char>, a: SiteOutput, b: SiteOutput)
    requires
        f.renders(year, a),
        f.renders(year, b),
    ensures
        a.pages@.len() == b.pages@.len(),
        forall|i: int|
            0 <= i < a.pages@.len() ==> #[trigger] a.pages@[i].name@ == b.pages@[i].name@
                && a.pages@[i].content@ == b.pages@[i].content@,
        a.index.0@ == b.index.0@,
{
    assert forall|i: int| 0 <= i < a.pages@.len() implies #[trigger] a.pages@[i].name@
        == b.pages@[i].name@ && a.pages@[i].content@ == b.pages@[i].content@ by {
        assert(a.pages@[i].name@ == f.posts@[i].name@);
        assert(b.pages@[i].name@ == f.posts@[i].name@);
    }
}

/// One step of writing a build out.
#[derive(Clone, Debug)]
pub enum OutputAction {
    CreateDir(String),
    WriteText(String, String),
    WriteBytes(String, Vec<u8>),
}

pub enum ActionView {
    CreateDir(Seq<char>),
    WriteText(Seq<char>, Seq<char>),
    WriteBytes(Seq<char>, Seq<u8>),
}

impl View for OutputAction {
    type V = ActionView;

    open spec fn view(&self) -> ActionView {
        match self {
            OutputAction::CreateDir(p) => ActionView::CreateDir(p@),
            OutputAction::WriteText(p, t) => ActionView::WriteText(p@, t@),
            OutputAction::WriteBytes(p, b) => ActionView::WriteBytes(p@, b@),
        }
    }
}

pub open spec fn actions_view(s: Seq<OutputAction>) -> Seq<ActionView> {
    s.map_values(|a: OutputAction| a@)
}

pub open spec fn pages_view(s: Seq<HTMLPost>) -> Seq<(Seq<char>, Seq<char>)> {
    s.map_values(|p: HTMLPost| (p.name@, p.content@))
}

pub open spec fn page_write(out: Seq<char>, page: (Seq<char>, Seq<char>)) -> ActionView {
    ActionView::WriteText(out + "articles/"@ + page.0 + ".html"@, page.1)
}

/// The steps that write a build under the root `out` (which ends with its
/// separator): the `articles/` and `public/` directories first, then one page
/// per post under `articles/`, the avatar at its URL, and `index.html`.
pub open spec fn site_plan(
    out: Seq<char>,
    pages: Seq<(Seq<char>, Seq<char>)>,
    avatar_url: Seq<char>,
    avatar_data: Seq<u8>,
    index: Seq<char>,
) -> Seq<ActionView> {
    seq![ActionView::CreateDir(out + "articles/"@), ActionView::CreateDir(out + "public/"@)]
        + pages.map_values(|p: (Seq<char>, Seq<char>)| page_write(out, p)) + seq![
        ActionView::WriteBytes(out + avatar_url, avatar_data),
        ActionView::WriteText(out + "index.html"@, index),
    ]
}

/// Both output directories are created before any file is written: the plan
/// opens with them, and every later step is a write.
pub proof fn lemma_dirs_before_writes(
    out: Seq<char>,
    pages: Seq<(Seq<char>, Seq<char>)>,
    avatar_url: Seq<char>,
    avatar_data: Seq<u8>,
    index: Seq<char>,
)
    ensures
        ({
            let plan = site_plan(out, pages, avatar_url, avatar_data, index);
            &&& plan.len() == pages.len() + 4
            &&& plan[0] == ActionView::CreateDir(out + "articles/"@)
            &&& plan[1] == ActionView::CreateDir(out + "public/"@)
            &&& forall|i: int| 2 <= i < plan.len() ==> !(#[trigger] plan[i] is CreateDir)
        }),
{
    let plan = site_plan(out, pages, avatar_url, avatar_data, index);
    let writes = pages.map_values(|p: (Seq<char>, Seq<char>)| page_write(out, p));
    assert forall|i: int| 2 <= i < plan.len() implies !(#[trigger] plan[i] is CreateDir) by {
        if i < 2 + pages.len() {
            assert(plan[i] == writes[i - 2]);
        }
    }
}

/// The two directories a build writes into under the root `out_dir`:
/// `articles/` and `public/`, in that order.
pub fn output_dirs(out_dir: &str) -> (r: (String, String))
    ensures
        r.0@ == out_dir@ + "articles/"@,
        r.1@ == out_dir@ + "public/"@,
{
    let mut articles = String::from_str(out_dir);
    articles.append("articles/");
    let mut public = String::from_str(out_dir);
    public.append("public/");
    (articles, public)
}

/// Two builds of the same site in the same year, written under the same root
/// with the same avatar, write the same files with the same bytes.
pub proof fn lemma_same_files(
    f: SiteFactory,
    year: Seq<char>,
    a: SiteOutput,
    b: SiteOutput,
    out: Seq<char>,
    avatar: Avatar,
)
    requires
        f.renders(year, a),
        f.renders(year, b),
    ensures
        site_plan(out, pages_view(a.pages@), avatar.url@, avatar.data@, a.index.0@) == site_plan(
            out,
            pages_view(b.pages@),
            avatar.url@,
            avatar.data@,
            b.index.0@,
        ),
{
    lemma_build_deterministic(f, year, a, b);
    assert(pages_view(a.pages@) =~= pages_view(b.pages@));
}

/// The steps that write `output` and the avatar under the root `out_dir`.
pub fn output_plan(out_dir: &str, output: SiteOutput, avatar: Avatar) -> (r: Vec<OutputAction>)
    ensures
        actions_view(r@) == site_plan(
            out_dir@,
            pages_view(output.pages@),
            avatar.url@,
            avatar.data@,
            output.index.0@,
        ),
{
    let ghost pv = pages_view(output.pages@);
    let ghost plan = site_plan(out_dir@, pv, avatar.url@, avatar.data@, output.index.0@);
    let mut r: Vec<OutputAction> = Vec::new();
    let (articles, public) = output_dirs(out_dir);
    r.push(OutputAction::CreateDir(articles));
    r.push(OutputAction::CreateDir(public));
    let SiteOutput { pages, index } = output;
    let mut i: usize = 0;
    while i < pages.len()
        invariant
            i <= pages@.len(),
            pv == pages_view(pages@),
            plan == site_plan(out_dir@, pv, avatar.url@, avatar.data@, index.0@),
            r@.len() == i + 2,
            forall|j: int| 0 <= j < i + 2 ==> (#[trigger] r@[j])@ == plan[j],
        decreases pages@.len() - i,
    {
        let mut path = String::from_str(out_dir);
        path.append("articles/");
        path.append(pages[i].name.as_str());
        path.append(".html");
        let ghost before = r@;
        r.push(OutputAction::WriteText(path, pages[i].content.clone()));
        proof {
            assert(plan[i + 2] == page_write(out_dir@, pv[i as int]));
            assert forall|j: int| 0 <= j < i + 3 implies (#[trigger] r@[j])@ == plan[j] by {
                if j < i + 2 {
                    assert(r@[j] == before[j]);
                }
            }
        }
        i += 1;
    }
    let n = pages.len();
    let mut avatar_path = String::from_str(out_dir);
    avatar_path.append(avatar.url.as_str());
    let mut index_path = String::from_str(out_dir);
    index_path.append("index.html");
    let ghost data = avatar.data@;
    let ghost before = r@;
    r.push(OutputAction::WriteBytes(avatar_path, avatar.data));
    let ghost mid = r@;
    r.push(OutputAction::WriteText(index_path, index.0));
    proof {
        assert forall|j: int| 0 <= j < n + 4 implies (#[trigger] r@[j])@ == plan[j] by {
            if j < n + 2 {
                assert(r@[j] == before[j]);
            } else if j == n + 2 {
                assert(r@[j] == mid[j]);
            }
        }
        assert(actions_view(r@) =~= plan);
    }
    r
}

} // verus!
