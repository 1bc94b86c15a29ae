//! The home page: post summaries laid out as cards and as a compact list.
use vstd::prelude::*;
use crate::text::{replace_str, replaced};

verus! {

/// The site's avatar image and its URL relative to the site root.
#[derive(Clone, Debug)]
pub struct Avatar {
    pub data: Vec<u8>,
    pub url: String,
}

impl Avatar {
    /// An avatar read from a file named `file_name`; it is served from `public/`.
    pub fn new(file_name: &str, data: Vec<u8>) -> (r: Self)
        ensures
            r.data == data,
            r.url@ == "public/"@ + file_name@,
    {
        let mut url = String::from_str("public/");
        url.append(file_name);
        Avatar { data, url }
    }
}

/// A post as the home page lists it.
#[derive(Clone, Debug)]
pub struct PostInfo {
    pub title: String,
    pub date: String,
    pub url: String,
    pub excerpt: String,
}

pub struct PostInfoView {
    pub title: Seq<char>,
    pub date: Seq<char>,
    pub url: Seq<char>,
    pub excerpt: Seq<char>,
}

impl View for PostInfo {
    type V = PostInfoView;

    open spec fn view(&self) -> PostInfoView {
        PostInfoView { title: self.title@, date: self.date@, url: self.url@, excerpt: self.excerpt@ }
    }
}

impl PostInfo {
    pub fn new(title: String, date: String, url: String, excerpt: String) -> (r: Self)
        ensures
            r.title == title,
            r.date == date,
            r.url == url,
            r.excerpt == excerpt,
    {
        PostInfo { title, date, url, excerpt }
    }
}

/// Everything the home page shows.
#[derive(Clone, Debug)]
pub struct IndexInfo {
    pub site_name: String,
    pub motto: String,
    pub github: String,
    pub email: String,
    pub date: String,
    pub avatar: Avatar,
    pub posts: Vec<PostInfo>,
}

impl IndexInfo {
    pub fn new(
        site_name: String,
        motto: String,
        github: String,
        email: String,
        date: String,
        avatar: Avatar,
        posts: Vec<PostInfo>,
    ) -> (r: Self)
        ensures
            r.site_name == site_name,
            r.motto == motto,
            r.github == github,
            r.email == email,
            r.date == date,
            r.avatar == avatar,
            r.posts == posts,
    {
        Self { site_name, motto, github, email, date, avatar, posts }
    }

}

/// What the home page binds, as plain sequences.
pub struct IndexView {
    pub site_name: Seq<char>,
    pub motto: Seq<char>,
    pub github: Seq<char>,
    pub email: Seq<char>,
    pub date: Seq<char>,
    pub avatar_url: Seq<char>,
    pub posts: Seq<PostInfoView>,
}

pub open spec fn infos_view(ps: Seq<PostInfo>) -> Seq<PostInfoView> {
    ps.map_values(|p: PostInfo| p@)
}

impl View for IndexInfo {
    type V = IndexView;

    open spec fn view(&self) -> IndexView {
        IndexView {
            site_name: self.site_name@,
            motto: self.motto@,
            github: self.github@,
            email: self.email@,
            date: self.date@,
            avatar_url: self.avatar.url@,
            posts: infos_view(self.posts@),
        }
    }
}

/// The rendered home page.
#[derive(Clone, Debug)]
pub struct HTMLIndexPage(pub String);

/// The text a home-page template is made of.
#[derive(Clone, Debug)]
pub struct IndexTemplate(pub String);

/// How many of the first posts are shown as cards.
pub const CARD_COUNT: usize = 3;

/// The fragment of one post shown as a card.
pub const CARD_TEMPLATE: &'static str = r###"
            <article class="blog-card">
                <div class="post-date">
                    <i class="fa fa-calendar-o date-icon"></i>
                    <time datetime="{{date}}">{{date}}</time>
                </div>
                <h3 class="post-title">
                    <a href="{{url}}">{{title}}</a>
                </h3>
                <p class="post-excerpt">
                    {{excerpt}}
                </p>
                <a href="{{url}}" class="read-more">
                    阅读全文
                    <i class="fa fa-long-arrow-right"></i>
                </a>
            </article>
        "###;

/// The fragment of one post shown as a row of the compact list.
pub const ROW_TEMPLATE: &'static str = r###"
            <li>
                <a href="{{url}}">
                    <i class="fa fa-angle-right list-bullet"></i>
                    <span class="list-date">{{date}}</span>
                    <span>{{title}}</span>
                </a>
            </li>
        "###;

pub open spec fn card_html(p: PostInfoView) -> Seq<char> {
    replaced(
        replaced(
            replaced(replaced(CARD_TEMPLATE@, "{{title}}"@, p.title), "{{date}}"@, p.date),
            "{{url}}"@,
            p.url,
        ),
        "{{excerpt}}"@,
        p.excerpt,
    )
}

pub open spec fn row_html(p: PostInfoView) -> Seq<char> {
    replaced(
        replaced(replaced(ROW_TEMPLATE@, "{{title}}"@, p.title), "{{date}}"@, p.date),
        "{{url}}"@,
        p.url,
    )
}

/// The cards of `ps`, in order.
pub open spec fn cards_of(ps: Seq<PostInfoView>) -> Seq<char>
    decreases ps.len(),
{
    if ps.len() == 0 {
        Seq::empty()
    } else {
        cards_of(ps.drop_last()) + card_html(ps.last())
    }
}

/// The compact rows of `ps`, in order.
pub open spec fn rows_of(ps: Seq<PostInfoView>) -> Seq<char>
    decreases ps.len(),
{
    if ps.len() == 0 {
        Seq::empty()
    } else {
        rows_of(ps.drop_last()) + row_html(ps.last())
    }
}

/// How many of `n` posts are shown as cards.
pub open spec fn card_count(n: int) -> int {
    if n < CARD_COUNT {
        n
    } else {
        CARD_COUNT as int
    }
}

/// The card fragment: the first posts, up to the card count.
pub open spec fn card_fragment(ps: Seq<PostInfoView>) -> Seq<char> {
    cards_of(ps.subrange(0, card_count(ps.len() as int)))
}

/// The compact fragment: every post after the cards.
pub open spec fn compact_fragment(ps: Seq<PostInfoView>) -> Seq<char> {
    rows_of(ps.subrange(card_count(ps.len() as int), ps.len() as int))
}

/// The home-page template with the site's tokens bound, then the two fragments.
pub open spec fn index_page(template: Seq<char>, info: IndexView) -> Seq<char> {
    let ps = info.posts;
    let s = replaced(template, "{{site_name}}"@, info.site_name);
    let s = replaced(s, "{{motto}}"@, info.motto);
    let s = replaced(s, "{{avatar}}"@, info.avatar_url);
    let s = replaced(s, "{{github}}"@, info.github);
    let s = replaced(s, "{{email}}"@, info.email);
    let s = replaced(s, "{{date}}"@, info.date);
    let s = replaced(s, "{{post_cards}}"@, card_fragment(ps));
    replaced(s, "{{post_cards_style_2}}"@, compact_fragment(ps))
}

/// Of the summaries handed to the home page, the first ones up to the card
/// count become cards and exactly the rest become compact rows; with no more
/// posts than the card count the compact list is empty.
pub proof fn lemma_fragments_split(ps: Seq<PostInfoView>)
    ensures
        card_fragment(ps) == cards_of(ps.take(card_count(ps.len() as int))),
        compact_fragment(ps) == rows_of(ps.skip(card_count(ps.len() as int))),
        ps.len() <= CARD_COUNT ==> compact_fragment(ps) == Seq::<char>::empty(),
        ps.len() >= CARD_COUNT ==> card_fragment(ps) == cards_of(ps.take(3)) && compact_fragment(ps)
            == rows_of(ps.skip(3)),
{
    let k = card_count(ps.len() as int);
    assert(ps.take(k) =~= ps.subrange(0, k));
    assert(ps.skip(k) =~= ps.subrange(k, ps.len() as int));
    if ps.len() <= CARD_COUNT {
        assert(ps.subrange(k, ps.len() as int) =~= Seq::empty());
    }
}

fn card_of(p: &PostInfo) -> (r: String)
    ensures
        r@ == card_html(p@),
{
    proof {
        reveal_strlit("{{title}}");
        reveal_strlit("{{date}}");
        reveal_strlit("{{url}}");
        reveal_strlit("{{excerpt}}");
    }
    let s = replace_str(CARD_TEMPLATE, "{{title}}", p.title.as_str());
    let s = replace_str(s.as_str(), "{{date}}", p.date.as_str());
    let s = replace_str(s.as_str(), "{{url}}", p.url.as_str());
    replace_str(s.as_str(), "{{excerpt}}", p.excerpt.as_str())
}

fn row_of(p: &PostInfo) -> (r: String)
    ensures
        r@ == row_html(p@),
{
    proof {
        reveal_strlit("{{title}}");
        reveal_strlit("{{date}}");
        reveal_strlit("{{url}}");
    }
    let s = replace_str(ROW_TEMPLATE, "{{title}}", p.title.as_str());
    let s = replace_str(s.as_str(), "{{date}}", p.date.as_str());
    replace_str(s.as_str(), "{{url}}", p.url.as_str())
}

impl IndexTemplate {
    pub fn new(text: String) -> (r: Self)
        ensures
            r.0 == text,
    {
        IndexTemplate(text)
    }

    /// The home page: site name, motto, avatar URL, GitHub link, email and
    /// year bound, then the card and compact fragments of the posts.
    pub fn render(&self, index: IndexInfo) -> (r: HTMLIndexPage)
        ensures
            r.0@ == index_page(self.0@, index@),
    {
        proof {
            reveal_strlit("{{site_name}}");
            reveal_strlit("{{motto}}");
            reveal_strlit("{{avatar}}");
            reveal_strlit("{{github}}");
            reveal_strlit("{{email}}");
            reveal_strlit("{{date}}");
            reveal_strlit("{{post_cards}}");
            reveal_strlit("{{post_cards_style_2}}");
        }
        let ghost ps = index@.posts;
        let s = replace_str(self.0.as_str(), "{{site_name}}", index.site_name.as_str());
        let s = replace_str(s.as_str(), "{{motto}}", index.motto.as_str());
        let s = replace_str(s.as_str(), "{{avatar}}", index.avatar.url.as_str());
        let s = replace_str(s.as_str(), "{{github}}", index.github.as_str());
        let s = replace_str(s.as_str(), "{{email}}", index.email.as_str());
        let s = replace_str(s.as_str(), "{{date}}", index.date.as_str());

        let mut cards = String::new();
        let mut rows = String::new();
        let n = index.posts.len();
        let mut i: usize = 0;
        while i < n
            invariant
                i <= n,
                n == ps.len(),
                ps == index@.posts,
                cards@ == cards_of(ps.subrange(0, card_count(i as int))),
                rows@ == rows_of(ps.subrange(card_count(i as int), i as int)),
            decreases n - i,
        {
            let post = &index.posts[i];
            if i < CARD_COUNT {
                let c = card_of(post);
                cards.append(c.as_str());
                proof {
                    let pre = ps.subrange(0, i + 1);
                    assert(pre.drop_last() =~= ps.subrange(0, i as int));
                    assert(ps.subrange(i + 1, i + 1) =~= Seq::<PostInfoView>::empty());
                    assert(ps.subrange(i as int, i as int) =~= Seq::<PostInfoView>::empty());
                }
            } else {
                let c = row_of(post);
                rows.append(c.as_str());
                proof {
                    let pre = ps.subrange(CARD_COUNT as int, i + 1);
                    assert(pre.drop_last() =~= ps.subrange(CARD_COUNT as int, i as int));
                }
            }
            i += 1;
        }
        let s = replace_str(s.as_str(), "{{post_cards}}", cards.as_str());
        let s = replace_str(s.as_str(), "{{post_cards_style_2}}", rows.as_str());
        HTMLIndexPage(s)
    }
}

} // verus!
