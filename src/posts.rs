//! Source records, per-post metadata and the post page renderer.
use vstd::prelude::*;
use pulldown_cmark::{html, Options, Parser};
use crate::text::{
    lacks, lemma_lacks_concat, lemma_replaced_front_match, lemma_replaced_front_other,
    lemma_replaced_skips_prefix, joined, replace_str, replaced, strings_view, join_strings,
};
use crate::reading::{minutes_label, minutes_of, reading_minutes, reading_time_label};
use crate::index::{PostInfo, PostInfoView};

verus! {

/// What a post's source is written in.
#[derive(Clone, Copy, Debug, PartialEq, Eq, Structural)]
pub enum SourceType {
    Markdown,
}

impl Default for SourceType {
    fn default() -> (r: Self)
        ensures
            r == SourceType::Markdown,
    {
        SourceType::Markdown
    }
}

/// A finished post page: the post's name and its full HTML text.
#[derive(Clone, Debug)]
pub struct HTMLPost {
    pub name: String,
    pub content: String,
}

impl HTMLPost {
    pub fn new(name: String, content: String) -> (r: Self)
        ensures
            r.name == name,
            r.content == content,
    {
        HTMLPost { name, content }
    }
}

/// The date and tags recorded for one post.
#[derive(Clone, Debug)]
pub struct PostMetadata {
    pub date: String,
    pub tags: Vec<String>,
}

/// What a `PostMetadata` holds, as plain sequences.
pub struct MetadataView {
    pub date: Seq<char>,
    pub tags: Seq<Seq<char>>,
}

impl View for PostMetadata {
    type V = MetadataView;

    open spec fn view(&self) -> MetadataView {
        MetadataView { date: self.date@, tags: strings_view(self.tags@) }
    }
}

/// A copy of `v`, string by string.
pub fn clone_strings(v: &Vec<String>) -> (r: Vec<String>)
    ensures
        r@ == v@,
{
    let mut r: Vec<String> = Vec::new();
    let mut i: usize = 0;
    while i < v.len()
        invariant
            i <= v@.len(),
            r@ == v@.subrange(0, i as int),
        decreases v@.len() - i,
    {
        r.push(v[i].clone());
        i += 1;
        assert(r@ =~= v@.subrange(0, i as int));
    }
    assert(v@.subrange(0, i as int) =~= v@);
    r
}

impl PostMetadata {
    /// Metadata of a post; the url is not kept.
    pub fn new(date: String, tags: Vec<String>, url: String) -> (r: Self)
        ensures
            r.date == date,
            r.tags == tags,
    {
        Self { date, tags }
    }
}

/// The map that a sequence of entries stands for: a later entry for a name
/// overrides an earlier one.
pub open spec fn entries_map(s: Seq<(Seq<char>, MetadataView)>) -> Map<Seq<char>, MetadataView>
    decreases s.len(),
{
    if s.len() == 0 {
        Map::empty()
    } else {
        entries_map(s.drop_last()).insert(s.last().0, s.last().1)
    }
}

pub open spec fn entries_view(s: Seq<(String, PostMetadata)>) -> Seq<(Seq<char>, MetadataView)> {
    s.map_values(|e: (String, PostMetadata)| (e.0@, e.1@))
}

proof fn lemma_entries_map_prefix(s: Seq<(Seq<char>, MetadataView)>, i: int, k: Seq<char>)
    requires
        0 <= i <= s.len(),
        forall|j: int| i <= j < s.len() ==> s[j].0 != k,
    ensures
        entries_map(s).contains_key(k) == entries_map(s.subrange(0, i)).contains_key(k),
        entries_map(s).contains_key(k) ==> entries_map(s)[k] == entries_map(s.subrange(0, i))[k],
    decreases s.len() - i,
{
    if i < s.len() {
        let t = s.subrange(0, i + 1);
        assert(t.drop_last() =~= s.subrange(0, i));
        assert(t.subrange(0, i) =~= s.subrange(0, i));
        lemma_entries_map_prefix(s, i + 1, k);
    } else {
        assert(s.subrange(0, i) =~= s);
    }
}

/// Post name to metadata, looked up by exact name.
#[derive(Clone, Debug)]
pub struct PostMetadataList {
    entries: Vec<(String, PostMetadata)>,
}

impl View for PostMetadataList {
    type V = Map<Seq<char>, MetadataView>;

    closed spec fn view(&self) -> Map<Seq<char>, MetadataView> {
        entries_map(entries_view(self.entries@))
    }
}

impl PostMetadataList {
    /// A store with no entries.
    pub fn new() -> (r: Self)
        ensures
            r@ == Map::<Seq<char>, MetadataView>::empty(),
    {
        let r = PostMetadataList { entries: Vec::new() };
        assert(entries_view(r.entries@) =~= Seq::empty());
        r
    }

    /// Records `metadata` under `name`, replacing what was there.
    pub fn insert(&mut self, name: String, metadata: PostMetadata)
        ensures
            final(self)@ == old(self)@.insert(name@, metadata@),
    {
        let ghost before = entries_view(self.entries@);
        self.entries.push((name, metadata));
        assert(entries_view(self.entries@).drop_last() =~= before);
    }

    /// The entries of the store in the order they were recorded; of two for
    /// one name the later holds.
    pub fn to_entries(self) -> (r: Vec<(String, PostMetadata)>)
        ensures
            entries_map(entries_view(r@)) == self@,
    {
        self.entries
    }

    /// The metadata recorded under exactly `post_name`, if any.
    pub fn get(&self, post_name: &String) -> (r: Option<&PostMetadata>)
        ensures
            r is Some == self@.contains_key(post_name@),
            r is Some ==> r->0@ == self@[post_name@],
    {
        let ghost s = entries_view(self.entries@);
        let mut i: usize = self.entries.len();
        while i > 0
            invariant
                i <= s.len(),
                s == entries_view(self.entries@),
                forall|j: int| i <= j < s.len() ==> s[j].0 != post_name@,
            decreases i,
        {
            if self.entries[i - 1].0 == *post_name {
                proof {
                    lemma_entries_map_prefix(s, i as int, post_name@);
                    assert(s.subrange(0, i as int).drop_last() =~= s.subrange(0, i - 1));
                }
                return Some(&self.entries[i - 1].1);
            }
            i -= 1;
        }
        proof {
            lemma_entries_map_prefix(s, 0, post_name@);
        }
        None
    }
}

/// The text a post template is made of.
#[derive(Clone, Debug)]
pub struct PostTemplate(pub String);

impl PostTemplate {
    pub fn new(text: String) -> (r: Self)
        ensures
            r.0 == text,
    {
        PostTemplate(text)
    }
}

/// The HTML that the markdown renderer makes of a document.
pub uninterp spec fn markdown_html(src: Seq<char>) -> Seq<char>;

/// Relies on pulldown_cmark's `Parser::new_ext` with `Options::all()`, fed to
/// `html::push_html` on an empty string: the HTML of the document, a function
/// of its text alone.
#[verifier::external_body]
fn render_markdown(src: &str) -> (r: String)
    ensures
        r@ == markdown_html(src@),
{
    let parser = Parser::new_ext(src, Options::all());
    let mut out = String::new();
    html::push_html(&mut out, parser);
    out
}

pub open spec fn date_token() -> Seq<char> {
    "<PostDate/>"@
}

pub open spec fn time_token() -> Seq<char> {
    "<ReadingTime/>"@
}

pub open spec fn tags_token() -> Seq<char> {
    "<PostTags/>"@
}

pub open spec fn heading_token() -> Seq<char> {
    "<PostHeading/>"@
}

pub open spec fn content_token() -> Seq<char> {
    "<ContentRoot/>"@
}

/// Date shown when a post has none.
pub open spec fn default_date() -> Seq<char> {
    "----.--.--"@
}

/// Tag label shown when a post has no tags.
pub open spec fn no_tags() -> Seq<char> {
    "无标签"@
}

/// Separator between tags.
pub open spec fn tag_separator() -> Seq<char> {
    "·"@
}

pub open spec fn heading_html(name: Seq<char>) -> Seq<char> {
    "<h1 class=\"post-title\">"@ + name + "</h1>"@
}

/// A post template with its five tokens bound, in this order: date, reading
/// time, tags, heading, body.
pub open spec fn post_page(
    template: Seq<char>,
    date: Seq<char>,
    time: Seq<char>,
    tags: Seq<char>,
    heading: Seq<char>,
    body: Seq<char>,
) -> Seq<char> {
    replaced(
        replaced(
            replaced(
                replaced(replaced(template, date_token(), date), time_token(), time),
                tags_token(),
                tags,
            ),
            heading_token(),
            heading,
        ),
        content_token(),
        body,
    )
}

/// In a template whose first two tokens are the date token and then the tags
/// token, with no `<` before or between them, a date and a tag label that hold
/// no `<` stand verbatim in the page: it begins with the text before the date
/// token, the date, the text between the tokens and the tag label, and the
/// rest of the template is bound as a template of its own.
pub proof fn lemma_page_shows_date_and_tags(
    a: Seq<char>,
    b: Seq<char>,
    c: Seq<char>,
    date: Seq<char>,
    time: Seq<char>,
    tags: Seq<char>,
    heading: Seq<char>,
    body: Seq<char>,
)
    requires
        lacks(a, '<'),
        lacks(b, '<'),
        lacks(date, '<'),
        lacks(tags, '<'),
    ensures
        post_page(a + date_token() + b + tags_token() + c, date, time, tags, heading, body) == a
            + date + b + tags + post_page(c, date, time, tags, heading, body),
{
    reveal_strlit("<PostDate/>");
    reveal_strlit("<ReadingTime/>");
    reveal_strlit("<PostTags/>");
    reveal_strlit("<PostHeading/>");
    reveal_strlit("<ContentRoot/>");
    let d = date_token();
    let g = tags_token();
    assert(g.len() == 11);
    assert(forall|i: int| 1 <= i < 11 ==> #[trigger] g[i] != '<') by {
        assert(g[1] != '<' && g[2] != '<' && g[3] != '<' && g[4] != '<' && g[5] != '<');
        assert(g[6] != '<' && g[7] != '<' && g[8] != '<' && g[9] != '<' && g[10] != '<');
    }
    assert(lacks(g.drop_first(), '<')) by {
        assert forall|i: int| 0 <= i < g.drop_first().len() implies g.drop_first()[i] != '<' by {
            assert(g.drop_first()[i] == g[i + 1]);
        }
    }
    assert(d[0] == '<' && time_token()[0] == '<' && g[0] == '<' && heading_token()[0] == '<'
        && content_token()[0] == '<');
    // the date token
    let c1 = replaced(c, d, date);
    assert(a + d + b + g + c =~= a + (d + (b + (g + c))));
    lemma_replaced_skips_prefix(a, d + (b + (g + c)), d, date);
    lemma_replaced_front_match(d, b + (g + c), date);
    lemma_replaced_skips_prefix(b, g + c, d, date);
    lemma_replaced_front_other(g, c, d, date, 5);
    let pre = a + date + b;
    lemma_lacks_concat(a, date, '<');
    lemma_lacks_concat(a + date, b, '<');
    let s1 = replaced(a + d + b + g + c, d, date);
    assert(s1 =~= pre + (g + c1));
    // the reading-time token
    let c2 = replaced(c1, time_token(), time);
    lemma_replaced_skips_prefix(pre, g + c1, time_token(), time);
    lemma_replaced_front_other(g, c1, time_token(), time, 1);
    let s2 = replaced(s1, time_token(), time);
    assert(s2 =~= pre + (g + c2));
    // the tags token
    let c3 = replaced(c2, g, tags);
    lemma_replaced_skips_prefix(pre, g + c2, g, tags);
    lemma_replaced_front_match(g, c2, tags);
    let s3 = replaced(s2, g, tags);
    assert(s3 =~= (pre + tags) + c3);
    lemma_lacks_concat(pre, tags, '<');
    // the heading and content tokens
    let c4 = replaced(c3, heading_token(), heading);
    lemma_replaced_skips_prefix(pre + tags, c3, heading_token(), heading);
    let s4 = replaced(s3, heading_token(), heading);
    lemma_replaced_skips_prefix(pre + tags, c4, content_token(), body);
    assert(a + date + b + tags + post_page(c, date, time, tags, heading, body) =~= (pre + tags)
        + replaced(c4, content_token(), body));
}

pub open spec fn opt_view(o: Option<String>) -> Option<Seq<char>> {
    match o {
        Some(s) => Some(s@),
        None => None,
    }
}

pub open spec fn opt_strings_view(o: Option<Vec<String>>) -> Option<Seq<Seq<char>>> {
    match o {
        Some(v) => Some(strings_view(v@)),
        None => None,
    }
}

/// The date a post shows: its own, or the default.
pub open spec fn shown_date(d: Option<Seq<char>>) -> Seq<char> {
    match d {
        Some(x) => x,
        None => default_date(),
    }
}

/// The tag label a post shows: its tags joined by a middle dot, or the
/// no-tags label.
pub open spec fn shown_tags(t: Option<Seq<Seq<char>>>) -> Seq<char> {
    match t {
        Some(ts) => joined(ts, tag_separator()),
        None => no_tags(),
    }
}

/// The reading time a post shows: the label of the estimate for its content.
pub open spec fn shown_time(content: Seq<char>) -> Seq<char> {
    minutes_label(minutes_of(content))
}

/// The page URL of a post, relative to the site root.
pub open spec fn post_url(name: Seq<char>) -> Seq<char> {
    "articles/"@ + name + ".html"@
}

/// Binds the post tokens of `template`; `body` is the post's HTML body.
pub fn render_post_page(
    template: &str,
    date: &str,
    reading_time: &str,
    tags: &str,
    name: &str,
    body: &str,
) -> (r: String)
    ensures
        r@ == post_page(template@, date@, reading_time@, tags@, heading_html(name@), body@),
{
    proof {
        reveal_strlit("<PostDate/>");
        reveal_strlit("<ReadingTime/>");
        reveal_strlit("<PostTags/>");
        reveal_strlit("<PostHeading/>");
        reveal_strlit("<ContentRoot/>");
    }
    let mut heading = String::from_str("<h1 class=\"post-title\">");
    heading.append(name);
    heading.append("</h1>");
    let s = replace_str(template, "<PostDate/>", date);
    let s = replace_str(s.as_str(), "<ReadingTime/>", reading_time);
    let s = replace_str(s.as_str(), "<PostTags/>", tags);
    let s = replace_str(s.as_str(), "<PostHeading/>", heading.as_str());
    replace_str(s.as_str(), "<ContentRoot/>", body)
}

/// A post source: its name (the file stem), where it lies, and what has been
/// gathered for it so far.
#[derive(Clone, Debug)]
pub struct RawPost {
    pub name: String,
    pub source_type: SourceType,
    pub path: String,
    pub content: Option<String>,
    pub tags: Option<Vec<String>>,
    pub date: Option<String>,
    pub reading_time: Option<String>,
}

impl RawPost {
    /// A record with nothing loaded or set.
    pub fn new(name: String, source_type: SourceType, path: String) -> (r: Self)
        requires
            name@.len() > 0,
        ensures
            r.name == name,
            r.source_type == source_type,
            r.path == path,
            r.content is None,
            r.tags is None,
            r.date is None,
            r.reading_time is None,
    {
        RawPost {
            name,
            source_type,
            path,
            content: None,
            tags: None,
            date: None,
            reading_time: None,
        }
    }

    pub fn set_tag(&mut self, tags: Vec<String>)
        ensures
            *final(self) == (RawPost { tags: Some(tags), ..*old(self) }),
    {
        self.tags = Some(tags)
    }

    pub fn set_date(&mut self, date: String)
        ensures
            *final(self) == (RawPost { date: Some(date), ..*old(self) }),
    {
        self.date = Some(date)
    }

    /// Takes date and tags from the metadata recorded under the post's name;
    /// without such an entry the record is left as it was.
    pub fn apply_metadata(&mut self, metadata: &PostMetadataList)
        ensures
            metadata@.contains_key(old(self).name@) ==> {
                &&& opt_view(final(self).date) == Some(metadata@[old(self).name@].date)
                &&& opt_strings_view(final(self).tags) == Some(
                    metadata@[old(self).name@].tags,
                )
                &&& final(self).name == old(self).name
                &&& final(self).path == old(self).path
                &&& final(self).source_type == old(self).source_type
                &&& final(self).content == old(self).content
                &&& final(self).reading_time == old(self).reading_time
            },
            !metadata@.contains_key(old(self).name@) ==> *final(self) == *old(self),
    {
        match metadata.get(&self.name) {
            Some(m) => {
                self.set_date(m.date.clone());
                self.set_tag(clone_strings(&m.tags));
            },
            None => {},
        }
    }

    /// Sets the reading-time label from the loaded content; without content
    /// the record is left as it was.
    pub fn estimate_reading_time(&mut self)
        ensures
            old(self).content is Some ==> *final(self) == (RawPost {
                reading_time: Some(final(self).reading_time->0),
                ..*old(self)
            }) && final(self).reading_time is Some && final(self).reading_time->0@
                == minutes_label(minutes_of(old(self).content->0@)),
            old(self).content is None ==> *final(self) == *old(self),
    {
        if let Some(content) = &self.content {
            let minutes = reading_minutes(content.as_str());
            self.reading_time = Some(reading_time_label(minutes));
        }
    }

    /// Takes the text read from the post's path, once: a record whose content
    /// is already loaded keeps it. Loading sets the reading-time label.
    pub fn load_content(&mut self, text: String)
        ensures
            old(self).content is None ==> {
                &&& final(self).content == Some(text)
                &&& final(self).reading_time is Some
                &&& final(self).reading_time->0@ == minutes_label(minutes_of(text@))
                &&& final(self).name == old(self).name
                &&& final(self).path == old(self).path
                &&& final(self).source_type == old(self).source_type
                &&& final(self).date == old(self).date
                &&& final(self).tags == old(self).tags
            },
            old(self).content is Some ==> *final(self) == *old(self),
    {
        if self.content.is_none() {
            self.content = Some(text);
            self.estimate_reading_time();
        }
    }

    /// The tags joined by a middle dot, or the no-tags label.
    pub fn get_tags(&self) -> (r: String)
        ensures
            r@ == shown_tags(opt_strings_view(self.tags)),
    {
        match &self.tags {
            Some(tags) => join_strings(tags, "·"),
            None => String::from_str("无标签"),
        }
    }

    /// The page of this post, from its loaded content.
    pub open spec fn page_of(self, template: Seq<char>) -> Seq<char>
        recommends
            self.content is Some,
    {
        post_page(
            template,
            shown_date(opt_view(self.date)),
            shown_time(self.content->0@),
            shown_tags(opt_strings_view(self.tags)),
            heading_html(self.name@),
            markdown_html(self.content->0@),
        )
    }

    /// The summary of this post on the home page.
    pub open spec fn summary_of(self) -> PostInfoView {
        PostInfoView {
            title: self.name@,
            date: shown_date(opt_view(self.date)),
            url: post_url(self.name@),
            excerpt: Seq::empty(),
        }
    }

    /// The post page: the template with date, reading time, tags, heading and
    /// the HTML of the content bound. The reading time is estimated from the
    /// content being rendered, whatever the record has stored.
    pub fn hydrate(self, template: &PostTemplate) -> (r: HTMLPost)
        requires
            self.content is Some,
        ensures
            r.name == self.name,
            r.content@ == self.page_of(template.0@),
    {
        let (body, time) = match &self.content {
            Some(c) => (render_markdown(c.as_str()), reading_time_label(reading_minutes(c.as_str()))),
            None => (String::new(), String::new()),
        };
        let date = match &self.date {
            Some(d) => d.clone(),
            None => String::from_str("----.--.--"),
        };
        let tags = self.get_tags();
        let page = render_post_page(
            template.0.as_str(),
            date.as_str(),
            time.as_str(),
            tags.as_str(),
            self.name.as_str(),
            body.as_str(),
        );
        HTMLPost::new(self.name, page)
    }

    /// The post page and the post's summary for the home page.
    pub fn render(self, template: &PostTemplate) -> (r: (PostInfo, HTMLPost))
        requires
            self.content is Some,
        ensures
            r.0@ == self.summary_of(),
            r.1.name == self.name,
            r.1.content@ == self.page_of(template.0@),
    {
        let date = match &self.date {
            Some(d) => d.clone(),
            None => String::from_str("----.--.--"),
        };
        let mut url = String::from_str("articles/");
        url.append(self.name.as_str());
        url.append(".html");
        let info = PostInfo::new(self.name.clone(), date, url, String::new());
        let page = self.hydrate(template);
        (info, page)
    }
}

} // verus!
