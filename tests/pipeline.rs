use packpal::catalog::{markdown_stem_of, scan_source_file, sort_by_name};
use packpal::index::{Avatar, IndexInfo, IndexTemplate, PostInfo};
use packpal::posts::{
    render_post_page, HTMLPost, PostMetadata, PostMetadataList, PostTemplate, RawPost, SourceType,
};
use packpal::reading::{is_chinese_character, reading_minutes, reading_time_label};
use packpal::site::{output_dirs, output_plan, OutputAction, SiteFactory, SiteOutput};
use packpal::text::{decimal_string, join_strings, replace_str};

const POST_TEMPLATE: &str = "<PostDate/>|<ReadingTime/>|<PostTags/>|<PostHeading/>|<ContentRoot/>";

fn strings(v: &[&str]) -> Vec<String> {
    v.iter().map(|s| s.to_string()).collect()
}

fn entry(name: &str) -> (String, String) {
    (name.to_string(), format!("posts/{name}"))
}

fn loaded_post(name: &str, content: &str) -> RawPost {
    let mut post = RawPost::new(name.to_string(), SourceType::Markdown, format!("posts/{name}.md"));
    post.load_content(content.to_string());
    post
}

fn summary(i: usize) -> PostInfo {
    PostInfo::new(
        format!("title{i}"),
        format!("2024.01.0{i}"),
        format!("articles/title{i}.html"),
        format!("excerpt{i}"),
    )
}

fn index_of(posts: Vec<PostInfo>, template: &str) -> String {
    let info = IndexInfo::new(
        "Blog".to_string(),
        "Motto".to_string(),
        "gh".to_string(),
        "me@example.com".to_string(),
        "2024".to_string(),
        Avatar::new("me.png", vec![1, 2, 3]),
        posts,
    );
    IndexTemplate::new(template.to_string()).render(info).0
}

fn sample_factory() -> (SiteFactory, Avatar) {
    let mut metadata = PostMetadataList::new();
    metadata.insert(
        "我的第一篇博客".to_string(),
        PostMetadata::new("2024.09.07".to_string(), strings(&["博客"]), String::new()),
    );
    let avatar = Avatar::new("me.png", vec![9, 8, 7]);
    let factory = SiteFactory::new(
        "Blog".to_string(),
        avatar.clone(),
        "me@example.com".to_string(),
        "gh".to_string(),
        "Motto".to_string(),
        vec![loaded_post("我的第一篇博客", "# Title\nBody text"), loaded_post("other", "plain")],
        metadata,
        PostTemplate::new(POST_TEMPLATE.to_string()),
        IndexTemplate::new("{{site_name}}:{{post_cards}}".to_string()),
    );
    (factory, avatar)
}

#[test]
fn scan_keeps_only_markdown() {
    let entries = vec![entry("a.md"), entry("b.txt"), entry("metadata.json")];
    let posts = scan_source_file(&entries);
    assert_eq!(posts.len(), 1);
    assert_eq!(posts[0].name, "a");
    assert_eq!(posts[0].path, "posts/a.md");
    assert_eq!(posts[0].source_type, SourceType::Markdown);
    assert!(posts[0].content.is_none());
}

#[test]
fn scan_keeps_listing_order() {
    let entries = vec![entry("z.md"), entry("notes"), entry("a.md"), entry(".md")];
    let names: Vec<String> = scan_source_file(&entries).into_iter().map(|p| p.name).collect();
    assert_eq!(names, strings(&["z", "a"]));
}

#[test]
fn stem_removes_last_extension() {
    assert_eq!(markdown_stem_of("a.md"), Some("a".to_string()));
    assert_eq!(markdown_stem_of("a.b.md"), Some("a.b".to_string()));
    assert_eq!(markdown_stem_of("我的第一篇博客.md"), Some("我的第一篇博客".to_string()));
    assert_eq!(markdown_stem_of(".md"), None);
    assert_eq!(markdown_stem_of("md"), None);
    assert_eq!(markdown_stem_of("a.MD"), None);
    assert_eq!(markdown_stem_of("a.md.txt"), None);
    assert_eq!(markdown_stem_of(""), None);
}

#[test]
fn chinese_character_ranges() {
    assert!(is_chinese_character('\u{4E00}'));
    assert!(is_chinese_character('\u{9FFF}'));
    assert!(is_chinese_character('\u{3400}'));
    assert!(is_chinese_character('\u{4DBF}'));
    assert!(!is_chinese_character('\u{4DC0}'));
    assert!(!is_chinese_character('\u{A000}'));
    assert!(!is_chinese_character('a'));
}

#[test]
fn reading_minutes_is_floor_of_count() {
    assert_eq!(reading_minutes(""), 0);
    assert_eq!(reading_minutes(&"博".repeat(249)), 0);
    assert_eq!(reading_minutes(&"博".repeat(250)), 1);
    assert_eq!(reading_minutes(&"博 a".repeat(499)), 1);
    assert_eq!(reading_minutes(&"\u{3400}".repeat(500)), 2);
    assert_eq!(reading_minutes(&"abc".repeat(1000)), 0);
}

#[test]
fn reading_minutes_grows_with_count() {
    let mut last = 0;
    for n in [0usize, 100, 249, 250, 251, 499, 500, 1000] {
        let m = reading_minutes(&"字x".repeat(n));
        assert!(m >= last);
        assert_eq!(m, n / 250);
        last = m;
    }
}

#[test]
fn reading_time_labels() {
    assert_eq!(reading_time_label(0), "<1分钟");
    assert_eq!(reading_time_label(3), "3分钟");
    assert_eq!(reading_time_label(12), "12分钟");
    assert_eq!(decimal_string(0), "0");
    assert_eq!(decimal_string(1205), "1205");
}

#[test]
fn replace_is_literal_left_to_right() {
    assert_eq!(replace_str("a{{x}}b{{x}}", "{{x}}", "Z"), "aZbZ");
    assert_eq!(replace_str("aaa", "aa", "b"), "ba");
    assert_eq!(replace_str("no token", "{{x}}", "Z"), "no token");
    assert_eq!(replace_str("", "{{x}}", "Z"), "");
    assert_eq!(replace_str("{{x}}", "{{x}}", "{{x}}{{x}}"), "{{x}}{{x}}");
}

#[test]
fn join_with_middle_dot() {
    assert_eq!(join_strings(&strings(&["博客", "站点"]), "·"), "博客·站点");
    assert_eq!(join_strings(&strings(&["one"]), "·"), "one");
    assert_eq!(join_strings(&Vec::new(), "·"), "");
}

#[test]
fn metadata_lookup_is_exact() {
    let mut list = PostMetadataList::new();
    list.insert("a".to_string(), PostMetadata::new("2024.01.01".to_string(), strings(&["x"]), String::new()));
    list.insert("b".to_string(), PostMetadata::new("2024.02.02".to_string(), vec![], String::new()));
    list.insert("a".to_string(), PostMetadata::new("2024.03.03".to_string(), strings(&["y"]), String::new()));
    assert_eq!(list.get(&"a".to_string()).unwrap().date, "2024.03.03");
    assert_eq!(list.get(&"b".to_string()).unwrap().date, "2024.02.02");
    assert!(list.get(&"A".to_string()).is_none());
    assert!(list.get(&"".to_string()).is_none());
}

#[test]
fn setters_fill_record() {
    let mut post = RawPost::new("p".to_string(), SourceType::default(), "posts/p.md".to_string());
    post.set_date("2024.05.05".to_string());
    post.set_tag(strings(&["a", "b"]));
    assert_eq!(post.date, Some("2024.05.05".to_string()));
    assert_eq!(post.get_tags(), "a·b");
}

#[test]
fn content_loads_once() {
    let mut post = loaded_post("p", &"字".repeat(500));
    assert_eq!(post.reading_time, Some("2分钟".to_string()));
    post.load_content("other".to_string());
    assert_eq!(post.content, Some("字".repeat(500)));
    assert_eq!(post.reading_time, Some("2分钟".to_string()));
}

#[test]
fn post_page_binds_tokens() {
    let page = render_post_page(POST_TEMPLATE, "D", "T", "G", "N", "<p>B</p>");
    assert_eq!(page, "D|T|G|<h1 class=\"post-title\">N</h1>|<p>B</p>");
    let partial = render_post_page("<Unknown/><PostDate/>", "D", "T", "G", "N", "B");
    assert_eq!(partial, "<Unknown/>D");
}

#[test]
fn metadata_binds_date_and_tags() {
    let mut list = PostMetadataList::new();
    list.insert("我的第一篇博客".to_string(), PostMetadata::new("2024.09.07".to_string(), strings(&["博客", "站点"]), String::new()));
    let mut post = loaded_post("我的第一篇博客", "# Title\nBody text");
    post.apply_metadata(&list);
    let page = post.hydrate(&PostTemplate::new(POST_TEMPLATE.to_string()));
    assert_eq!(page.name, "我的第一篇博客");
    assert_eq!(
        page.content,
        "2024.09.07|<1分钟|博客·站点|<h1 class=\"post-title\">我的第一篇博客</h1>|<h1>Title</h1>\n<p>Body text</p>\n"
    );
}

#[test]
fn missing_metadata_uses_defaults() {
    let list = PostMetadataList::new();
    let mut post = loaded_post("lonely", "text");
    post.apply_metadata(&list);
    let (info, page) = post.render(&PostTemplate::new(POST_TEMPLATE.to_string()));
    assert_eq!(page.content, "----.--.--|<1分钟|无标签|<h1 class=\"post-title\">lonely</h1>|<p>text</p>\n");
    assert_eq!(info.title, "lonely");
    assert_eq!(info.date, "----.--.--");
    assert_eq!(info.url, "articles/lonely.html");
    assert_eq!(info.excerpt, "");
}

#[test]
fn index_cards_then_compact_rows() {
    let five: Vec<PostInfo> = (1..=5).map(summary).collect();
    let page = index_of(five, "{{post_cards}}|{{post_cards_style_2}}");
    let (cards, rows) = page.split_once('|').unwrap();
    for i in 1..=3 {
        assert!(cards.contains(&format!(">title{i}</a>")));
        assert!(cards.contains(&format!("excerpt{i}")));
        assert!(!rows.contains(&format!("title{i}")));
    }
    for i in 4..=5 {
        assert!(rows.contains(&format!("<span>title{i}</span>")));
        assert!(!rows.contains(&format!("excerpt{i}")));
        assert!(!cards.contains(&format!("title{i}")));
    }
    assert_eq!(cards.matches("blog-card").count(), 3);
    assert_eq!(rows.matches("<li>").count(), 2);
}

#[test]
fn index_with_two_posts_has_empty_compact_list() {
    let two: Vec<PostInfo> = (1..=2).map(summary).collect();
    let page = index_of(two, "{{post_cards}}|{{post_cards_style_2}}");
    assert!(page.ends_with('|'));
    assert_eq!(page.matches("blog-card").count(), 2);
}

#[test]
fn index_binds_site_tokens() {
    let page = index_of(vec![], "{{site_name}} {{motto}} {{avatar}} {{github}} {{email}} {{date}} {{other}}");
    assert_eq!(page, "Blog Motto public/me.png gh me@example.com 2024 {{other}}");
}

#[test]
fn index_card_fields() {
    let page = index_of(vec![summary(1)], "{{post_cards}}");
    assert!(page.contains("<time datetime=\"2024.01.01\">2024.01.01</time>"));
    assert!(page.contains("<a href=\"articles/title1.html\">title1</a>"));
}

#[test]
fn end_to_end_site() {
    let (factory, avatar) = sample_factory();
    let out = factory.render_site("2024".to_string());
    assert_eq!(out.pages.len(), 2);
    let first = &out.pages[0];
    assert_eq!(first.name, "我的第一篇博客");
    assert!(first.content.contains("2024.09.07"));
    assert!(first.content.contains("博客"));
    assert!(first.content.contains("<h1>Title</h1>"));
    assert!(first.content.contains("<p>Body text</p>"));
    assert!(out.pages[1].content.starts_with("----.--.--|<1分钟|无标签|"));
    assert!(out.index.0.starts_with("Blog:"));
    assert!(out.index.0.contains("articles/我的第一篇博客.html"));
    let plan = output_plan("build/", out, avatar);
    let paths: Vec<String> = plan
        .iter()
        .map(|a| match a {
            OutputAction::CreateDir(p) => p.clone(),
            OutputAction::WriteText(p, _) => p.clone(),
            OutputAction::WriteBytes(p, _) => p.clone(),
        })
        .collect();
    assert_eq!(
        paths,
        strings(&[
            "build/articles/",
            "build/public/",
            "build/articles/我的第一篇博客.html",
            "build/articles/other.html",
            "build/public/me.png",
            "build/index.html",
        ])
    );
}

#[test]
fn build_twice_is_identical() {
    let (a, _) = sample_factory();
    let (b, _) = sample_factory();
    let x = a.render_site("2024".to_string());
    let y = b.render_site("2024".to_string());
    let pages = |o: &SiteOutput| -> Vec<(String, String)> {
        o.pages.iter().map(|p| (p.name.clone(), p.content.clone())).collect()
    };
    assert_eq!(pages(&x), pages(&y));
    assert_eq!(x.index.0, y.index.0);
}

#[test]
fn directories_come_before_writes() {
    let page = HTMLPost::new("p".to_string(), "<html/>".to_string());
    let out = SiteOutput { pages: vec![page], index: packpal::index::HTMLIndexPage("i".to_string()) };
    let plan = output_plan("site/", out, Avatar::new("a.jpg", vec![1]));
    assert_eq!(plan.len(), 5);
    assert!(matches!(&plan[0], OutputAction::CreateDir(p) if p == "site/articles/"));
    assert!(matches!(&plan[1], OutputAction::CreateDir(p) if p == "site/public/"));
    assert!(plan[2..].iter().all(|a| !matches!(a, OutputAction::CreateDir(_))));
    assert!(matches!(&plan[4], OutputAction::WriteText(p, t) if p == "site/index.html" && t == "i"));
    assert!(matches!(&plan[3], OutputAction::WriteBytes(p, b) if p == "site/public/a.jpg" && b == &vec![1u8]));
}

#[test]
fn sort_orders_by_file_name() {
    let entries = vec![entry("b.md"), entry("ab.md"), entry("a.md"), entry("博客.md"), entry("a"), entry("b.md")];
    let names: Vec<String> = sort_by_name(&entries).into_iter().map(|e| e.0).collect();
    assert_eq!(names, strings(&["a", "a.md", "ab.md", "b.md", "b.md", "博客.md"]));
    assert!(sort_by_name(&Vec::new()).is_empty());
}

#[test]
fn sorted_listing_gives_one_order() {
    let one = vec![entry("z.md"), entry("a.md"), entry("m.md")];
    let two = vec![entry("m.md"), entry("z.md"), entry("a.md")];
    let names = |e: &Vec<(String, String)>| -> Vec<String> {
        scan_source_file(&sort_by_name(e)).into_iter().map(|p| p.name).collect()
    };
    assert_eq!(names(&one), strings(&["a", "m", "z"]));
    assert_eq!(names(&one), names(&two));
}

#[test]
fn output_dirs_under_root() {
    let (articles, public) = output_dirs("out/");
    assert_eq!(articles, "out/articles/");
    assert_eq!(public, "out/public/");
}

#[test]
fn reading_time_follows_rendered_content() {
    let mut post = RawPost::new("p".to_string(), SourceType::Markdown, "posts/p.md".to_string());
    post.content = Some("字".repeat(500));
    assert!(post.reading_time.is_none());
    let page = post.clone().hydrate(&PostTemplate::new("<ReadingTime/>".to_string()));
    assert_eq!(page.content, "2分钟");
    post.reading_time = Some("stale".to_string());
    let page = post.hydrate(&PostTemplate::new("<ReadingTime/>".to_string()));
    assert_eq!(page.content, "2分钟");
}

#[test]
fn chars_round_trip_through_replace() {
    assert_eq!(replace_str("我的第一篇博客", "第一", "1"), "我的1篇博客");
    assert_eq!(join_strings(&strings(&["é", "ß"]), "—"), "é—ß");
}

#[test]
fn page_starts_with_metadata() {
    let template = "a<PostDate/>b<PostTags/>c<ReadingTime/>";
    let mut list = PostMetadataList::new();
    list.insert("p".to_string(), PostMetadata::new("2024.09.07".to_string(), strings(&["博客", "站点"]), String::new()));
    let mut with = loaded_post("p", "x");
    with.apply_metadata(&list);
    let page = with.hydrate(&PostTemplate::new(template.to_string()));
    assert_eq!(page.content, "a2024.09.07b博客·站点c<1分钟");
    let mut without = loaded_post("q", "x");
    without.apply_metadata(&list);
    let page = without.hydrate(&PostTemplate::new(template.to_string()));
    assert_eq!(page.content, "a----.--.--b无标签c<1分钟");
}
