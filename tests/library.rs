use kes::config::{get_config, ConfigSettings, KesConfig, LogFormat};
use kes::posts::{
    collect_post_paths, get_post_html, get_post_key, get_post_title, title_for_key, PostItem,
    PostManager, PostSource,
};
use kes::routes::{index, not_found, redirect_to_not_found, render_post};
use kes::templates::{
    choose_template, TemplateError, TemplateOverride, TemplateSlot, Templates, DEFAULT_HOME,
};

fn default_templates() -> Templates {
    Templates::new(
        TemplateOverride::NotGiven,
        TemplateOverride::NotGiven,
        TemplateOverride::NotGiven,
    )
    .unwrap()
}

fn body_only_templates() -> Templates {
    Templates::new(
        TemplateOverride::NotGiven,
        TemplateOverride::Contents("{{ body | safe }}".to_string()),
        TemplateOverride::NotGiven,
    )
    .unwrap()
}

fn source(name: &str, markdown: Option<&str>) -> PostSource {
    PostSource {
        file_name: name.to_string(),
        markdown: markdown.map(|m| m.to_string()),
    }
}

fn empty_settings() -> ConfigSettings {
    ConfigSettings {
        port: None,
        workers: None,
        log_format: None,
        log_level: None,
        posts_dir: None,
        assets_dir: None,
        home_template: None,
        post_template: None,
        not_found_template: None,
    }
}

#[test]
fn title_splits_on_dash_and_underscore() {
    assert_eq!(get_post_title("my-first_post.md"), "My First Post");
}

#[test]
fn title_keeps_empty_words() {
    assert_eq!(title_for_key("a--b"), "A  B");
    assert_eq!(title_for_key("a_-b"), "A  B");
}

#[test]
fn title_of_empty_key_is_empty() {
    assert_eq!(title_for_key(""), "");
    assert_eq!(title_for_key("-"), " ");
}

#[test]
fn title_keeps_rest_of_word() {
    assert_eq!(title_for_key("hello WORLD-x1"), "Hello WORLD X1");
    assert_eq!(title_for_key("über-straße"), "Über Straße");
}

#[test]
fn key_drops_md_suffix() {
    assert_eq!(get_post_key("hello.md"), "hello");
    assert_eq!(get_post_key("a.md.md"), "a.md");
    assert_eq!(get_post_key("a.mdx"), "a.mdx");
    assert_eq!(get_post_key("notes.txt"), "notes.txt");
    assert_eq!(get_post_key(".md"), "");
}

#[test]
fn config_defaults() {
    let c = get_config(empty_settings());
    assert_eq!(c.port, 3000);
    assert_eq!(c.workers, 4);
    assert_eq!(c.log_format, LogFormat::JSON);
    assert_eq!(c.log_level, "error");
    assert_eq!(c.posts_dir, "posts");
    assert_eq!(c.assets_dir, "assets");
    assert!(c.home_template.is_none());
    assert_eq!(KesConfig::default_port(), 3000);
    assert_eq!(KesConfig::default_workers(), 4);
    assert_eq!(KesConfig::default_log_format(), LogFormat::JSON);
    assert_eq!(KesConfig::default_log_level(), "error");
    assert_eq!(KesConfig::default_posts_dir(), "posts");
    assert_eq!(KesConfig::default_assets_dir(), "assets");
}

#[test]
fn config_keeps_given_values() {
    let mut s = empty_settings();
    s.port = Some(8080);
    s.workers = Some(1);
    s.log_format = Some(LogFormat::Pretty);
    s.log_level = Some("debug".to_string());
    s.posts_dir = Some("content".to_string());
    s.assets_dir = Some("static".to_string());
    s.post_template = Some(std::path::PathBuf::from("post.html"));
    let c = get_config(s);
    assert_eq!(c.port, 8080);
    assert_eq!(c.workers, 1);
    assert_eq!(c.log_format, LogFormat::Pretty);
    assert_eq!(c.log_level, "debug");
    assert_eq!(c.posts_dir, "content");
    assert_eq!(c.assets_dir, "static");
    assert_eq!(c.post_template, Some(std::path::PathBuf::from("post.html")));
    assert!(c.not_found_template.is_none());
}

#[test]
fn choose_template_prefers_contents() {
    assert_eq!(choose_template(TemplateOverride::Contents("x".to_string()), "d"), "x");
    assert_eq!(choose_template(TemplateOverride::Unreadable, "d"), "d");
    assert_eq!(choose_template(TemplateOverride::NotGiven, "d"), "d");
}

#[test]
fn invalid_template_is_refused() {
    let r = Templates::new(
        TemplateOverride::Contents("{% for %}".to_string()),
        TemplateOverride::NotGiven,
        TemplateOverride::NotGiven,
    );
    assert_eq!(r.err(), Some(TemplateError::Invalid(TemplateSlot::Home)));
    let r = Templates::new(
        TemplateOverride::NotGiven,
        TemplateOverride::NotGiven,
        TemplateOverride::Contents("{{ unclosed".to_string()),
    );
    assert_eq!(r.err(), Some(TemplateError::Invalid(TemplateSlot::NotFound)));
}

#[test]
fn unreadable_override_renders_as_default() {
    let a = Templates::new(
        TemplateOverride::Unreadable,
        TemplateOverride::Unreadable,
        TemplateOverride::Unreadable,
    )
    .unwrap();
    let b = default_templates();
    assert_eq!(a.render_404().unwrap(), b.render_404().unwrap());
    assert_eq!(
        a.render_post("T".to_string(), "<p>x</p>".to_string()).unwrap(),
        b.render_post("T".to_string(), "<p>x</p>".to_string()).unwrap()
    );
    let posts = vec![PostItem { key: "k".to_string(), title: "K".to_string() }];
    let posts2 = vec![PostItem { key: "k".to_string(), title: "K".to_string() }];
    assert_eq!(a.render_home(posts).unwrap(), b.render_home(posts2).unwrap());
}

#[test]
fn override_contents_are_used() {
    let t = Templates::new(
        TemplateOverride::Contents("home:{% for p in posts %}[{{ p.key }}|{{ p.title }}]{% endfor %}".to_string()),
        TemplateOverride::Contents("{{ title }}:{{ body | safe }}".to_string()),
        TemplateOverride::Contents("gone".to_string()),
    )
    .unwrap();
    assert_eq!(t.render_404().unwrap(), "gone");
    assert_eq!(t.render_post("A".to_string(), "b".to_string()).unwrap(), "A:b");
    let posts = vec![
        PostItem { key: "x".to_string(), title: "X".to_string() },
        PostItem { key: "y".to_string(), title: "Y".to_string() },
    ];
    assert_eq!(t.render_home(posts).unwrap(), "home:[x|X][y|Y]");
}

#[test]
fn render_failure_is_reported() {
    let t = Templates::new(
        TemplateOverride::NotGiven,
        TemplateOverride::Contents("{{ missing }}".to_string()),
        TemplateOverride::NotGiven,
    )
    .unwrap();
    assert_eq!(
        t.render_post("a".to_string(), "b".to_string()).err(),
        Some(TemplateError::Render(TemplateSlot::Post))
    );
    let r = PostManager::new(vec![source("a.md", Some("x"))], &t);
    assert_eq!(r.err(), Some(TemplateError::Render(TemplateSlot::Post)));
    let m = PostManager::new(vec![source("a.md", None)], &t).unwrap();
    assert_eq!(m.get(&"a".to_string()), Some(String::new()));
}

#[test]
fn strikethrough_becomes_del() {
    let t = body_only_templates();
    let html = get_post_html("s.md", &Some("~~text~~".to_string()), &t).unwrap();
    assert_eq!(html, "<p><del>text</del></p>\n");
}

#[test]
fn base_markdown_converts() {
    let t = body_only_templates();
    let html = get_post_html("s.md", &Some("# Head\n\n*em* and **strong**\n\n- one\n- two\n".to_string()), &t).unwrap();
    assert_eq!(
        html,
        "<h1>Head</h1>\n<p><em>em</em> and <strong>strong</strong></p>\n<ul>\n<li>one</li>\n<li>two</li>\n</ul>\n"
    );
}

#[test]
fn tables_stay_off() {
    let t = body_only_templates();
    let html = get_post_html("s.md", &Some("a|b\n-|-\n1|2".to_string()), &t).unwrap();
    assert!(!html.contains("<table>"));
}

#[test]
fn unreadable_post_has_empty_page() {
    let t = default_templates();
    assert_eq!(get_post_html("gone.md", &None, &t).unwrap(), "");
}

#[test]
fn store_lists_every_post_with_its_page() {
    let t = default_templates();
    let m = PostManager::new(
        vec![
            source("hello-world.md", Some("Some *text*.")),
            source("second_post.md", Some("~~old~~")),
        ],
        &t,
    )
    .unwrap();
    let list = m.get_post_list();
    assert_eq!(list.len(), 2);
    assert_eq!(list[0].key, "hello-world");
    assert_eq!(list[0].title, "Hello World");
    assert_eq!(list[1].key, "second_post");
    assert_eq!(list[1].title, "Second Post");
    let page = m.get(&"hello-world".to_string()).unwrap();
    assert!(page.contains("<title>Hello World</title>"));
    assert!(page.contains("<p>Some <em>text</em>.</p>"));
    let page = m.get(&"second_post".to_string()).unwrap();
    assert!(page.contains("<del>old</del>"));
    assert_eq!(m.get(&"hello".to_string()), None);
}

#[test]
fn get_is_repeatable() {
    let t = default_templates();
    let m = PostManager::new(vec![source("a.md", Some("# A"))], &t).unwrap();
    let first = m.get(&"a".to_string());
    let second = m.get(&"a".to_string());
    assert!(first.is_some());
    assert_eq!(first, second);
    assert_eq!(m.get(&"b".to_string()), m.get(&"b".to_string()));
}

#[test]
fn later_post_wins_on_equal_keys() {
    let t = body_only_templates();
    let m = PostManager::new(vec![source("a.md", Some("one")), source("a.md", Some("two"))], &t).unwrap();
    assert_eq!(m.get_post_list().len(), 2);
    assert_eq!(m.get(&"a".to_string()), Some("<p>two</p>\n".to_string()));
}

#[test]
fn missing_directory_gives_empty_store() {
    let found = collect_post_paths(false, Some(vec!["x.md".to_string()]));
    assert!(found.is_empty());
    assert!(collect_post_paths::<String>(true, None).is_empty());
    assert_eq!(collect_post_paths(true, Some(vec!["x.md".to_string()])), vec!["x.md".to_string()]);
    let t = default_templates();
    let m = PostManager::new(vec![], &t).unwrap();
    assert!(m.get_post_list().is_empty());
    assert_eq!(m.get(&"x".to_string()), None);
    let home = index(&t, &m).unwrap();
    assert_eq!(home.status, 200);
}

#[test]
fn unknown_post_redirects() {
    let t = default_templates();
    let m = PostManager::new(vec![source("a.md", Some("x"))], &t).unwrap();
    let r = render_post(&"nope".to_string(), &m);
    assert_eq!(r.status, 307);
    assert_eq!(r.location, Some("/404".to_string()));
    let r = render_post(&"a".to_string(), &m);
    assert_eq!(r.status, 200);
    assert_eq!(Some(r.body), m.get(&"a".to_string()));
    let r = redirect_to_not_found();
    assert_eq!(r.status, 307);
    assert_eq!(r.location, Some("/404".to_string()));
}

#[test]
fn not_found_page_is_ok() {
    let t = default_templates();
    let r = not_found(&t).unwrap();
    assert_eq!(r.status, 200);
    assert_eq!(r.body, t.render_404().unwrap());
    assert!(r.location.is_none());
}

#[test]
fn home_lists_posts_in_order() {
    let t = default_templates();
    let m = PostManager::new(
        vec![source("zeta.md", Some("z")), source("alpha-one.md", None)],
        &t,
    )
    .unwrap();
    let r = index(&t, &m).unwrap();
    assert_eq!(r.status, 200);
    let z = r.body.find("<a href=\"/post/zeta\">Zeta</a>").unwrap();
    let a = r.body.find("<a href=\"/post/alpha-one\">Alpha One</a>").unwrap();
    assert!(z < a);
    assert_eq!(r.body.matches("/post/zeta").count(), 1);
    assert!(DEFAULT_HOME.contains("posts"));
}

#[test]
fn post_bindings_are_verbatim() {
    let t = Templates::new(
        TemplateOverride::NotGiven,
        TemplateOverride::Contents("{{ title }}|{{ body }}".to_string()),
        TemplateOverride::NotGiven,
    )
    .unwrap();
    assert_eq!(
        t.render_post("T".to_string(), "<p>a & b</p>".to_string()).unwrap(),
        "T|<p>a & b</p>"
    );
}

#[test]
fn readable_not_found_override_is_rendered() {
    let t = Templates::new(
        TemplateOverride::NotGiven,
        TemplateOverride::NotGiven,
        TemplateOverride::Contents("<h1>gone</h1>".to_string()),
    )
    .unwrap();
    assert_eq!(t.render_404().unwrap(), "<h1>gone</h1>");
    let r = not_found(&t).unwrap();
    assert_eq!(r.body, "<h1>gone</h1>");
}

#[test]
fn default_post_page_holds_body() {
    let t = default_templates();
    let page = t.render_post("A Title".to_string(), "<p>unique-body</p>".to_string()).unwrap();
    assert!(page.contains("<p>unique-body</p>"));
    assert!(page.contains("A Title"));
}

#[test]
fn task_lists_stay_off() {
    let t = body_only_templates();
    let html = get_post_html("s.md", &Some("- [ ] a\n".to_string()), &t).unwrap();
    assert!(!html.contains("<input"));
    let html = get_post_html("s.md", &Some("| a | b |\n|---|---|\n| 1 | 2 |\n".to_string()), &t).unwrap();
    assert!(!html.contains("<table"));
}

#[test]
fn double_suffix_keeps_inner_md() {
    let t = body_only_templates();
    let m = PostManager::new(vec![source("a.md", Some("one")), source("a.md.md", Some("two"))], &t).unwrap();
    let list = m.get_post_list();
    assert_eq!(list[0].key, "a");
    assert_eq!(list[1].key, "a.md");
    assert_eq!(m.get(&"a".to_string()), Some("<p>one</p>\n".to_string()));
    assert_eq!(m.get(&"a.md".to_string()), Some("<p>two</p>\n".to_string()));
}
