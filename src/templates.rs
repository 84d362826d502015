use vstd::prelude::*;

use crate::posts::PostItem;

verus! {

/// The built-in page that lists the posts.
pub const DEFAULT_HOME: &'static str = "<!DOCTYPE html>\n<html>\n<head>\n<meta charset=\"utf-8\">\n<title>Posts</title>\n<link rel=\"stylesheet\" href=\"/assets/style.css\">\n</head>\n<body>\n<main>\n<h1>Posts</h1>\n<ul>\n{% for post in posts %}<li><a href=\"/post/{{ post.key }}\">{{ post.title }}</a></li>\n{% endfor %}</ul>\n</main>\n</body>\n</html>\n";

/// The built-in page that shows one post.
pub const DEFAULT_POST: &'static str = "<!DOCTYPE html>\n<html>\n<head>\n<meta charset=\"utf-8\">\n<title>{{ title }}</title>\n<link rel=\"stylesheet\" href=\"/assets/style.css\">\n</head>\n<body>\n<nav><a href=\"/\">Home</a></nav>\n<main>\n<article>\n<h1>{{ title }}</h1>\n{{ body | safe }}\n</article>\n</main>\n</body>\n</html>\n";

/// The built-in page for a post that does not exist.
pub const DEFAULT_NOT_FOUND: &'static str = "<!DOCTYPE html>\n<html>\n<head>\n<meta charset=\"utf-8\">\n<title>Not found</title>\n<link rel=\"stylesheet\" href=\"/assets/style.css\">\n</head>\n<body>\n<main>\n<h1>Not found</h1>\n<p>There is no such page. <a href=\"/\">Back to the posts</a>.</p>\n</main>\n</body>\n</html>\n";

/// The three pages that the engine renders.
#[derive(Clone, Copy, Debug, PartialEq, Eq, Structural)]
pub enum TemplateSlot {
    Home,
    Post,
    NotFound,
}

/// What was found at the configured override path of one template.
pub enum TemplateOverride {
    /// No path was configured.
    NotGiven,
    /// A path was configured but could not be read as text.
    Unreadable,
    /// The text read from the configured path.
    Contents(String),
}

/// Why the engine could not be built or could not render a page.
#[derive(Clone, Copy, Debug, PartialEq, Eq, Structural)]
pub enum TemplateError {
    /// The template of this slot does not parse.
    Invalid(TemplateSlot),
    /// Rendering the template of this slot failed.
    Render(TemplateSlot),
}

#[verifier::external_type_specification]
#[verifier::external_body]
pub struct ExTera(tera::Tera);

#[verifier::external_type_specification]
#[verifier::external_body]
pub struct ExTeraContext(tera::Context);

#[verifier::external_type_specification]
#[verifier::external_body]
pub struct ExTeraError(tera::Error);

/// The template texts registered in an engine, by name.
pub uninterp spec fn engine_templates(e: tera::Tera) -> Map<Seq<char>, Seq<char>>;

/// Whether `content` parses and can be registered under `name` in an engine
/// that holds `registered`.
pub uninterp spec fn adds_cleanly(registered: Map<Seq<char>, Seq<char>>, name: Seq<char>, content: Seq<char>) -> bool;

/// The string values bound in a context, by key.
pub uninterp spec fn context_texts(c: tera::Context) -> Map<Seq<char>, Seq<char>>;

/// The lists of posts, as (key, title) pairs, bound in a context, by key.
pub uninterp spec fn context_lists(c: tera::Context) -> Map<Seq<char>, Seq<(Seq<char>, Seq<char>)>>;

/// Whether `out` is an outcome of rendering the template registered under
/// `name`, among `registered`, with the given bindings. Templates may call
/// `now`, `get_random` or `get_env`, so one input may have several outcomes.
pub uninterp spec fn is_rendering(
    registered: Map<Seq<char>, Seq<char>>,
    name: Seq<char>,
    texts: Map<Seq<char>, Seq<char>>,
    lists: Map<Seq<char>, Seq<(Seq<char>, Seq<char>)>>,
    out: Seq<char>,
) -> bool;

/// Relies on `tera::Tera::default`: an engine with no templates and the
/// built-in filters, testers and functions.
#[verifier::external_body]
fn empty_engine() -> (r: tera::Tera)
    ensures
        engine_templates(r).dom().is_empty(),
{
    tera::Tera::default()
}

/// Relies on `tera::Tera::add_raw_template`: parses `content` and, when the
/// engine's templates allow it, registers it under `name`; whether it fails
/// depends on the templates registered before and on the new one alone.
#[verifier::external_body]
fn add_template(engine: &mut tera::Tera, name: &str, content: &str) -> (r: Result<(), tera::Error>)
    ensures
        r is Ok <==> adds_cleanly(engine_templates(*old(engine)), name@, content@),
        r is Ok ==> engine_templates(*final(engine)) == engine_templates(*old(engine)).insert(
            name@,
            content@,
        ),
{
    engine.add_raw_template(name, content)
}

/// Relies on `tera::Context::new`: an empty context.
#[verifier::external_body]
fn empty_context() -> (r: tera::Context)
    ensures
        context_texts(r).dom().is_empty(),
        context_lists(r).dom().is_empty(),
{
    tera::Context::new()
}

/// Relies on `tera::Context::insert`: binds `key` to the string `value`,
/// replacing what the key held.
#[verifier::external_body]
fn bind_text(ctx: &mut tera::Context, key: &str, value: &str)
    ensures
        context_texts(*final(ctx)) == context_texts(*old(ctx)).insert(key@, value@),
        context_lists(*final(ctx)) == context_lists(*old(ctx)).remove(key@),
{
    ctx.insert(key, value)
}

/// Relies on `tera::Context::insert`: binds `key` to a list of objects, each
/// with the fields `key` and `title` of one post, in order, replacing what the
/// key held.
#[verifier::external_body]
fn bind_posts(ctx: &mut tera::Context, key: &str, posts: &Vec<PostItem>)
    ensures
        context_lists(*final(ctx)) == context_lists(*old(ctx)).insert(
            key@,
            posts@.map_values(|p: PostItem| p@),
        ),
        context_texts(*final(ctx)) == context_texts(*old(ctx)).remove(key@),
{
    let list: Vec<std::collections::BTreeMap<&str, &str>> = posts
        .iter()
        .map(|p| std::collections::BTreeMap::from([("key", p.key.as_str()), ("title", p.title.as_str())]))
        .collect();
    ctx.insert(key, &list)
}

/// Relies on `tera::Tera::render`: renders the template registered under
/// `name` with `ctx`, or fails. Templates may call functions such as `now`,
/// so the text is only said to be one outcome of that rendering.
#[verifier::external_body]
fn render_template(engine: &tera::Tera, name: &str, ctx: &tera::Context) -> (r: Result<String, tera::Error>)
    ensures
        r matches Ok(s) ==> is_rendering(
            engine_templates(*engine),
            name@,
            context_texts(*ctx),
            context_lists(*ctx),
            s@,
        ),
{
    engine.render(name, ctx)
}

/// The templates of an engine holding `sources` for the home, post and
/// not-found pages.
pub open spec fn engine_map(sources: (Seq<char>, Seq<char>, Seq<char>)) -> Map<Seq<char>, Seq<char>> {
    Map::<Seq<char>, Seq<char>>::empty().insert("home"@, sources.0).insert("post"@, sources.1).insert(
        "404"@,
        sources.2,
    )
}

/// Whether an empty engine accepts the three texts, registered in turn.
pub open spec fn templates_accepted(sources: (Seq<char>, Seq<char>, Seq<char>)) -> bool {
    let e0 = Map::<Seq<char>, Seq<char>>::empty();
    let e1 = e0.insert("home"@, sources.0);
    let e2 = e1.insert("post"@, sources.1);
    &&& adds_cleanly(e0, "home"@, sources.0)
    &&& adds_cleanly(e1, "post"@, sources.1)
    &&& adds_cleanly(e2, "404"@, sources.2)
}

/// The bindings of the post page.
pub open spec fn post_bindings(title: Seq<char>, body: Seq<char>) -> Map<Seq<char>, Seq<char>> {
    Map::<Seq<char>, Seq<char>>::empty().insert("title"@, title).insert("body"@, body)
}

/// The bindings of the home page.
pub open spec fn home_bindings(posts: Seq<(Seq<char>, Seq<char>)>) -> Map<
    Seq<char>,
    Seq<(Seq<char>, Seq<char>)>,
> {
    Map::<Seq<char>, Seq<(Seq<char>, Seq<char>)>>::empty().insert("posts"@, posts)
}

/// Whether `out` is an outcome of rendering the post page of an engine holding
/// `sources`, with `title` and `body`.
pub open spec fn is_post_page(sources: (Seq<char>, Seq<char>, Seq<char>), title: Seq<char>, body: Seq<char>, out: Seq<char>) -> bool {
    is_rendering(engine_map(sources), "post"@, post_bindings(title, body), Map::empty(), out)
}

/// Whether `out` is an outcome of rendering the home page of an engine holding
/// `sources`, listing `posts`.
pub open spec fn is_home_page(sources: (Seq<char>, Seq<char>, Seq<char>), posts: Seq<(Seq<char>, Seq<char>)>, out: Seq<char>) -> bool {
    is_rendering(engine_map(sources), "home"@, Map::empty(), home_bindings(posts), out)
}

/// Whether `out` is an outcome of rendering the not-found page of an engine
/// holding `sources`.
pub open spec fn is_not_found_page(sources: (Seq<char>, Seq<char>, Seq<char>), out: Seq<char>) -> bool {
    is_rendering(engine_map(sources), "404"@, Map::empty(), Map::empty(), out)
}

/// The template text used for one slot: the override's contents when it
/// could be read, the built-in text otherwise.
pub open spec fn source_for(o: TemplateOverride, default: Seq<char>) -> Seq<char> {
    match o {
        TemplateOverride::Contents(s) => s@,
        _ => default,
    }
}

/// The template texts of the home, post and not-found pages chosen from the
/// three overrides.
pub open spec fn engine_sources(home: TemplateOverride, post: TemplateOverride, not_found: TemplateOverride) -> (
    Seq<char>,
    Seq<char>,
    Seq<char>,
) {
    (
        source_for(home, DEFAULT_HOME@),
        source_for(post, DEFAULT_POST@),
        source_for(not_found, DEFAULT_NOT_FOUND@),
    )
}

/// An override that could not be read gives the engine the same template
/// texts as no override at all: the built-in text in that slot, whatever the
/// other two slots hold. So each page has the same possible renderings.
pub proof fn lemma_unreadable_override_is_default(
    home: TemplateOverride,
    post: TemplateOverride,
    not_found: TemplateOverride,
)
    ensures
        engine_sources(TemplateOverride::Unreadable, post, not_found) == engine_sources(
            TemplateOverride::NotGiven,
            post,
            not_found,
        ),
        engine_sources(home, TemplateOverride::Unreadable, not_found) == engine_sources(
            home,
            TemplateOverride::NotGiven,
            not_found,
        ),
        engine_sources(home, post, TemplateOverride::Unreadable) == engine_sources(
            home,
            post,
            TemplateOverride::NotGiven,
        ),
        engine_sources(TemplateOverride::Unreadable, post, not_found).0 == DEFAULT_HOME@,
        engine_sources(home, TemplateOverride::Unreadable, not_found).1 == DEFAULT_POST@,
        engine_sources(home, post, TemplateOverride::Unreadable).2 == DEFAULT_NOT_FOUND@,
        forall|title: Seq<char>, body: Seq<char>, out: Seq<char>|
            is_post_page(engine_sources(home, TemplateOverride::Unreadable, not_found), title, body, out)
                == is_post_page(engine_sources(home, TemplateOverride::NotGiven, not_found), title, body, out),
        forall|posts: Seq<(Seq<char>, Seq<char>)>, out: Seq<char>|
            is_home_page(engine_sources(TemplateOverride::Unreadable, post, not_found), posts, out)
                == is_home_page(engine_sources(TemplateOverride::NotGiven, post, not_found), posts, out),
        forall|out: Seq<char>|
            is_not_found_page(engine_sources(home, post, TemplateOverride::Unreadable), out)
                == is_not_found_page(engine_sources(home, post, TemplateOverride::NotGiven), out),
{
}

/// Chooses the template text of one slot.
pub fn choose_template(o: TemplateOverride, default: &str) -> (r: String)
    ensures
        r@ == source_for(o, default@),
{
    broadcast use vstd::string::to_string_from_display_ensures_for_str;

    match o {
        TemplateOverride::Contents(s) => s,
        _ => default.to_string(),
    }
}

/// The engine that renders the three pages.
pub struct Templates {
    engine: tera::Tera,
    /// The texts registered for the home, post and not-found pages.
    sources: Ghost<(Seq<char>, Seq<char>, Seq<char>)>,
}

impl View for Templates {
    type V = (Seq<char>, Seq<char>, Seq<char>);

    /// The template texts of the home, post and not-found pages.
    closed spec fn view(&self) -> Self::V {
        self.sources@
    }
}

impl Templates {
    #[verifier::type_invariant]
    spec fn inv(&self) -> bool {
        engine_templates(self.engine) == engine_map(self.sources@)
    }

    /// Builds the engine: each slot takes its override's contents when they
    /// could be read and the built-in text otherwise. It succeeds exactly when
    /// the three texts parse and register in turn.
    pub fn new(home: TemplateOverride, post: TemplateOverride, not_found: TemplateOverride) -> (r:
        Result<Templates, TemplateError>)
        ensures
            r is Ok <==> templates_accepted(engine_sources(home, post, not_found)),
            r matches Ok(t) ==> t@ == engine_sources(home, post, not_found),
            r matches Err(e) ==> e is Invalid,
    {
        let ghost sources = engine_sources(home, post, not_found);
        let mut engine = empty_engine();
        assert(engine_templates(engine) =~= Map::<Seq<char>, Seq<char>>::empty());
        let home_text = choose_template(home, DEFAULT_HOME);
        if add_template(&mut engine, "home", home_text.as_str()).is_err() {
            return Err(TemplateError::Invalid(TemplateSlot::Home));
        }
        let post_text = choose_template(post, DEFAULT_POST);
        if add_template(&mut engine, "post", post_text.as_str()).is_err() {
            return Err(TemplateError::Invalid(TemplateSlot::Post));
        }
        let not_found_text = choose_template(not_found, DEFAULT_NOT_FOUND);
        if add_template(&mut engine, "404", not_found_text.as_str()).is_err() {
            return Err(TemplateError::Invalid(TemplateSlot::NotFound));
        }
        Ok(Templates { engine, sources: Ghost(sources) })
    }

    /// Renders the post template with `title` and the post's HTML as `body`,
    /// both bound as given.
    pub fn render_post(&self, title: String, content: String) -> (r: Result<String, TemplateError>)
        ensures
            r matches Ok(s) ==> is_post_page(self@, title@, content@, s@),
            r matches Err(e) ==> e == TemplateError::Render(TemplateSlot::Post),
    {
        proof {
            use_type_invariant(self);
        }
        let mut ctx = empty_context();
        assert(context_texts(ctx) =~= Map::<Seq<char>, Seq<char>>::empty());
        assert(context_lists(ctx) =~= Map::<Seq<char>, Seq<(Seq<char>, Seq<char>)>>::empty());
        bind_text(&mut ctx, "title", title.as_str());
        bind_text(&mut ctx, "body", content.as_str());
        assert(context_lists(ctx) =~= Map::empty());
        match render_template(&self.engine, "post", &ctx) {
            Ok(s) => Ok(s),
            Err(_) => Err(TemplateError::Render(TemplateSlot::Post)),
        }
    }

    /// Renders the home template with the list of posts bound as `posts`.
    pub fn render_home(&self, post_list: Vec<PostItem>) -> (r: Result<String, TemplateError>)
        ensures
            r matches Ok(s) ==> is_home_page(self@, post_list@.map_values(|p: PostItem| p@), s@),
            r matches Err(e) ==> e == TemplateError::Render(TemplateSlot::Home),
    {
        proof {
            use_type_invariant(self);
        }
        let mut ctx = empty_context();
        assert(context_texts(ctx) =~= Map::<Seq<char>, Seq<char>>::empty());
        assert(context_lists(ctx) =~= Map::<Seq<char>, Seq<(Seq<char>, Seq<char>)>>::empty());
        bind_posts(&mut ctx, "posts", &post_list);
        assert(context_texts(ctx) =~= Map::empty());
        match render_template(&self.engine, "home", &ctx) {
            Ok(s) => Ok(s),
            Err(_) => Err(TemplateError::Render(TemplateSlot::Home)),
        }
    }

    /// Renders the not-found template with nothing bound.
    pub fn render_404(&self) -> (r: Result<String, TemplateError>)
        ensures
            r matches Ok(s) ==> is_not_found_page(self@, s@),
            r matches Err(e) ==> e == TemplateError::Render(TemplateSlot::NotFound),
    {
        proof {
            use_type_invariant(self);
        }
        let ctx = empty_context();
        assert(context_texts(ctx) =~= Map::<Seq<char>, Seq<char>>::empty());
        assert(context_lists(ctx) =~= Map::<Seq<char>, Seq<(Seq<char>, Seq<char>)>>::empty());
        match render_template(&self.engine, "404", &ctx) {
            Ok(s) => Ok(s),
            Err(_) => Err(TemplateError::Render(TemplateSlot::NotFound)),
        }
    }
}

} // verus!
