use vstd::prelude::*;

use crate::templates::{is_post_page, TemplateError, TemplateSlot, Templates};
use crate::text::{chars_of, string_from_chars, upper_of, uppercase};

verus! {

/// Whether `s` ends with the Markdown suffix `.md`.
pub open spec fn has_md_suffix(s: Seq<char>) -> bool {
    s.len() >= 3 && s[s.len() - 3] == '.' && s[s.len() - 2] == 'm' && s[s.len() - 1] == 'd'
}

/// The key of a post: its file name without the `.md` suffix.
pub open spec fn key_of(name: Seq<char>) -> Seq<char> {
    if has_md_suffix(name) {
        name.subrange(0, name.len() - 3)
    } else {
        name
    }
}

/// Two Markdown file names with the same key are the same name.
pub proof fn lemma_key_of_injective(a: Seq<char>, b: Seq<char>)
    requires
        has_md_suffix(a),
        has_md_suffix(b),
        key_of(a) == key_of(b),
    ensures
        a == b,
{
    assert(key_of(a).len() == a.len() - 3);
    assert(key_of(b).len() == b.len() - 3);
    assert(a.len() == b.len());
    assert forall|i: int| 0 <= i < a.len() implies a[i] == b[i] by {
        if i < a.len() - 3 {
            assert(a[i] == key_of(a)[i]);
            assert(b[i] == key_of(b)[i]);
        }
    }
    assert(a =~= b);
}

/// The characters that separate the words of a key.
pub open spec fn is_separator(c: char) -> bool {
    c == '-' || c == '_' || c == ' '
}

/// What the character at `i` of a key becomes in the title: a separator
/// becomes a space, the first character of a word its uppercase form, any
/// other character itself.
pub open spec fn title_piece(key: Seq<char>, i: int) -> Seq<char> {
    if is_separator(key[i]) {
        seq![' ']
    } else if i == 0 || is_separator(key[i - 1]) {
        upper_of(key[i])
    } else {
        seq![key[i]]
    }
}

/// The title made of the first `n` characters of a key.
pub open spec fn title_upto(key: Seq<char>, n: int) -> Seq<char>
    decreases n,
{
    if n <= 0 {
        Seq::empty()
    } else {
        title_upto(key, n - 1) + title_piece(key, n - 1)
    }
}

/// The title of a post: its key split into words at `-`, `_` and spaces,
/// each word capitalised, the words joined by single spaces.
pub open spec fn title_of(key: Seq<char>) -> Seq<char> {
    title_upto(key, key.len() as int)
}

/// The words of a key: the runs between separators, empty ones included.
pub open spec fn split_words(s: Seq<char>) -> Seq<Seq<char>>
    decreases s.len(),
{
    if s.len() == 0 {
        seq![Seq::empty()]
    } else {
        let ws = split_words(s.drop_last());
        if is_separator(s.last()) {
            ws.push(Seq::empty())
        } else {
            ws.update(ws.len() - 1, ws.last().push(s.last()))
        }
    }
}

/// A word with its first character in uppercase.
pub open spec fn capitalize(w: Seq<char>) -> Seq<char> {
    if w.len() == 0 {
        w
    } else {
        upper_of(w[0]) + w.drop_first()
    }
}

/// The words joined by single spaces.
pub open spec fn join_words(ws: Seq<Seq<char>>) -> Seq<char>
    decreases ws.len(),
{
    if ws.len() == 0 {
        Seq::empty()
    } else if ws.len() == 1 {
        ws[0]
    } else {
        join_words(ws.drop_last()) + seq![' '] + ws.last()
    }
}

/// The title as split, capitalise and join.
pub open spec fn title_by_words(key: Seq<char>) -> Seq<char> {
    join_words(split_words(key).map_values(|w: Seq<char>| capitalize(w)))
}

proof fn lemma_split_words_last(s: Seq<char>)
    ensures
        split_words(s).len() >= 1,
        split_words(s).last().len() == 0 <==> (s.len() == 0 || is_separator(s.last())),
    decreases s.len(),
{
    if s.len() > 0 {
        lemma_split_words_last(s.drop_last());
    }
}

/// Joining words whose last one is replaced keeps what comes before it.
proof fn lemma_join_replace_last(ws: Seq<Seq<char>>, w: Seq<char>)
    requires
        ws.len() >= 1,
    ensures
        ws.len() == 1 ==> join_words(ws.update(0, w)) == w,
        ws.len() > 1 ==> join_words(ws.update(ws.len() - 1, w)) == join_words(ws.drop_last()) + seq![' '] + w,
{
    let u = ws.update(ws.len() - 1, w);
    if ws.len() > 1 {
        assert(u.drop_last() =~= ws.drop_last());
    }
}

/// The title rule, character by character, is the split, capitalise and
/// join rule on every prefix of a key.
proof fn lemma_title_upto_by_words(key: Seq<char>, n: int)
    requires
        0 <= n <= key.len(),
    ensures
        title_upto(key, n) == title_by_words(key.take(n)),
    decreases n,
{
    let cap = |w: Seq<char>| capitalize(w);
    if n == 0 {
        assert(key.take(0) =~= Seq::<char>::empty());
        assert(split_words(key.take(0)).map_values(cap) =~= seq![Seq::<char>::empty()]);
    } else {
        lemma_title_upto_by_words(key, n - 1);
        let s = key.take(n);
        let p = key.take(n - 1);
        assert(s.drop_last() =~= p);
        assert(s.last() == key[n - 1]);
        let c = key[n - 1];
        let ws = split_words(p);
        lemma_split_words_last(p);
        let cws = ws.map_values(cap);
        if is_separator(c) {
            assert(split_words(s).map_values(cap) =~= cws.push(Seq::empty()));
            assert(cws.push(Seq::<char>::empty()).drop_last() =~= cws);
            assert(title_by_words(s) =~= title_by_words(p) + seq![' ']);
        } else {
            let w = ws.last();
            let nw = w.push(c);
            assert(split_words(s) == ws.update(ws.len() - 1, nw));
            assert(split_words(s).map_values(cap) =~= cws.update(cws.len() - 1, capitalize(nw)));
            lemma_join_replace_last(cws, capitalize(nw));
            if n - 1 == 0 || is_separator(key[n - 2]) {
                if n - 1 > 0 {
                    assert(p.last() == key[n - 2]);
                }
                assert(w.len() == 0);
                assert(nw =~= seq![c]);
                assert(nw.drop_first() =~= Seq::<char>::empty());
                assert(capitalize(nw) =~= upper_of(c));
                assert(cws.last() == capitalize(w));
                if cws.len() > 1 {
                    assert(join_words(cws) == join_words(cws.drop_last()) + seq![' '] + Seq::<char>::empty());
                    assert(join_words(cws.drop_last()) + seq![' '] + Seq::<char>::empty() =~= join_words(cws.drop_last()) + seq![' ']);
                    assert(title_by_words(s) =~= title_by_words(p) + upper_of(c));
                } else {
                    assert(title_by_words(s) =~= title_by_words(p) + upper_of(c));
                }
            } else {
                assert(p.last() == key[n - 2]);
                assert(w.len() > 0);
                assert(capitalize(nw) =~= capitalize(w).push(c));
                assert(cws.last() == capitalize(w));
                if cws.len() > 1 {
                    assert(title_by_words(s) =~= title_by_words(p) + seq![c]);
                } else {
                    assert(title_by_words(s) =~= title_by_words(p) + seq![c]);
                }
            }
        }
    }
}

/// The title of a key is its words, split at `-`, `_` and spaces, each
/// capitalised, joined by single spaces; empty words stay empty.
pub proof fn lemma_title_is_split_capitalize_join(key: Seq<char>)
    ensures
        title_of(key) == title_by_words(key),
{
    lemma_title_upto_by_words(key, key.len() as int);
    assert(key.take(key.len() as int) =~= key);
}

/// Whether every character of `s` is ASCII.
pub open spec fn all_ascii(s: Seq<char>) -> bool {
    forall|i: int| 0 <= i < s.len() ==> (#[trigger] s[i] as u32) < 128
}

/// Whether `c` is character `i` of the title of an ASCII key: a space for a
/// separator, the capital of a lowercase letter that starts a word, else the
/// key's own character.
pub open spec fn ascii_title_char(key: Seq<char>, i: int, c: char) -> bool {
    if is_separator(key[i]) {
        c == ' '
    } else if (i == 0 || is_separator(key[i - 1])) && 'a' <= key[i] <= 'z' {
        c as u32 == key[i] as u32 - 32
    } else {
        c == key[i]
    }
}

/// The key of the post stored in the file `file_name`.
pub fn get_post_key(file_name: &str) -> (r: String)
    ensures
        r@ == key_of(file_name@),
{
    let mut v = chars_of(file_name);
    if v.len() >= 3 && v[v.len() - 3] == '.' && v[v.len() - 2] == 'm' && v[v.len() - 1] == 'd' {
        let n = v.len() - 3;
        v.truncate(n);
        assert(v@ =~= file_name@.subrange(0, n as int));
    }
    string_from_chars(&v)
}

/// The title of a post with key `key`.
pub fn title_for_key(key: &str) -> (r: String)
    ensures
        r@ == title_of(key@),
        r@ == title_by_words(key@),
        all_ascii(key@) ==> r@.len() == key@.len() && forall|i: int|
            0 <= i < key@.len() ==> ascii_title_char(key@, i, #[trigger] r@[i]),
{
    let k = chars_of(key);
    let mut out: Vec<char> = Vec::new();
    let mut i: usize = 0;
    while i < k.len()
        invariant
            k@ == key@,
            i <= k.len(),
            out@ == title_upto(k@, i as int),
            all_ascii(k@) ==> out@.len() == i && forall|j: int|
                0 <= j < i ==> ascii_title_char(k@, j, #[trigger] out@[j]),
        decreases k.len() - i,
    {
        let c = k[i];
        let ghost before = out@;
        if c == '-' || c == '_' || c == ' ' {
            out.push(' ');
        } else if i == 0 || k[i - 1] == '-' || k[i - 1] == '_' || k[i - 1] == ' ' {
            let mut up = uppercase(c);
            out.append(&mut up);
        } else {
            out.push(c);
        }
        proof {
            if all_ascii(k@) {
                assert((k@[i as int] as u32) < 128);
                assert forall|j: int| 0 <= j < i + 1 implies ascii_title_char(
                    k@,
                    j,
                    #[trigger] out@[j],
                ) by {
                    if j < i {
                        assert(out@[j] == before[j]);
                    }
                }
            }
        }
        i = i + 1;
    }
    proof {
        lemma_title_is_split_capitalize_join(key@);
    }
    string_from_chars(&out)
}

/// The title of the post stored in the file `file_name`.
pub fn get_post_title(file_name: &str) -> (r: String)
    ensures
        r@ == title_of(key_of(file_name@)),
{
    let key = get_post_key(file_name);
    title_for_key(key.as_str())
}

/// One entry of the post list: the key in the URL and the title shown.
pub struct PostItem {
    pub key: String,
    pub title: String,
}

impl View for PostItem {
    type V = (Seq<char>, Seq<char>);

    open spec fn view(&self) -> Self::V {
        (self.key@, self.title@)
    }
}

/// A Markdown file found in the posts directory: its file name, and its text
/// when it could be read.
pub struct PostSource {
    pub file_name: String,
    pub markdown: Option<String>,
}

/// The list entry of the post stored in the file `name`.
pub open spec fn item_of(name: Seq<char>) -> (Seq<char>, Seq<char>) {
    (key_of(name), title_of(key_of(name)))
}

/// The list entries of the given files, in order.
pub open spec fn items_of(sources: Seq<PostSource>) -> Seq<(Seq<char>, Seq<char>)> {
    sources.map_values(|s: PostSource| item_of(s.file_name@))
}

/// The files of the posts directory that become posts: none when the
/// directory does not exist or could not be listed, else every match.
pub fn collect_post_paths<P>(dir_is_dir: bool, matches: Option<Vec<P>>) -> (r: Vec<P>)
    ensures
        !dir_is_dir ==> r@.len() == 0,
        dir_is_dir && matches is None ==> r@.len() == 0,
        dir_is_dir && matches is Some ==> r@ == matches->0@,
{
    if !dir_is_dir {
        return Vec::new();
    }
    match matches {
        None => Vec::new(),
        Some(v) => v,
    }
}

/// The HTML of Markdown text, as pulldown-cmark renders it with the
/// strikethrough extension and no other.
pub uninterp spec fn markdown_html(md: Seq<char>) -> Seq<char>;

/// Relies on `pulldown_cmark::Parser::new_ext` with `ENABLE_STRIKETHROUGH` and
/// `pulldown_cmark::html::push_html`: the HTML depends on the text alone.
#[verifier::external_body]
fn markdown_to_html(md: &str) -> (r: String)
    ensures
        r@ == markdown_html(md@),
{
    let parser = pulldown_cmark::Parser::new_ext(md, pulldown_cmark::Options::ENABLE_STRIKETHROUGH);
    let mut out = String::new();
    pulldown_cmark::html::push_html(&mut out, parser);
    out
}

/// The page of one post: empty when its file could not be read, else the
/// post template rendered with the post's title and its Markdown as HTML.
pub fn get_post_html(file_name: &str, markdown: &Option<String>, tmpl: &Templates) -> (r: Result<
    String,
    TemplateError,
>)
    ensures
        markdown is None ==> (r matches Ok(s) && s@ == Seq::<char>::empty()),
        markdown matches Some(md) ==> (r matches Ok(s) ==> is_post_page(
            tmpl@,
            title_of(key_of(file_name@)),
            markdown_html(md@),
            s@,
        )),
        r matches Err(e) ==> markdown is Some && e == TemplateError::Render(TemplateSlot::Post),
{
    match markdown {
        None => Ok(String::new()),
        Some(md) => {
            let body = markdown_to_html(md.as_str());
            let title = get_post_title(file_name);
            tmpl.render_post(title, body)
        },
    }
}

/// The index of the last entry of `posts[0..n]` with key `k`.
pub open spec fn last_with_key(posts: Seq<(Seq<char>, Seq<char>)>, k: Seq<char>, n: int) -> Option<
    int,
>
    decreases n,
{
    if n <= 0 {
        None
    } else if posts[n - 1].0 == k {
        Some(n - 1)
    } else {
        last_with_key(posts, k, n - 1)
    }
}

/// The page stored for key `k`: that of the last post with this key.
pub open spec fn lookup(store: (Seq<(Seq<char>, Seq<char>)>, Seq<Seq<char>>), k: Seq<char>) -> Option<
    Seq<char>,
> {
    match last_with_key(store.0, k, store.0.len() as int) {
        Some(i) => Some(store.1[i]),
        None => None,
    }
}

/// When entry `i` of `posts[0..n]` has key `k` and no later one has, it is
/// the last with that key.
proof fn lemma_last_with_key_at(posts: Seq<(Seq<char>, Seq<char>)>, k: Seq<char>, i: int, n: int)
    requires
        0 <= i < n <= posts.len(),
        posts[i].0 == k,
        forall|j: int| i < j < n ==> #[trigger] posts[j].0 != k,
    ensures
        last_with_key(posts, k, n) == Some(i),
    decreases n,
{
    if n - 1 != i {
        lemma_last_with_key_at(posts, k, i, n - 1);
    }
}

/// In a store built from distinct Markdown files, each file has exactly one
/// list entry, under its key, and looking that key up gives that entry's page.
pub proof fn lemma_each_post_listed_once(
    store: (Seq<(Seq<char>, Seq<char>)>, Seq<Seq<char>>),
    sources: Seq<PostSource>,
    i: int,
)
    requires
        store.0 == items_of(sources),
        store.1.len() == sources.len(),
        forall|a: int| 0 <= a < sources.len() ==> has_md_suffix(#[trigger] sources[a].file_name@),
        forall|a: int, b: int|
            0 <= a < sources.len() && 0 <= b < sources.len() && a != b ==> (
            #[trigger] sources[a].file_name@) != (#[trigger] sources[b].file_name@),
        0 <= i < sources.len(),
    ensures
        store.0[i] == item_of(sources[i].file_name@),
        forall|j: int|
            0 <= j < store.0.len() && #[trigger] store.0[j].0 == key_of(sources[i].file_name@)
                ==> j == i,
        lookup(store, key_of(sources[i].file_name@)) == Some(store.1[i]),
{
    let k = key_of(sources[i].file_name@);
    assert forall|j: int| 0 <= j < store.0.len() && #[trigger] store.0[j].0 == k implies j == i by {
        assert(store.0[j] == item_of(sources[j].file_name@));
        if j != i {
            lemma_key_of_injective(sources[j].file_name@, sources[i].file_name@);
        }
    }
    lemma_last_with_key_at(store.0, k, i, store.0.len() as int);
}

/// A store with no posts has no page for any key.
pub proof fn lemma_empty_store_finds_nothing(
    store: (Seq<(Seq<char>, Seq<char>)>, Seq<Seq<char>>),
    k: Seq<char>,
)
    requires
        store.0.len() == 0,
    ensures
        lookup(store, k) is None,
{
}

/// The posts, each with its rendered page, built once and never changed.
pub struct PostManager {
    post_list: Vec<PostItem>,
    render_cache: Vec<String>,
}

impl View for PostManager {
    /// The list entries in scan order, and the page of each entry.
    type V = (Seq<(Seq<char>, Seq<char>)>, Seq<Seq<char>>);

    closed spec fn view(&self) -> Self::V {
        (self.post_list@.map_values(|p: PostItem| p@), self.render_cache@.map_values(|s: String| s@))
    }
}

impl PostManager {
    #[verifier::type_invariant]
    spec fn inv(&self) -> bool {
        self.post_list.len() == self.render_cache.len()
    }

    /// Builds the store from the files found, in their order: each file gives
    /// one list entry and one page.
    pub fn new(sources: Vec<PostSource>, templates: &Templates) -> (r: Result<Self, TemplateError>)
        ensures
            r matches Ok(m) ==> {
                &&& m@.0 == items_of(sources@)
                &&& m@.1.len() == sources@.len()
                &&& forall|i: int|
                    0 <= i < sources@.len() && sources@[i].markdown is None ==> #[trigger] m@.1[i]
                        == Seq::<char>::empty()
                &&& forall|i: int|
                    0 <= i < sources@.len() && sources@[i].markdown is Some ==> is_post_page(
                        templates@,
                        title_of(key_of(sources@[i].file_name@)),
                        markdown_html(sources@[i].markdown->0@),
                        #[trigger] m@.1[i],
                    )
            },
            r matches Err(e) ==> e == TemplateError::Render(TemplateSlot::Post) && exists|i: int|
                0 <= i < sources@.len() && (#[trigger] sources@[i]).markdown is Some,
    {
        let mut m = PostManager { post_list: Vec::new(), render_cache: Vec::new() };
        let mut i: usize = 0;
        while i < sources.len()
            invariant
                i <= sources.len(),
                m@.0.len() == i,
                m@.1.len() == i,
                forall|j: int| 0 <= j < i ==> #[trigger] m@.0[j] == item_of(sources@[j].file_name@),
                forall|j: int|
                    0 <= j < i && sources@[j].markdown is None ==> #[trigger] m@.1[j]
                        == Seq::<char>::empty(),
                forall|j: int|
                    0 <= j < i && sources@[j].markdown is Some ==> is_post_page(
                        templates@,
                        title_of(key_of(sources@[j].file_name@)),
                        markdown_html(sources@[j].markdown->0@),
                        #[trigger] m@.1[j],
                    ),
            decreases sources.len() - i,
        {
            let src = &sources[i];
            let html = match get_post_html(src.file_name.as_str(), &src.markdown, templates) {
                Ok(h) => h,
                Err(e) => {
                    return Err(e);
                },
            };
            let key = get_post_key(src.file_name.as_str());
            let title = get_post_title(src.file_name.as_str());
            m = m.with_post(PostItem { key, title }, html);
            i = i + 1;
        }
        assert(m@.0 =~= items_of(sources@));
        Ok(m)
    }

    /// The store with one more post and its page at the end.
    fn with_post(self, item: PostItem, page: String) -> (r: Self)
        ensures
            r@ == (self@.0.push(item@), self@.1.push(page@)),
    {
        proof {
            use_type_invariant(&self);
        }
        let ghost old_view = self@;
        let PostManager { mut post_list, mut render_cache } = self;
        post_list.push(item);
        render_cache.push(page);
        let r = PostManager { post_list, render_cache };
        assert(r@.0 =~= old_view.0.push(item@));
        assert(r@.1 =~= old_view.1.push(page@));
        r
    }

    /// The page stored for `post`, if any.
    pub fn get(&self, post: &String) -> (r: Option<String>)
        ensures
            r matches Some(s) ==> lookup(self@, post@) == Some(s@),
            r is None ==> lookup(self@, post@) is None,
    {
        proof {
            use_type_invariant(self);
        }
        let mut i: usize = self.post_list.len();
        while i > 0
            invariant
                i <= self.post_list.len(),
                self.post_list.len() == self.render_cache.len(),
                last_with_key(self@.0, post@, self@.0.len() as int) == last_with_key(
                    self@.0,
                    post@,
                    i as int,
                ),
            decreases i,
        {
            if self.post_list[i - 1].key == *post {
                return Some(self.render_cache[i - 1].clone());
            }
            i = i - 1;
        }
        None
    }

    /// The list entries, in scan order.
    pub fn get_post_list(&self) -> (r: Vec<PostItem>)
        ensures
            r@.map_values(|p: PostItem| p@) == self@.0,
    {
        let mut out: Vec<PostItem> = Vec::new();
        let mut i: usize = 0;
        while i < self.post_list.len()
            invariant
                i <= self.post_list.len(),
                out.len() == i,
                forall|j: int| 0 <= j < i ==> #[trigger] out@[j]@ == self.post_list@[j]@,
            decreases self.post_list.len() - i,
        {
            let p = &self.post_list[i];
            out.push(PostItem { key: p.key.clone(), title: p.title.clone() });
            i = i + 1;
        }
        assert(out@.map_values(|p: PostItem| p@) =~= self@.0);
        out
    }
}

} // verus!
