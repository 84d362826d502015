use vstd::prelude::*;

use crate::posts::{lookup, PostManager};
use crate::templates::{is_home_page, is_not_found_page, TemplateError, TemplateSlot, Templates};

verus! {

/// The status of a page served.
pub const STATUS_OK: u16 = 200;

/// The status of a redirect to the not-found page.
pub const STATUS_TEMPORARY_REDIRECT: u16 = 307;

/// What the server answers to a request.
pub struct PageResponse {
    pub status: u16,
    /// The target of a redirect.
    pub location: Option<String>,
    pub body: String,
}

/// Whether `r` sends the client to the not-found page.
pub open spec fn is_redirect_to_not_found(r: PageResponse) -> bool {
    &&& r.status == 307
    &&& r.location matches Some(l) && l@ == "/404"@
    &&& r.body@.len() == 0
}

/// The answer to any request that no page serves: a temporary redirect to
/// the not-found page.
pub fn redirect_to_not_found() -> (r: PageResponse)
    ensures
        is_redirect_to_not_found(r),
{
    broadcast use vstd::string::to_string_from_display_ensures_for_str;

    PageResponse {
        status: STATUS_TEMPORARY_REDIRECT,
        location: Some("/404".to_string()),
        body: String::new(),
    }
}

/// A page served with status 200.
pub fn ok_page(body: String) -> (r: PageResponse)
    ensures
        r.status == 200,
        r.location is None,
        r.body@ == body@,
{
    PageResponse { status: STATUS_OK, location: None, body }
}

/// `GET /`: the home page, listing every post.
pub fn index(templates: &Templates, post_manager: &PostManager) -> (r: Result<
    PageResponse,
    TemplateError,
>)
    ensures
        r matches Ok(p) ==> p.status == 200 && p.location is None && is_home_page(
            templates@,
            post_manager@.0,
            p.body@,
        ),
        r matches Err(e) ==> e == TemplateError::Render(TemplateSlot::Home),
{
    let body = templates.render_home(post_manager.get_post_list())?;
    Ok(ok_page(body))
}

/// `GET /404`: the not-found page, served with status 200.
pub fn not_found(templates: &Templates) -> (r: Result<PageResponse, TemplateError>)
    ensures
        r matches Ok(p) ==> p.status == 200 && p.location is None && is_not_found_page(
            templates@,
            p.body@,
        ),
        r matches Err(e) ==> e == TemplateError::Render(TemplateSlot::NotFound),
{
    let body = templates.render_404()?;
    Ok(ok_page(body))
}

/// `GET /post/{post}`: the stored page of the post, or a redirect to the
/// not-found page when there is none.
pub fn render_post(post: &String, post_manager: &PostManager) -> (r: PageResponse)
    ensures
        lookup(post_manager@, post@) matches Some(page) ==> r.status == 200 && r.location is None
            && r.body@ == page,
        lookup(post_manager@, post@) is None ==> is_redirect_to_not_found(r),
{
    match post_manager.get(post) {
        Some(content) => ok_page(content),
        None => redirect_to_not_found(),
    }
}

} // verus!
