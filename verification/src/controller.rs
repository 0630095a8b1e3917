//! The HTTP face of the directory: what the server answers to each request.

use vstd::prelude::*;
use vstd::string::*;
use crate::db::{cleared, holds, lookup, rows_view, without, Shortcut, ShortcutView, Table};
use crate::registry::{ServerAddress, ServerAddressView};
use crate::routes::{shortcut_url, shortcut_url_of};
use crate::service::{
    clear, create, creation_on, delete, list, listed_view, resolution, resolve, resolved_view,
    CreationView, ServiceError,
};
use crate::utils::{is_link, CreateLink, IndexTemplate};

verus! {

/// Status of an answer that carries what was asked for.
pub const OK: u16 = 200;

/// Status of an answer to a removal that was done.
pub const NO_CONTENT: u16 = 204;

/// Status of an answer that sends the client on to a link.
pub const TEMPORARY_REDIRECT: u16 = 307;

/// Status of an answer to a request that the client got wrong.
pub const BAD_REQUEST: u16 = 400;

/// Status of an answer to a request that the server could not serve.
pub const INTERNAL_SERVER_ERROR: u16 = 500;

/// What an answer carries besides its status.
#[derive(Debug, Clone, PartialEq, Eq)]
pub enum Body {
    /// Nothing.
    Empty,
    /// A plain text.
    Text(String),
    /// A page.
    Html(String),
    /// The link to go on to.
    Location(String),
    /// Shortcuts, to be sent as a list of objects with `link` and `hash`.
    Shortcuts(Vec<Shortcut>),
}

/// A `Body` over sequences.
pub enum BodyView {
    Empty,
    Text(Seq<char>),
    Html(Seq<char>),
    Location(Seq<char>),
    Shortcuts(Seq<ShortcutView>),
}

impl View for Body {
    type V = BodyView;

    open spec fn view(&self) -> BodyView {
        match *self {
            Body::Empty => BodyView::Empty,
            Body::Text(text) => BodyView::Text(text@),
            Body::Html(page) => BodyView::Html(page@),
            Body::Location(link) => BodyView::Location(link@),
            Body::Shortcuts(shortcuts) => BodyView::Shortcuts(rows_view(shortcuts@)),
        }
    }
}

/// An answer of the server.
#[derive(Debug, Clone, PartialEq, Eq)]
pub struct Response {
    pub status: u16,
    pub body: Body,
}

/// A `Response` over sequences.
pub struct ResponseView {
    pub status: u16,
    pub body: BodyView,
}

impl View for Response {
    type V = ResponseView;

    open spec fn view(&self) -> ResponseView {
        ResponseView { status: self.status, body: self.body@ }
    }
}

/// An answer that is a status and a plain text.
pub open spec fn text_reply(status: u16, text: Seq<char>) -> ResponseView {
    ResponseView { status, body: BodyView::Text(text) }
}

fn plain(status: u16, text: &str) -> (r: Response)
    ensures
        r@ == text_reply(status, text@),
{
    Response { status, body: Body::Text(text.to_owned()) }
}

/// The answer to the opening of a shortcut: a redirect to its link, or an
/// error of the server where no link could be had.
pub open spec fn open_reply(resolved: Result<Seq<char>, ServiceError>) -> ResponseView {
    match resolved {
        Ok(link) => ResponseView { status: TEMPORARY_REDIRECT, body: BodyView::Location(link) },
        Err(_) => text_reply(
            INTERNAL_SERVER_ERROR,
            "Could not get original link for given shortcut"@,
        ),
    }
}

/// The answer to a request for a new shortcut: the URL of the shortcut, a
/// refusal where the link was no link, or an error of the server.
pub open spec fn create_reply(
    address: ServerAddressView,
    created: Result<Seq<char>, ServiceError>,
) -> ResponseView {
    match created {
        Ok(hash) => text_reply(OK, shortcut_url_of(address, hash)),
        Err(ServiceError::InvalidTarget) => text_reply(
            BAD_REQUEST,
            "Invalid URL provided as link"@,
        ),
        Err(_) => text_reply(INTERNAL_SERVER_ERROR, "Could not create shortcut for given link"@),
    }
}

/// The answer to a request for all shortcuts: the shortcuts, or an error of
/// the server.
pub open spec fn list_reply(listed: Result<Seq<ShortcutView>, ServiceError>) -> ResponseView {
    match listed {
        Ok(shortcuts) => ResponseView { status: OK, body: BodyView::Shortcuts(shortcuts) },
        Err(_) => text_reply(INTERNAL_SERVER_ERROR, "Could not access all shortcuts"@),
    }
}

/// The answer to the removal of a shortcut: done, a refusal where there is
/// no such shortcut, or an error of the server.
pub open spec fn delete_reply(deleted: Result<(), ServiceError>) -> ResponseView {
    match deleted {
        Ok(_) => ResponseView { status: NO_CONTENT, body: BodyView::Empty },
        Err(ServiceError::NotFound) => text_reply(
            BAD_REQUEST,
            "The given shortcut does not exist"@,
        ),
        Err(_) => text_reply(INTERNAL_SERVER_ERROR, "Could not delete shortcut"@),
    }
}

/// The answer to the removal of all shortcuts: done, or an error of the
/// server.
pub open spec fn clear_reply(done: Result<(), ServiceError>) -> ResponseView {
    match done {
        Ok(_) => ResponseView { status: OK, body: BodyView::Empty },
        Err(_) => text_reply(INTERNAL_SERVER_ERROR, "Could not clear shortcuts"@),
    }
}

/// The answer to a request for the welcome page: the page, or an error of
/// the server where it could not be rendered.
pub open spec fn index_reply(rendered: Option<Seq<char>>) -> ResponseView {
    match rendered {
        Some(page) => ResponseView { status: OK, body: BodyView::Html(page) },
        None => text_reply(INTERNAL_SERVER_ERROR, "Could not render template"@),
    }
}

/// Answers the opening of a shortcut, given what resolving its hash gave.
pub fn open_response(resolved: Result<String, ServiceError>) -> (r: Response)
    ensures
        r@ == open_reply(resolved_view(resolved)),
{
    match resolved {
        Ok(link) => Response { status: TEMPORARY_REDIRECT, body: Body::Location(link) },
        Err(_) => plain(INTERNAL_SERVER_ERROR, "Could not get original link for given shortcut"),
    }
}

/// Answers a request for a new shortcut, given what its creation gave.
pub fn create_response(address: &ServerAddress, created: Result<String, ServiceError>) -> (r:
    Response)
    ensures
        r@ == create_reply(address@, resolved_view(created)),
{
    match created {
        Ok(hash) => Response { status: OK, body: Body::Text(shortcut_url(address, hash.as_str())) },
        Err(ServiceError::InvalidTarget) => plain(BAD_REQUEST, "Invalid URL provided as link"),
        Err(_) => plain(INTERNAL_SERVER_ERROR, "Could not create shortcut for given link"),
    }
}

/// Answers a request for all shortcuts, given what listing them gave.
pub fn list_response(listed: Result<Vec<Shortcut>, ServiceError>) -> (r: Response)
    ensures
        r@ == list_reply(listed_view(listed)),
{
    match listed {
        Ok(shortcuts) => Response { status: OK, body: Body::Shortcuts(shortcuts) },
        Err(_) => plain(INTERNAL_SERVER_ERROR, "Could not access all shortcuts"),
    }
}

/// Answers the removal of a shortcut, given what deleting it gave.
pub fn delete_response(deleted: Result<(), ServiceError>) -> (r: Response)
    ensures
        r@ == delete_reply(deleted),
{
    match deleted {
        Ok(_) => Response { status: NO_CONTENT, body: Body::Empty },
        Err(ServiceError::NotFound) => plain(BAD_REQUEST, "The given shortcut does not exist"),
        Err(_) => plain(INTERNAL_SERVER_ERROR, "Could not delete shortcut"),
    }
}

/// Answers the removal of all shortcuts, given what clearing gave.
pub fn clear_response(done: Result<(), ServiceError>) -> (r: Response)
    ensures
        r@ == clear_reply(done),
{
    match done {
        Ok(_) => Response { status: OK, body: Body::Empty },
        Err(_) => plain(INTERNAL_SERVER_ERROR, "Could not clear shortcuts"),
    }
}

/// What the welcome page is rendered from.
pub fn index_template() -> (r: IndexTemplate)
    ensures
        r.url@ == "/"@,
{
    IndexTemplate { url: String::from_str("/") }
}

/// Answers a request for the welcome page, given the rendered page, if it
/// could be rendered.
pub fn index(rendered: Option<String>) -> (r: Response)
    ensures
        r@ == index_reply(
            match rendered {
                Some(page) => Some(page@),
                None => None,
            },
        ),
{
    match rendered {
        Some(page) => Response { status: OK, body: Body::Html(page) },
        None => plain(INTERNAL_SERVER_ERROR, "Could not render template"),
    }
}

/// Opens a shortcut: redirects to the link behind the hash.
pub fn open_shortcut(table: &Table, hash: &str) -> (r: Response)
    ensures
        r@ == open_reply(resolution(lookup(table@, hash@))),
{
    open_response(resolve(table, hash))
}

/// Creates a shortcut for the link of the request, and answers with its URL
/// on the server at `address`. Which hash the shortcut gets is left to the
/// draws; the answer is that of `create_reply` to whatever the creation
/// gave, and the table is as `creation_on` says. A link put to an empty
/// table always gets its shortcut.
pub fn create_new_shortcut(
    table: &mut Table,
    address: &ServerAddress,
    create_link: &CreateLink,
) -> (r: Response)
    ensures
        exists|created: Result<Seq<char>, ServiceError>|
            {
                &&& creation_on(
                    old(table)@,
                    final(table)@,
                    create_link.link@,
                    CreationView::Finished(created),
                )
                &&& r@ == #[trigger] create_reply(address@, created)
            },
        is_link(create_link.link@) && old(table)@.len() == 0 ==> r@.status == OK,
{
    let created = create(table, create_link.link.as_str());
    let ghost outcome = resolved_view(created);
    let r = create_response(address, created);
    assert(r@ == create_reply(address@, outcome));
    r
}

/// Answers with every shortcut of the table.
pub fn get_all_shortcuts(table: &Table) -> (r: Response)
    ensures
        r@ == list_reply(Ok(table@)),
{
    list_response(list(table))
}

/// Removes the shortcut with this hash.
pub fn delete_shortcut(table: &mut Table, hash: &str) -> (r: Response)
    ensures
        r@ == delete_reply(
            if holds(old(table)@, hash@) {
                Ok(())
            } else {
                Err(ServiceError::NotFound)
            },
        ),
        final(table)@ == without(old(table)@, hash@),
{
    delete_response(delete(table, hash))
}

/// Removes every shortcut.
pub fn clear_shortcuts(table: &mut Table) -> (r: Response)
    ensures
        r@ == clear_reply(Ok(())),
        final(table)@ == cleared(old(table)@),
{
    clear_response(clear(table))
}

} // verus!
