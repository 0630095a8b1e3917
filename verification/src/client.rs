//! The client's side of a command: the request that it sends to the server,
//! and what it tells the user once the server has answered.

use vstd::prelude::*;
use vstd::string::*;
use crate::args::{EntityType, EntityTypeView};
use crate::controller::{NO_CONTENT, OK};
use crate::db::{rows_view, Shortcut, ShortcutView};
use crate::registry::{ServerAddress, ServerAddressView};
use crate::routes::{authority, authority_of, base_of, base_url, hash_of_link, last_segment};
use crate::utils::{is_link, is_url, CreateLink};

verus! {

/// The method of a request.
#[derive(Debug, Clone, Copy, PartialEq, Eq, Structural)]
pub enum Method {
    Get,
    Post,
    Delete,
}

/// A request to the server.
#[derive(Debug, Clone, PartialEq, Eq)]
pub struct Request {
    pub method: Method,
    pub url: String,
    /// The link to shorten, sent as an object with `link`.
    pub body: Option<CreateLink>,
}

/// What the client does for a command.
#[derive(Debug, Clone, PartialEq, Eq)]
pub enum Plan {
    /// It becomes the server.
    Serve,
    /// It sends a request.
    Send(Request),
    /// It tells the user why it sends none.
    Refuse(String),
}

/// A `Plan` over sequences of characters; the body of a request is the link
/// it carries.
pub enum PlanView {
    Serve,
    Send { method: Method, url: Seq<char>, body: Option<Seq<char>> },
    Refuse(Seq<char>),
}

impl View for Plan {
    type V = PlanView;

    open spec fn view(&self) -> PlanView {
        match *self {
            Plan::Serve => PlanView::Serve,
            Plan::Send(request) => PlanView::Send {
                method: request.method,
                url: request.url@,
                body: match request.body {
                    Some(create_link) => Some(create_link.link@),
                    None => None,
                },
            },
            Plan::Refuse(reason) => PlanView::Refuse(reason@),
        }
    }
}

/// The URL to which new links are posted: the server's path, without a
/// slash behind it.
pub open spec fn root_url_of(address: ServerAddressView) -> Seq<char> {
    "http://"@ + authority_of(address) + seq!['/'] + address.path
}

/// What the client does for a command, given the server's address: `start`
/// serves; `list` and `clear` get `all` and `clear` under the server's path;
/// `new` posts the link, unless it is no link; `delete` asks for the removal
/// of what follows the last slash of its argument.
pub open spec fn plan_of(command: EntityTypeView, address: ServerAddressView) -> PlanView {
    match command {
        EntityTypeView::Start => PlanView::Serve,
        EntityTypeView::List => PlanView::Send {
            method: Method::Get,
            url: base_of(address) + "all"@,
            body: None,
        },
        EntityTypeView::Clear => PlanView::Send {
            method: Method::Get,
            url: base_of(address) + "clear"@,
            body: None,
        },
        EntityTypeView::New(link) => if is_link(link) {
            PlanView::Send { method: Method::Post, url: root_url_of(address), body: Some(link) }
        } else {
            PlanView::Refuse(
                "\nThe link given is not valid. Make sure to provide the full link address."@,
            )
        },
        EntityTypeView::Delete(link) => PlanView::Send {
            method: Method::Delete,
            url: base_of(address) + last_segment(link),
            body: None,
        },
    }
}

fn root_url(address: &ServerAddress) -> (r: String)
    ensures
        r@ == root_url_of(address@),
{
    proof {
        reveal_strlit("/");
    }
    let mut url = String::from_str("http://");
    url.append(authority(address).as_str());
    url.append("/");
    url.append(address.path.as_str());
    assert(url@ =~= root_url_of(address@));
    url
}

/// Decides what the client does for a command.
pub fn plan(command: &EntityType, address: &ServerAddress) -> (r: Plan)
    ensures
        r@ == plan_of(command@, address@),
{
    match command {
        EntityType::Start => Plan::Serve,
        EntityType::List => {
            let mut url = base_url(address);
            url.append("all");
            Plan::Send(Request { method: Method::Get, url, body: None })
        },
        EntityType::Clear => {
            let mut url = base_url(address);
            url.append("clear");
            Plan::Send(Request { method: Method::Get, url, body: None })
        },
        EntityType::New(command) => {
            if is_url(command.link.as_str()) {
                Plan::Send(
                    Request {
                        method: Method::Post,
                        url: root_url(address),
                        body: Some(CreateLink { link: command.link.clone() }),
                    },
                )
            } else {
                Plan::Refuse(
                    String::from_str(
                        "\nThe link given is not valid. Make sure to provide the full link address.",
                    ),
                )
            }
        },
        EntityType::Delete(command) => {
            let mut url = base_url(address);
            url.append(hash_of_link(command.link.as_str()).as_str());
            Plan::Send(Request { method: Method::Delete, url, body: None })
        },
    }
}

/// What came of a request.
#[derive(Debug, Clone, PartialEq, Eq)]
pub enum Reply {
    /// No server answered.
    Unreachable,
    /// A server answered with this status and this text; `shortcuts` holds
    /// the shortcuts that the text lists, where it lists any.
    Answer { status: u16, text: String, shortcuts: Option<Vec<Shortcut>> },
}

/// A `Reply` over sequences.
pub enum ReplyView {
    Unreachable,
    Answer { status: u16, text: Seq<char>, shortcuts: Option<Seq<ShortcutView>> },
}

impl View for Reply {
    type V = ReplyView;

    open spec fn view(&self) -> ReplyView {
        match *self {
            Reply::Unreachable => ReplyView::Unreachable,
            Reply::Answer { status, text, shortcuts } => ReplyView::Answer {
                status,
                text: text@,
                shortcuts: match shortcuts {
                    Some(rows) => Some(rows_view(rows@)),
                    None => None,
                },
            },
        }
    }
}

/// What the client tells the user.
#[derive(Debug, Clone, PartialEq, Eq)]
pub enum Report {
    /// Nothing.
    Silence,
    /// A line of text.
    Say(String),
    /// A table of shortcuts, with one row for each.
    Show(Vec<Shortcut>),
}

/// A `Report` over sequences.
pub enum ReportView {
    Silence,
    Say(Seq<char>),
    Show(Seq<ShortcutView>),
}

impl View for Report {
    type V = ReportView;

    open spec fn view(&self) -> ReportView {
        match *self {
            Report::Silence => ReportView::Silence,
            Report::Say(line) => ReportView::Say(line@),
            Report::Show(rows) => ReportView::Show(rows_view(rows@)),
        }
    }
}

/// What the client tells the user where no server answered.
pub open spec fn not_started() -> Seq<char> {
    "\nThe links server has not been started. Use the start command to start the server"@
}

/// What the client tells the user after `new`: the URL that the server
/// sent, an arrow and the link.
pub open spec fn created_line(url: Seq<char>, link: Seq<char>) -> Seq<char> {
    seq!['\n'] + url + " --> "@ + link
}

/// What the client tells the user for a command and what came of its
/// request. `start` sends none, and has nothing to tell.
pub open spec fn report_of(command: EntityTypeView, reply: ReplyView) -> ReportView {
    match (command, reply) {
        (EntityTypeView::Start, _) => ReportView::Silence,
        (_, ReplyView::Unreachable) => ReportView::Say(not_started()),
        (EntityTypeView::List, ReplyView::Answer { status, shortcuts, .. }) => if status != OK {
            ReportView::Silence
        } else {
            match shortcuts {
                None => ReportView::Say("\nNo links could be found"@),
                Some(rows) => if rows.len() == 0 {
                    ReportView::Say(
                        "\nNo shortcuts have been created yet. Use the new command to create a new link"@,
                    )
                } else {
                    ReportView::Show(rows)
                },
            }
        },
        (EntityTypeView::New(link), ReplyView::Answer { status, text, .. }) => if status == OK {
            ReportView::Say(created_line(text, link))
        } else {
            ReportView::Say("\nCould not create shortcut to link"@)
        },
        (EntityTypeView::Delete(_), ReplyView::Answer { status, .. }) => if status == NO_CONTENT {
            ReportView::Say("\nDeleted shortcut to link"@)
        } else {
            ReportView::Say("\nCould not delete given shortcut link"@)
        },
        (EntityTypeView::Clear, ReplyView::Answer { status, .. }) => if status == OK {
            ReportView::Say("\nDeleted all shortcuts"@)
        } else {
            ReportView::Say("\nCould not delete all shortcuts"@)
        },
    }
}

fn say(line: &str) -> (r: Report)
    ensures
        r@ == ReportView::Say(line@),
{
    Report::Say(line.to_owned())
}

/// Decides what the client tells the user.
pub fn report(command: &EntityType, reply: Reply) -> (r: Report)
    ensures
        r@ == report_of(command@, reply@),
{
    match (command, reply) {
        (EntityType::Start, _) => Report::Silence,
        (_, Reply::Unreachable) => say(
            "\nThe links server has not been started. Use the start command to start the server",
        ),
        (EntityType::List, Reply::Answer { status, text: _, shortcuts }) => {
            if status != OK {
                Report::Silence
            } else {
                match shortcuts {
                    None => say("\nNo links could be found"),
                    Some(rows) => {
                        if rows.len() == 0 {
                            say(
                                "\nNo shortcuts have been created yet. Use the new command to create a new link",
                            )
                        } else {
                            Report::Show(rows)
                        }
                    },
                }
            }
        },
        (EntityType::New(command), Reply::Answer { status, text, shortcuts: _ }) => {
            if status == OK {
                proof {
                    reveal_strlit("\n");
                }
                let mut line = String::from_str("\n");
                line.append(text.as_str());
                line.append(" --> ");
                line.append(command.link.as_str());
                assert(line@ =~= created_line(text@, command.link@));
                Report::Say(line)
            } else {
                say("\nCould not create shortcut to link")
            }
        },
        (EntityType::Delete(_), Reply::Answer { status, text: _, shortcuts: _ }) => {
            if status == NO_CONTENT {
                say("\nDeleted shortcut to link")
            } else {
                say("\nCould not delete given shortcut link")
            }
        },
        (EntityType::Clear, Reply::Answer { status, text: _, shortcuts: _ }) => {
            if status == OK {
                say("\nDeleted all shortcuts")
            } else {
                say("\nCould not delete all shortcuts")
            }
        },
    }
}

/// What the client tells the user where the address of the server could
/// not be had.
pub fn no_address() -> (r: String)
    ensures
        r@ == "Could not get address to access cli_shortener"@,
{
    String::from_str("Could not get address to access cli_shortener")
}

} // verus!
