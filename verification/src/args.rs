//! What the command line asks for, and the address that a server is started
//! on.

use vstd::prelude::*;
use vstd::string::*;
use crate::registry::{ServerAddress, ServerAddressView};

verus! {

/// The port that the server is started on where none is given.
pub const DEFAULT_PORT: u16 = 8080;

/// The arguments of one run.
#[derive(Debug, Clone, PartialEq, Eq)]
pub struct ClapArgs {
    pub entity_type: EntityType,
    /// Increase verbosity level to see everything that's going on
    pub verbose: bool,
    /// Set the specific port for the web server
    pub port: u16,
    /// Set the specific host IP addr
    pub host: String,
    /// Set the path under which the web server answers
    pub path: String,
}

/// The command of one run.
#[derive(Debug, Clone, PartialEq, Eq)]
pub enum EntityType {
    /// Create a new shortened link
    New(NewCommand),
    /// Delete a shortened link
    Delete(DeleteCommand),
    /// Lists all active shortened links
    List,
    /// Deletes all shortened links
    Clear,
    /// Starts the web server which redirects the shortened links
    Start,
}

/// The argument of `new`.
#[derive(Debug, Clone, PartialEq, Eq)]
pub struct NewCommand {
    /// Link to be converted to a shortened link
    pub link: String,
}

/// The argument of `delete`.
#[derive(Debug, Clone, PartialEq, Eq)]
pub struct DeleteCommand {
    /// Shortened link, or its hash, to be deleted
    pub link: String,
}

/// An `EntityType` over sequences of characters.
pub enum EntityTypeView {
    New(Seq<char>),
    Delete(Seq<char>),
    List,
    Clear,
    Start,
}

impl View for EntityType {
    type V = EntityTypeView;

    open spec fn view(&self) -> EntityTypeView {
        match *self {
            EntityType::New(command) => EntityTypeView::New(command.link@),
            EntityType::Delete(command) => EntityTypeView::Delete(command.link@),
            EntityType::List => EntityTypeView::List,
            EntityType::Clear => EntityTypeView::Clear,
            EntityType::Start => EntityTypeView::Start,
        }
    }
}

/// The host that the server is started on where the one given names none.
pub open spec fn fallback_host() -> Seq<char> {
    "127.0.0.1"@
}

/// The address to bind: the host given, or the local host where the text
/// given is no address of a host; the port given, or port 0, which lets the
/// system pick one, where the port given cannot be had.
pub open spec fn address_to_bind(
    host: Seq<char>,
    port: u16,
    path: Seq<char>,
    host_is_address: bool,
    port_is_free: bool,
) -> ServerAddressView {
    ServerAddressView {
        host: if host_is_address {
            host
        } else {
            fallback_host()
        },
        port: if port_is_free {
            port
        } else {
            0
        },
        path,
    }
}

/// Picks the address to bind the server to, given whether the host of the
/// arguments is the address of a host and whether a listener could be bound
/// to host and port as given.
pub fn gen_addr(args: &ClapArgs, host_is_address: bool, port_is_free: bool) -> (r: ServerAddress)
    ensures
        r@ == address_to_bind(args.host@, args.port, args.path@, host_is_address, port_is_free),
{
    let host = if host_is_address {
        args.host.clone()
    } else {
        String::from_str("127.0.0.1")
    };
    let port: u16 = if port_is_free {
        args.port
    } else {
        0
    };
    ServerAddress { host, port, path: args.path.clone() }
}

/// Whether a command is sent to a running server, whose address has to be
/// looked up first: every command but `Start`.
pub fn needs_server(command: &EntityType) -> (r: bool)
    ensures
        r == !(command@ is Start),
{
    match command {
        EntityType::Start => false,
        _ => true,
    }
}

} // verus!
