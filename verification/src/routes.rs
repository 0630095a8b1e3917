//! The paths that the server answers on and the URLs that lead to it.

use vstd::prelude::*;
use vstd::string::*;
use crate::registry::{ServerAddress, ServerAddressView};
use crate::text::{chars_of, decimal, to_decimal};

verus! {

/// A path prefix as the start of a longer path: followed by a slash, unless
/// it is empty.
pub open spec fn parent_of(path: Seq<char>) -> Seq<char> {
    if path.len() == 0 {
        path
    } else {
        path + seq!['/']
    }
}

/// Host and port as they stand in a URL. A host with a colon in it, which
/// is how an IPv6 address is written, stands in square brackets.
pub open spec fn authority_of(address: ServerAddressView) -> Seq<char> {
    if address.host.contains(':') {
        seq!['['] + address.host + seq![']', ':'] + decimal(address.port as nat)
    } else {
        address.host + seq![':'] + decimal(address.port as nat)
    }
}

/// The URL under which the server's paths stand.
pub open spec fn base_of(address: ServerAddressView) -> Seq<char> {
    "http://"@ + authority_of(address) + seq!['/'] + parent_of(address.path)
}

/// The URL of a shortcut.
pub open spec fn shortcut_url_of(address: ServerAddressView, hash: Seq<char>) -> Seq<char> {
    base_of(address) + hash
}

/// Where the last segment of a text starts: behind its last slash, or at
/// its start where it has none.
pub open spec fn segment_start(s: Seq<char>) -> int
    decreases s.len(),
{
    if s.len() == 0 {
        0
    } else if s.last() == '/' {
        s.len() as int
    } else {
        segment_start(s.drop_last())
    }
}

/// What follows the last slash of a text; the whole text where it has none.
pub open spec fn last_segment(s: Seq<char>) -> Seq<char> {
    s.subrange(segment_start(s), s.len() as int)
}

/// A path prefix as the start of a longer path.
pub fn parent_path(path: &str) -> (r: String)
    ensures
        r@ == parent_of(path@),
{
    let mut parent = path.to_owned();
    if path.unicode_len() > 0 {
        proof {
            reveal_strlit("/");
        }
        parent.append("/");
    }
    parent
}

fn has_colon(s: &str) -> (r: bool)
    ensures
        r == s@.contains(':'),
{
    let chars = chars_of(s);
    let mut i: usize = 0;
    while i < chars.len()
        invariant
            i <= chars.len(),
            chars@ == s@,
            forall|j: int| 0 <= j < i ==> s@[j] != ':',
        decreases chars.len() - i,
    {
        if chars[i] == ':' {
            assert(s@[i as int] == ':');
            return true;
        }
        i += 1;
    }
    false
}

/// Host and port as they stand in a URL.
pub fn authority(address: &ServerAddress) -> (r: String)
    ensures
        r@ == authority_of(address@),
{
    proof {
        reveal_strlit("[");
        reveal_strlit("]:");
        reveal_strlit(":");
    }
    let port = to_decimal(address.port as usize);
    if has_colon(address.host.as_str()) {
        let mut text = String::from_str("[");
        text.append(address.host.as_str());
        text.append("]:");
        text.append(port.as_str());
        assert(text@ =~= authority_of(address@));
        text
    } else {
        let mut text = address.host.clone();
        text.append(":");
        text.append(port.as_str());
        assert(text@ =~= authority_of(address@));
        text
    }
}

/// The URL under which the server's paths stand.
pub fn base_url(address: &ServerAddress) -> (r: String)
    ensures
        r@ == base_of(address@),
{
    proof {
        reveal_strlit("/");
    }
    let mut text = String::from_str("http://");
    text.append(authority(address).as_str());
    text.append("/");
    text.append(parent_path(address.path.as_str()).as_str());
    assert(text@ =~= base_of(address@));
    text
}

/// The URL of a shortcut.
pub fn shortcut_url(address: &ServerAddress, hash: &str) -> (r: String)
    ensures
        r@ == shortcut_url_of(address@, hash@),
{
    let mut text = base_url(address);
    text.append(hash);
    text
}

/// What follows the last slash of a text: the hash, where the text is the
/// URL of a shortcut or the hash itself.
pub fn hash_of_link(link: &str) -> (r: String)
    ensures
        r@ == last_segment(link@),
{
    let chars = chars_of(link);
    let len = chars.len();
    let mut i: usize = len;
    assert(chars@.take(len as int) =~= chars@);
    while i > 0 && chars[i - 1] != '/'
        invariant
            i <= len,
            len == chars.len(),
            segment_start(chars@) == segment_start(chars@.take(i as int)),
        decreases i,
    {
        assert(chars@.take(i as int).drop_last() =~= chars@.take(i - 1));
        i -= 1;
    }
    assert(chars@.take(i as int).len() == i);
    assert(i > 0 ==> chars@.take(i as int).last() == chars@[i - 1]);
    link.substring_char(i, len).to_owned()
}

/// The paths that the server answers on.
#[derive(Debug, Clone, PartialEq, Eq)]
pub struct Routes {
    /// The welcome page, and where new links are posted.
    pub root: String,
    /// The list of all shortcuts.
    pub all: String,
    /// The removal of all shortcuts.
    pub clear: String,
    /// A single shortcut; `:hash` stands for its hash.
    pub shortcut: String,
}

/// `Routes` over sequences of characters.
pub struct RoutesView {
    pub root: Seq<char>,
    pub all: Seq<char>,
    pub clear: Seq<char>,
    pub shortcut: Seq<char>,
}

impl View for Routes {
    type V = RoutesView;

    open spec fn view(&self) -> RoutesView {
        RoutesView {
            root: self.root@,
            all: self.all@,
            clear: self.clear@,
            shortcut: self.shortcut@,
        }
    }
}

/// The paths under a prefix.
pub open spec fn routes_of(path: Seq<char>) -> RoutesView {
    RoutesView {
        root: seq!['/'] + path,
        all: seq!['/'] + parent_of(path) + "all"@,
        clear: seq!['/'] + parent_of(path) + "clear"@,
        shortcut: seq!['/'] + parent_of(path) + ":hash"@,
    }
}

fn under(parent: &str, name: &str) -> (r: String)
    ensures
        r@ == seq!['/'] + parent@ + name@,
{
    proof {
        reveal_strlit("/");
    }
    let mut text = String::from_str("/");
    text.append(parent);
    text.append(name);
    assert(text@ =~= seq!['/'] + parent@ + name@);
    text
}

/// The paths that the server answers on under a prefix.
pub fn routes(path: &str) -> (r: Routes)
    ensures
        r@ == routes_of(path@),
{
    let parent = parent_path(path);
    let root = under(path, "");
    proof {
        reveal_strlit("");
        assert(root@ =~= seq!['/'] + path@);
    }
    Routes {
        root,
        all: under(parent.as_str(), "all"),
        clear: under(parent.as_str(), "clear"),
        shortcut: under(parent.as_str(), ":hash"),
    }
}

} // verus!
