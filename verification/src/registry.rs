//! The address record: three lines of text through which a client finds the
//! server that is running, namely its host, its port and its path prefix.

use vstd::prelude::*;
use vstd::string::*;
use crate::text::{
    bounded_value, chars_of, decimal, digit_value, lemma_decimal_is_digits,
    lemma_decimal_round_trip, parse_decimal, to_decimal,
};

verus! {

/// Where a server listens: the host it is bound to, its port, and the path
/// under which it serves. The host is kept as the text that names it.
#[derive(Debug, Clone, PartialEq, Eq)]
pub struct ServerAddress {
    pub host: String,
    pub port: u16,
    pub path: String,
}

/// A `ServerAddress` over sequences of characters.
pub struct ServerAddressView {
    pub host: Seq<char>,
    pub port: u16,
    pub path: Seq<char>,
}

impl View for ServerAddress {
    type V = ServerAddressView;

    open spec fn view(&self) -> ServerAddressView {
        ServerAddressView { host: self.host@, port: self.port, path: self.path@ }
    }
}

/// Why no address could be had from the record.
#[derive(Debug, Clone, Copy, PartialEq, Eq, Structural)]
pub enum RegistryError {
    /// There is no record: no server was started.
    NotFound,
    /// There is a record, but it is not three lines of host, port and path.
    Corrupt,
}

/// An address or a registry error, over views.
pub open spec fn address_result_view(r: Result<ServerAddress, RegistryError>) -> Result<
    ServerAddressView,
    RegistryError,
> {
    match r {
        Ok(address) => Ok(address@),
        Err(e) => Err(e),
    }
}

/// A text without a line break.
pub open spec fn is_line(s: Seq<char>) -> bool {
    forall|i: int| 0 <= i < s.len() ==> s[i] != '\n'
}

/// An address that can be written to a record and read back: the host is
/// not empty, and neither host nor path holds a line break.
pub open spec fn recordable(address: ServerAddressView) -> bool {
    &&& address.host.len() > 0
    &&& is_line(address.host)
    &&& is_line(address.path)
}

/// The record of an address: host, port and path, with a line break after
/// the host and after the port.
pub open spec fn record_text(address: ServerAddressView) -> Seq<char> {
    address.host + seq!['\n'] + decimal(address.port as nat) + seq!['\n'] + address.path
}

/// Where the first line break at or after `from` stands; the length of the
/// text where there is none.
pub open spec fn line_end(s: Seq<char>, from: int) -> int
    decreases s.len() - from,
{
    if from < 0 || from >= s.len() {
        s.len() as int
    } else if s[from] == '\n' {
        from
    } else {
        line_end(s, from + 1)
    }
}

/// The address that a record holds: the text up to the first line break is
/// the host, which is not empty; the text up to the second is the port, a
/// number in base ten that is no greater than 65535; the rest is the path,
/// and holds no line break. Any other text holds no address.
pub open spec fn address_in(s: Seq<char>) -> Option<ServerAddressView> {
    let first = line_end(s, 0);
    let second = line_end(s, first + 1);
    let third = line_end(s, second + 1);
    if first == 0 || first >= s.len() || second >= s.len() || third < s.len() {
        None
    } else {
        match bounded_value(s.subrange(first + 1, second), 65535) {
            Some(port) => Some(
                ServerAddressView {
                    host: s.subrange(0, first),
                    port: port as u16,
                    path: s.subrange(second + 1, s.len() as int),
                },
            ),
            None => None,
        }
    }
}

/// What a lookup gives for what was read: `NotFound` where there is no
/// record, `Corrupt` where its text holds no address.
pub open spec fn lookup_of(contents: Option<Seq<char>>) -> Result<ServerAddressView, RegistryError> {
    match contents {
        None => Err(RegistryError::NotFound),
        Some(text) => match address_in(text) {
            Some(address) => Ok(address),
            None => Err(RegistryError::Corrupt),
        },
    }
}

/// `line_end` stays within the text, stands on a line break where it stands
/// within it, and passes over none.
pub proof fn lemma_line_end(s: Seq<char>, from: int)
    requires
        0 <= from <= s.len(),
    ensures
        from <= line_end(s, from) <= s.len(),
        line_end(s, from) < s.len() ==> s[line_end(s, from)] == '\n',
        forall|j: int| from <= j < line_end(s, from) ==> s[j] != '\n',
    decreases s.len() - from,
{
    if from < s.len() && s[from] != '\n' {
        lemma_line_end(s, from + 1);
    }
}

/// `line_end` is the first line break at or after `from`.
pub proof fn lemma_line_end_is(s: Seq<char>, from: int, at: int)
    requires
        0 <= from <= at <= s.len(),
        at < s.len() ==> s[at] == '\n',
        forall|j: int| from <= j < at ==> s[j] != '\n',
    ensures
        line_end(s, from) == at,
    decreases at - from,
{
    if from < at {
        lemma_line_end_is(s, from + 1, at);
    }
}

/// The record of an address that is `recordable` holds that address.
pub proof fn law_record_round_trip(address: ServerAddressView)
    requires
        recordable(address),
    ensures
        address_in(record_text(address)) == Some(address),
        lookup_of(Some(record_text(address))) == Ok::<ServerAddressView, RegistryError>(address),
{
    let s = record_text(address);
    let port_text = decimal(address.port as nat);
    lemma_decimal_round_trip(address.port as nat);
    lemma_decimal_is_digits(address.port as nat);
    let first = address.host.len() as int;
    let second = first + 1 + port_text.len();
    assert forall|j: int| first + 1 <= j < second implies s[j] != '\n' by {
        assert(s[j] == port_text[j - first - 1]);
        assert(digit_value(port_text[j - first - 1]) is Some);
    }
    assert forall|j: int| 0 <= j < first implies s[j] != '\n' by {
        assert(s[j] == address.host[j]);
    }
    assert forall|j: int| second + 1 <= j < s.len() implies s[j] != '\n' by {
        assert(s[j] == address.path[j - second - 1]);
    }
    lemma_line_end_is(s, 0, first);
    lemma_line_end_is(s, first + 1, second);
    lemma_line_end_is(s, second + 1, s.len() as int);
    assert(s.subrange(0, first) =~= address.host);
    assert(s.subrange(first + 1, second) =~= port_text);
    assert(s.subrange(second + 1, s.len() as int) =~= address.path);
}

fn find_line_end(chars: &Vec<char>, from: usize) -> (r: usize)
    requires
        from <= chars.len(),
    ensures
        r == line_end(chars@, from as int),
        from <= r <= chars.len(),
{
    let mut i: usize = from;
    while i < chars.len() && chars[i] != '\n'
        invariant
            from <= i <= chars.len(),
            line_end(chars@, from as int) == line_end(chars@, i as int),
        decreases chars.len() - i,
    {
        i += 1;
    }
    i
}

/// Tells whether a text holds no line break.
pub fn check_line(s: &str) -> (r: bool)
    ensures
        r == is_line(s@),
{
    let chars = chars_of(s);
    let end = find_line_end(&chars, 0);
    proof {
        lemma_line_end(chars@, 0);
    }
    end == chars.len()
}

/// The text of the record for an address, to be written where clients look
/// for it; none for an address that could not be read back from it.
pub fn publish(address: &ServerAddress) -> (r: Option<String>)
    ensures
        match r {
            Some(text) => recordable(address@) && text@ == record_text(address@),
            None => !recordable(address@),
        },
{
    let host_len = address.host.as_str().unicode_len();
    if host_len == 0 || !check_line(address.host.as_str()) || !check_line(address.path.as_str()) {
        return None;
    }
    proof {
        reveal_strlit("\n");
    }
    let mut text = address.host.clone();
    text.append("\n");
    text.append(to_decimal(address.port as usize).as_str());
    text.append("\n");
    text.append(address.path.as_str());
    assert(text@ =~= record_text(address@));
    Some(text)
}

/// Reads the address out of what was found where the record is kept:
/// nothing found is `NotFound`, a text that holds no address is `Corrupt`.
pub fn lookup(contents: Option<&str>) -> (r: Result<ServerAddress, RegistryError>)
    ensures
        address_result_view(r) == lookup_of(
            match contents {
                Some(text) => Some(text@),
                None => None,
            },
        ),
{
    let text = match contents {
        Some(text) => text,
        None => {
            return Err(RegistryError::NotFound);
        },
    };
    let chars = chars_of(text);
    let len = chars.len();
    let first = find_line_end(&chars, 0);
    if first == 0 || first >= len {
        return Err(RegistryError::Corrupt);
    }
    let second = find_line_end(&chars, first + 1);
    if second >= len {
        return Err(RegistryError::Corrupt);
    }
    let third = find_line_end(&chars, second + 1);
    if third < len {
        return Err(RegistryError::Corrupt);
    }
    match parse_decimal(&chars, first + 1, second, 65535) {
        None => Err(RegistryError::Corrupt),
        Some(port) => {
            let host = text.substring_char(0, first);
            let path = text.substring_char(second + 1, len);
            Ok(
                ServerAddress {
                    host: host.to_owned(),
                    port: port as u16,
                    path: path.to_owned(),
                },
            )
        },
    }
}

} // verus!
