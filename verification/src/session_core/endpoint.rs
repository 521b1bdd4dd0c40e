//! The endpoint grammar `[user@]host[:port]`.
//!
//! An endpoint is kept as the text the user typed. User name, host and
//! port are read out of it on demand, each with a fallback, so no text is
//! ever rejected: a malformed one only yields less.

use vstd::prelude::*;
use super::connection_type::ConnectionType;

verus! {

/// The text before the first `@`; empty when there is no `@`.
pub open spec fn user_name_of(endpoint: Seq<char>) -> Seq<char> {
    match endpoint.index_of_first('@') {
        Some(at) => endpoint.subrange(0, at),
        None => Seq::empty(),
    }
}

/// Where the host begins: behind the first `@`, or at the start.
pub open spec fn host_start(endpoint: Seq<char>) -> int {
    match endpoint.index_of_first('@') {
        Some(at) => at + 1,
        None => 0,
    }
}

/// Where the host ends: at the first `:`, or at the end of the text.
pub open spec fn host_end(endpoint: Seq<char>) -> int {
    match endpoint.index_of_first(':') {
        Some(colon) => colon,
        None => endpoint.len() as int,
    }
}

/// The text from behind the first `@` up to the first `:`. When the first
/// `:` stands before the first `@` there is no such text, and the host is
/// empty.
pub open spec fn host_of(endpoint: Seq<char>) -> Seq<char> {
    if host_start(endpoint) <= host_end(endpoint) {
        endpoint.subrange(host_start(endpoint), host_end(endpoint))
    } else {
        Seq::empty()
    }
}

/// Where the port ends: at the first `/`, or at the end of the text.
pub open spec fn port_end(endpoint: Seq<char>) -> int {
    match endpoint.index_of_first('/') {
        Some(slash) => slash,
        None => endpoint.len() as int,
    }
}

/// The text from behind the first `:` up to the first `/`; the
/// protocol's default port when there is no `:`. When the first `/`
/// stands before the first `:` the port is empty.
pub open spec fn port_of(endpoint: Seq<char>, protocol: ConnectionType) -> Seq<char> {
    match endpoint.index_of_first(':') {
        None => protocol.default_port(),
        Some(colon) => if colon + 1 <= port_end(endpoint) {
            endpoint.subrange(colon + 1, port_end(endpoint))
        } else {
            Seq::empty()
        },
    }
}

/// `index` is the first place at which `needle` stands in `text`.
pub open spec fn is_first_at(text: Seq<char>, needle: char, index: int) -> bool {
    &&& 0 <= index < text.len()
    &&& text[index] == needle
    &&& forall|j: int| 0 <= j < index ==> text[j] != needle
}

/// A place that holds the needle, with none before it, is the first.
pub proof fn lemma_first_at(text: Seq<char>, needle: char, index: int)
    requires
        is_first_at(text, needle, index),
    ensures
        text.index_of_first(needle) == Some(index),
{
    text.index_of_first_ensures(needle);
    assert(text.contains(needle));
}

/// A text without the needle has no first place for it.
pub proof fn lemma_absent(text: Seq<char>, needle: char)
    requires
        forall|j: int| 0 <= j < text.len() ==> text[j] != needle,
    ensures
        text.index_of_first(needle) is None,
{
    text.index_of_first_ensures(needle);
}

/// The position, counted in characters, of the first `needle` in `text`.
pub fn find_char(text: &str, needle: char) -> (found: Option<usize>)
    ensures
        match found {
            Some(index) => text@.index_of_first(needle) == Some(index as int),
            None => text@.index_of_first(needle) is None,
        },
{
    let length = text.unicode_len();
    let mut index: usize = 0;
    while index < length
        invariant
            index <= length,
            length == text@.len(),
            forall|j: int| 0 <= j < index ==> text@[j] != needle,
        decreases length - index,
    {
        if text.get_char(index) == needle {
            proof {
                lemma_first_at(text@, needle, index as int);
            }
            return Some(index);
        }
        index += 1;
    }
    proof {
        lemma_absent(text@, needle);
    }
    None
}

/// The characters of `text` from `from` up to `to`, as a text of its own.
pub fn slice_chars(text: &str, from: usize, to: usize) -> (piece: String)
    requires
        from <= to <= text@.len(),
    ensures
        piece@ == text@.subrange(from as int, to as int),
{
    text.substring_char(from, to).to_owned()
}

/// The user name that `endpoint` holds.
pub fn user_name(endpoint: &str) -> (name: String)
    ensures
        name@ == user_name_of(endpoint@),
{
    proof {
        endpoint@.index_of_first_ensures('@');
    }
    match find_char(endpoint, '@') {
        Some(at) => slice_chars(endpoint, 0, at),
        None => String::new(),
    }
}

/// The host that `endpoint` holds.
pub fn host(endpoint: &str) -> (name: String)
    ensures
        name@ == host_of(endpoint@),
{
    proof {
        endpoint@.index_of_first_ensures('@');
        endpoint@.index_of_first_ensures(':');
    }
    let length = endpoint.unicode_len();
    let start: usize = match find_char(endpoint, '@') {
        Some(at) => at + 1,
        None => 0,
    };
    let end: usize = match find_char(endpoint, ':') {
        Some(colon) => colon,
        None => length,
    };
    if start <= end {
        slice_chars(endpoint, start, end)
    } else {
        String::new()
    }
}

/// The port that `endpoint` holds, or the default of `protocol`.
pub fn port(endpoint: &str, protocol: ConnectionType) -> (number: String)
    ensures
        number@ == port_of(endpoint@, protocol),
{
    proof {
        endpoint@.index_of_first_ensures(':');
        endpoint@.index_of_first_ensures('/');
    }
    match find_char(endpoint, ':') {
        None => protocol.default_port_string(),
        Some(colon) => {
            let end: usize = match find_char(endpoint, '/') {
                Some(slash) => slash,
                None => endpoint.unicode_len(),
            };
            if colon < end {
                slice_chars(endpoint, colon + 1, end)
            } else {
                String::new()
            }
        },
    }
}

/// The endpoint written from its parts: the user name and `@` if there
/// is a user name part, the host, and `:` and the port if there is a
/// port part.
pub open spec fn compose(user: Option<Seq<char>>, host: Seq<char>, port: Option<Seq<char>>) -> Seq<
    char,
> {
    let prefix = match user {
        Some(name) => name.push('@'),
        None => Seq::empty(),
    };
    let suffix = match port {
        Some(number) => seq![':'] + number,
        None => Seq::empty(),
    };
    prefix + host + suffix
}

/// The parts can be written into an endpoint and read back: no part
/// holds a character that would be read as a separator where it stands.
///
/// A user name holds no `@` and no `:`. The host holds no `:`. Without
/// a user name part, neither host nor port holds an `@`. With a port
/// part, no part holds a `/`.
pub open spec fn readable(user: Option<Seq<char>>, host: Seq<char>, port: Option<Seq<char>>) -> bool {
    &&& !host.contains(':')
    &&& match user {
        Some(name) => !name.contains('@') && !name.contains(':'),
        None => !host.contains('@'),
    }
    &&& match port {
        Some(number) => {
            &&& !number.contains('/')
            &&& !host.contains('/')
            &&& user is None ==> !number.contains('@')
            &&& user is Some ==> !user.unwrap().contains('/')
        },
        None => true,
    }
}

/// Writing an endpoint from its parts and reading it back gives the
/// parts again: a missing user name part reads as the empty user name,
/// and a missing port part as the protocol's default port. An empty
/// user name or an empty port that was written is read back empty.
pub proof fn lemma_endpoint_round_trip(
    user: Option<Seq<char>>,
    host: Seq<char>,
    port: Option<Seq<char>>,
    protocol: ConnectionType,
)
    requires
        readable(user, host, port),
    ensures
        user_name_of(compose(user, host, port)) == match user {
            Some(name) => name,
            None => Seq::empty(),
        },
        host_of(compose(user, host, port)) == host,
        port_of(compose(user, host, port), protocol) == match port {
            Some(number) => number,
            None => protocol.default_port(),
        },
{
    let text = compose(user, host, port);
    let start: int = match user {
        Some(name) => (name.len() + 1) as int,
        None => 0,
    };
    let end: int = start + host.len();
    // Every character of the text is a character of one part or a separator.
    assert forall|j: int| 0 <= j < text.len() implies (match user {
        Some(name) => (j < name.len() ==> text[j] == name[j]) && (j == name.len() ==> text[j]
            == '@'),
        None => true,
    }) && (start <= j < end ==> text[j] == host[j - start]) && (match port {
        Some(number) => (j == end ==> text[j] == ':') && (end < j ==> text[j] == number[j - end
            - 1]),
        None => j < end,
    }) by {}
    match user {
        Some(name) => {
            assert(text[name.len() as int] == '@');
            lemma_first_at(text, '@', name.len() as int);
            assert(text.subrange(0, name.len() as int) =~= name);
        },
        None => {
            lemma_absent(text, '@');
        },
    }
    match port {
        Some(number) => {
            assert(text[end] == ':');
            lemma_first_at(text, ':', end);
            lemma_absent(text, '/');
            assert(text.subrange(start, end) =~= host);
            assert(text.subrange(end + 1, text.len() as int) =~= number);
        },
        None => {
            lemma_absent(text, ':');
            assert(text.subrange(start, end) =~= host);
        },
    }
}

} // verus!
