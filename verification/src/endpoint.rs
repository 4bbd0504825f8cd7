//! The addresses at which a container's device answers.
//!
//! A device is reached over plain HTTP at the container's name, on the port
//! and path that the directive carries.

use vstd::prelude::*;

verus! {

/// The character that stands for a decimal digit.
pub open spec fn digit_char(digit: nat) -> char {
    if digit == 0 {
        '0'
    } else if digit == 1 {
        '1'
    } else if digit == 2 {
        '2'
    } else if digit == 3 {
        '3'
    } else if digit == 4 {
        '4'
    } else if digit == 5 {
        '5'
    } else if digit == 6 {
        '6'
    } else if digit == 7 {
        '7'
    } else if digit == 8 {
        '8'
    } else {
        '9'
    }
}

/// A number in decimal notation, without leading zeros.
pub open spec fn decimal(number: nat) -> Seq<char>
    decreases number,
{
    if number < 10 {
        seq![digit_char(number)]
    } else {
        decimal(number / 10).push(digit_char(number % 10))
    }
}

/// A container name as a host name: the runtime reports names with slashes,
/// which a host name cannot hold.
pub open spec fn host_of_name(name: Seq<char>) -> Seq<char> {
    name.filter(|c: char| c != '/')
}

/// The scheme that every device address starts with.
pub open spec fn http_scheme() -> Seq<char> {
    seq!['h', 't', 't', 'p', ':', '/', '/']
}

/// `http://<host>:<port><path>`.
pub open spec fn http_url(host: Seq<char>, port: u16, path: Seq<char>) -> Seq<char> {
    http_scheme() + host + seq![':'] + decimal(port as nat) + path
}

/// The address at which the container called `name` is asked which device it
/// runs.
pub open spec fn probe_address(name: Seq<char>, port: u16, path: Seq<char>) -> Seq<char> {
    http_url(host_of_name(name), port, path)
}

fn digit_text(digit: u16) -> (text: &'static str)
    requires
        digit < 10,
    ensures
        text@ == seq![digit_char(digit as nat)],
{
    proof {
        reveal_strlit("0");
        reveal_strlit("1");
        reveal_strlit("2");
        reveal_strlit("3");
        reveal_strlit("4");
        reveal_strlit("5");
        reveal_strlit("6");
        reveal_strlit("7");
        reveal_strlit("8");
        reveal_strlit("9");
    }
    let text = if digit == 0 {
        "0"
    } else if digit == 1 {
        "1"
    } else if digit == 2 {
        "2"
    } else if digit == 3 {
        "3"
    } else if digit == 4 {
        "4"
    } else if digit == 5 {
        "5"
    } else if digit == 6 {
        "6"
    } else if digit == 7 {
        "7"
    } else if digit == 8 {
        "8"
    } else {
        "9"
    };
    assert(text@ =~= seq![digit_char(digit as nat)]);
    text
}

fn append_decimal(out: &mut String, number: u16)
    ensures
        final(out)@ == old(out)@ + decimal(number as nat),
    decreases number,
{
    if number >= 10 {
        append_decimal(out, number / 10);
    }
    out.append(digit_text(number % 10));
    assert(out@ =~= old(out)@ + decimal(number as nat));
}

/// Writes a port number in decimal.
pub fn decimal_text(number: u16) -> (text: String)
    ensures
        text@ == decimal(number as nat),
{
    let mut text = String::new();
    append_decimal(&mut text, number);
    assert(text@ =~= decimal(number as nat));
    text
}

/// Removes every slash from a container name.
pub fn host_of(name: &str) -> (host: String)
    ensures
        host@ == host_of_name(name@),
{
    let keep = Ghost(|c: char| c != '/');
    let length = name.unicode_len();
    let mut host = String::new();
    let mut index: usize = 0;
    assert(name@.take(0) =~= Seq::<char>::empty());
    while index < length
        invariant
            length == name@.len(),
            index <= length,
            keep@ == (|c: char| c != '/'),
            host@ == name@.take(index as int).filter(keep@),
        decreases length - index,
    {
        let c = name.get_char(index);
        proof {
            let shorter = name@.take(index as int);
            let longer = name@.take(index + 1);
            assert(longer =~= shorter.push(c));
            assert(longer.drop_last() =~= shorter);
            reveal(Seq::filter);
        }
        if c != '/' {
            host.append(name.substring_char(index, index + 1));
            assert(name@.subrange(index as int, index + 1) =~= seq![c]);
        }
        index = index + 1;
    }
    assert(name@.take(length as int) =~= name@);
    host
}

/// Builds `http://<host>:<port><path>`.
pub fn http_url_text(host: &str, port: u16, path: &str) -> (url: String)
    ensures
        url@ == http_url(host@, port, path@),
{
    proof {
        reveal_strlit("http://");
        reveal_strlit(":");
    }
    let mut url = String::from_str("http://");
    assert(url@ =~= http_scheme());
    url.append(host);
    url.append(":");
    append_decimal(&mut url, port);
    url.append(path);
    assert(url@ =~= http_url(host@, port, path@));
    url
}

/// Builds the address at which the container called `name` is asked which
/// device it runs.
pub fn probe_url(name: &str, port: u16, path: &str) -> (url: String)
    ensures
        url@ == probe_address(name@, port, path@),
{
    let host = host_of(name);
    http_url_text(host.as_str(), port, path)
}

} // verus!
