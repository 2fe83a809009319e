//! The pure part of the upstream fetcher: building the request URL for a
//! collection from the configured host, service name and page-size cap.  The
//! network call itself lives outside the library; it receives this URL and a
//! credential and hands back a status code and body, or a transport
//! diagnostic.

use vstd::prelude::*;

verus! {

/// The decimal digit character for `d`.
pub open spec fn digit_char(d: int) -> char {
    if d == 0 {
        '0'
    } else if d == 1 {
        '1'
    } else if d == 2 {
        '2'
    } else if d == 3 {
        '3'
    } else if d == 4 {
        '4'
    } else if d == 5 {
        '5'
    } else if d == 6 {
        '6'
    } else if d == 7 {
        '7'
    } else if d == 8 {
        '8'
    } else {
        '9'
    }
}

/// The usual base-ten rendering of `n`, without sign or leading zeros.
pub open spec fn decimal_of(n: int) -> Seq<char>
    decreases n,
{
    if n < 10 {
        seq![digit_char(n)]
    } else {
        decimal_of(n / 10).push(digit_char(n % 10))
    }
}

/// Appends the decimal rendering of `n` to `out`.
fn append_decimal(out: &mut String, n: u64)
    ensures
        final(out)@ == old(out)@ + decimal_of(n as int),
    decreases n,
{
    if n >= 10 {
        append_decimal(out, n / 10);
    }
    let d = n % 10;
    match d {
        0 => out.append("0"),
        1 => out.append("1"),
        2 => out.append("2"),
        3 => out.append("3"),
        4 => out.append("4"),
        5 => out.append("5"),
        6 => out.append("6"),
        7 => out.append("7"),
        8 => out.append("8"),
        _ => out.append("9"),
    }
    proof {
        reveal_strlit("0");
        reveal_strlit("1");
        reveal_strlit("2");
        reveal_strlit("3");
        reveal_strlit("4");
        reveal_strlit("5");
        reveal_strlit("6");
        reveal_strlit("7");
        reveal_strlit("8");
        reveal_strlit("9");
        assert(out@ =~= old(out)@ + decimal_of(n as int));
    }
}

/// What the URL for one upstream page request looks like.
pub open spec fn feed_url(
    host: Seq<char>,
    service: Seq<char>,
    collection: Seq<char>,
    page_limit: int,
) -> Seq<char> {
    host + "/"@ + service + "/"@ + collection + "?$top="@ + decimal_of(page_limit)
}

/// Builds the upstream request URL
/// `<host>/<service>/<collection>?$top=<page_limit>`.  The page limit is the
/// gateway's configured cap, never a client-supplied value.
pub fn build_feed_url(host: &str, service: &str, collection: &String, page_limit: u64) -> (url:
    String)
    ensures
        url@ == feed_url(host@, service@, collection@, page_limit as int),
{
    let mut url = host.to_owned();
    url.append("/");
    url.append(service);
    url.append("/");
    url.append(collection.as_str());
    url.append("?$top=");
    append_decimal(&mut url, page_limit);
    proof {
        assert(url@ =~= feed_url(host@, service@, collection@, page_limit as int));
    }
    url
}

} // verus!
