//! The request that opens the price stream.

use vstd::prelude::*;

verus! {

/// The instruments joined by an encoded comma.
pub open spec fn join_instruments(items: Seq<Seq<char>>) -> Seq<char>
    decreases items.len(),
{
    if items.len() == 0 {
        Seq::empty()
    } else if items.len() == 1 {
        items[0]
    } else {
        join_instruments(items.drop_last()) + "%2C"@ + items.last()
    }
}

pub open spec fn views(v: Seq<String>) -> Seq<Seq<char>> {
    v.map_values(|s: String| s@)
}

/// The URL of the price stream of `account` on `hostname`.
pub open spec fn stream_url_spec(hostname: Seq<char>, account: Seq<char>, instruments: Seq<Seq<char>>) -> Seq<char> {
    "https://"@ + hostname + "/v3/accounts/"@ + account + "/pricing/stream?instruments="@
        + join_instruments(instruments)
}

/// The instruments joined by `%2C`.
pub fn join(instruments: &Vec<String>) -> (r: String)
    ensures
        r@ == join_instruments(views(instruments@)),
{
    let ghost v = views(instruments@);
    let mut out = String::new();
    let mut i: usize = 0;
    while i < instruments.len()
        invariant
            i <= instruments@.len(),
            v == views(instruments@),
            out@ == join_instruments(v.take(i as int)),
        decreases instruments.len() - i,
    {
        assert(v.take(i as int + 1).drop_last() =~= v.take(i as int));
        if i > 0 {
            out.append("%2C");
        }
        out.append(instruments[i].as_str());
        i = i + 1;
        proof {
            if i == 1 {
                assert(out@ =~= join_instruments(v.take(i as int)));
            }
        }
    }
    assert(v.take(i as int) =~= v);
    out
}

/// The URL that opens the price stream for `instruments`.
pub fn stream_url(hostname: &str, account: &str, instruments: &Vec<String>) -> (r: String)
    ensures
        r@ == stream_url_spec(hostname@, account@, views(instruments@)),
{
    let mut url = "https://".to_owned();
    url.append(hostname);
    url.append("/v3/accounts/");
    url.append(account);
    url.append("/pricing/stream?instruments=");
    url.append(join(instruments).as_str());
    assert(url@ =~= stream_url_spec(hostname@, account@, views(instruments@)));
    url
}

/// The value of the `Authorization` header for `token`.
pub fn authorization(token: &str) -> (r: String)
    ensures
        r@ == "Bearer "@ + token@,
{
    let mut h = "Bearer ".to_owned();
    h.append(token);
    h
}

} // verus!
