//! From an operation and the credentials to the address of the one request that
//! performs it.

use crate::operation::{pairs_view, Operation, OperationView, Pair};
use vstd::prelude::*;
use vstd::string::*;
use vstd::utf8::encode_utf8;

verus! {

/// One pair as it stands in a query: `&`, the name, `=`, the value.
pub open spec fn pair_text(pair: Pair) -> Seq<char> {
    "&"@ + pair.0 + "="@ + pair.1
}

/// The pairs of a query one after the other, each as `pair_text` writes it.
pub open spec fn query_text(pairs: Seq<Pair>) -> Seq<char>
    decreases pairs.len(),
{
    if pairs.len() == 0 {
        Seq::empty()
    } else {
        query_text(pairs.drop_last()) + pair_text(pairs.last())
    }
}

/// The address of the request: the endpoint below `base`, then the account
/// identifier as `veid` and the key as `api_key`, then the operation's own
/// parameters in their order. Every value stands as it is given.
pub open spec fn request_url(
    base: Seq<char>,
    operation: OperationView,
    account_id: Seq<char>,
    api_key: Seq<char>,
) -> Seq<char> {
    base + "/"@ + operation.endpoint() + "?veid="@ + account_id + "&api_key="@ + api_key
        + query_text(operation.parameters())
}

/// Builds the address of the request that performs `operation` for the account
/// `account_id` with the key `api_key`, at the service found under `base`.
pub fn build_url(base: &str, operation: &Operation, account_id: &str, api_key: &str) -> (url:
    String)
    ensures
        url@ == request_url(base@, operation@, account_id@, api_key@),
{
    let mut url = String::from_str(base);
    url.append("/");
    url.append(operation.endpoint());
    url.append("?veid=");
    url.append(account_id);
    url.append("&api_key=");
    url.append(api_key);
    let ghost head = url@;
    let pairs = operation.parameters();
    let mut index: usize = 0;
    while index < pairs.len()
        invariant
            index <= pairs.len(),
            url@ == head + query_text(pairs_view(pairs@).take(index as int)),
        decreases pairs.len() - index,
    {
        let ghost done = pairs_view(pairs@).take(index as int);
        let ghost next = pairs_view(pairs@).take(index + 1);
        assert(next.drop_last() == done);
        url.append("&");
        url.append(pairs[index].0);
        url.append("=");
        url.append(pairs[index].1.as_str());
        index += 1;
    }
    assert(pairs_view(pairs@).take(index as int) == pairs_view(pairs@));
    url
}

/// The address depends on nothing but what it is built from: two addresses
/// built from the same base, operation and credentials are the same text, and
/// so the same bytes.
pub proof fn lemma_same_inputs_same_url(
    base: Seq<char>,
    operation: OperationView,
    account_id: Seq<char>,
    api_key: Seq<char>,
    first: Seq<char>,
    second: Seq<char>,
)
    requires
        first == request_url(base, operation, account_id, api_key),
        second == request_url(base, operation, account_id, api_key),
    ensures
        first == second,
        encode_utf8(first) == encode_utf8(second),
{
}

} // verus!
