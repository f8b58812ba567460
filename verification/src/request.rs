//! The address of a request: the backend, the path of the listings and the
//! identifiers asked for.

use vstd::prelude::*;
use vstd::string::*;

verus! {

/// The base address of the backend.
pub const BACKEND_URL: &'static str = "http://localhost:8080";

/// The path under which the backend serves listings.
pub const LISTINGS_PATH: &'static str = "/listings/listings";

/// The characters of each identifier, in order.
pub open spec fn ids_view(ids: Seq<&str>) -> Seq<Seq<char>> {
    ids.map_values(|id: &str| id@)
}

/// The identifiers in order with one comma between neighbours: nothing before
/// the first and nothing after the last.
pub open spec fn joined(ids: Seq<Seq<char>>) -> Seq<char>
    decreases ids.len(),
{
    if ids.len() == 0 {
        Seq::empty()
    } else if ids.len() == 1 {
        ids[0]
    } else {
        joined(ids.drop_last()) + seq![','] + ids.last()
    }
}

/// The text of the request for `ids`, before it is read as an address.
pub open spec fn request_target(ids: Seq<Seq<char>>) -> Seq<char> {
    BACKEND_URL@ + LISTINGS_PATH@ + "?ids="@ + joined(ids)
}

/// Joining is concatenation with a comma at the seam: the identifiers of two
/// non-empty lists, joined as one list, are the two joined lists with one
/// comma between them.
pub proof fn lemma_joined_concat(front: Seq<Seq<char>>, back: Seq<Seq<char>>)
    requires
        front.len() > 0,
        back.len() > 0,
    ensures
        joined(front + back) == joined(front) + seq![','] + joined(back),
    decreases back.len(),
{
    let all = front + back;
    assert(all.last() == back.last());
    if back.len() == 1 {
        assert(all.drop_last() =~= front);
    } else {
        assert(all.drop_last() =~= front + back.drop_last());
        lemma_joined_concat(front, back.drop_last());
        assert(joined(all) =~= joined(front) + seq![','] + joined(back));
    }
}

/// Joins the identifiers with commas.
pub fn join_ids(ids: &[&str]) -> (out: String)
    ensures
        out@ == joined(ids_view(ids@)),
{
    let ghost all = ids_view(ids@);
    let mut out = String::new();
    let mut i: usize = 0;
    proof {
        assert(all.take(0) =~= Seq::empty());
    }
    while i < ids.len()
        invariant
            i <= ids.len(),
            all == ids_view(ids@),
            out@ == joined(all.take(i as int)),
        decreases ids.len() - i,
    {
        proof {
            reveal_strlit(",");
            assert(all.take(i + 1).drop_last() =~= all.take(i as int));
            assert(all.take(i + 1).last() == ids[i as int]@);
            assert(","@ =~= seq![',']);
        }
        if i > 0 {
            out.append(",");
        }
        out.append(ids[i]);
        i += 1;
    }
    proof {
        assert(all.take(i as int) =~= all);
    }
    out
}

/// The text of the request for `ids`: the backend, the path, `?ids=` and the
/// identifiers joined with commas, each as it was given.
pub fn request_text(ids: &[&str]) -> (out: String)
    ensures
        out@ == request_target(ids_view(ids@)),
{
    let mut out = String::from_str(BACKEND_URL);
    out.append(LISTINGS_PATH);
    out.append("?ids=");
    let list = join_ids(ids);
    out.append(list.as_str());
    out
}

/// The address that a text is, in the form in which the `url` crate writes
/// it out again (characters escaped as URL syntax asks); `None` for a text
/// that it does not accept as an absolute address.
pub uninterp spec fn normalized_url(text: Seq<char>) -> Option<Seq<char>>;

/// Calls `reqwest::Url::parse` and, where it accepts the text, takes the
/// address back as a `String`.
///
/// Taken on trust: the outcome depends on the text alone, so that it has a
/// name. Nothing is claimed of what the address looks like.
#[verifier::external_body]
pub(crate) fn normalize_url(text: &str) -> (out: Option<String>)
    ensures
        match out {
            Some(url) => normalized_url(text@) == Some(url@),
            None => normalized_url(text@) is None,
        },
{
    match reqwest::Url::parse(text) {
        Ok(url) => Some(String::from(url)),
        Err(_) => None,
    }
}

/// The address to ask for the listings `ids`: the text of the request, read
/// as an address. `None` where that text is no address.
pub fn listings_url(ids: &[&str]) -> (out: Option<String>)
    ensures
        match normalized_url(request_target(ids_view(ids@))) {
            Some(url) => out matches Some(held) && held@ == url,
            None => out is None,
        },
{
    let text = request_text(ids);
    normalize_url(text.as_str())
}

} // verus!
