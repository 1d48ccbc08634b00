//! What the internal routes answer with.

use crate::registry::sites_view;
use crate::site::{Site, SiteView};
use vstd::prelude::*;

verus! {

/// The beginning of the paths of the internal routes.
pub const INTERNAL_ROUTE_PREFIX: &'static str = ".traefik-pages";

/// The hostnames of `sites`, each followed by a line feed.
pub open spec fn hostname_lines(sites: Seq<SiteView>) -> Seq<char>
    decreases sites.len(),
{
    if sites.len() == 0 {
        Seq::empty()
    } else {
        hostname_lines(sites.drop_last()) + sites.last().hostname() + seq!['\n']
    }
}

/// The text that lists `sites`: one hostname on each line, in the order of
/// `sites`, and one empty line where there is no site.
pub open spec fn sites_text(sites: Seq<SiteView>) -> Seq<char> {
    if sites.len() == 0 {
        seq!['\n']
    } else {
        hostname_lines(sites)
    }
}

/// The text that lists the hostnames of `sites`.
pub fn sites_list(sites: &Vec<Site>) -> (body: String)
    ensures
        body@ == sites_text(sites_view(sites@)),
{
    proof {
        reveal_strlit("\n");
        assert("\n"@ =~= seq!['\n']);
    }
    if sites.len() == 0 {
        return String::from_str("\n");
    }
    let mut body = String::new();
    let mut i: usize = 0;
    assert(sites_view(sites@).take(0) =~= Seq::<SiteView>::empty());
    while i < sites.len()
        invariant
            i <= sites.len(),
            "\n"@ == seq!['\n'],
            body@ == hostname_lines(sites_view(sites@).take(i as int)),
        decreases sites.len() - i,
    {
        let ghost upto = sites_view(sites@).take(i + 1);
        assert(upto.drop_last() =~= sites_view(sites@).take(i as int));
        assert(upto.last() == sites@[i as int]@);
        let hostname = sites[i].get_hostname();
        body.append(hostname.as_str());
        body.append("\n");
        i = i + 1;
    }
    assert(sites_view(sites@).take(i as int) =~= sites_view(sites@));
    body
}

} // verus!
