//! The revision query builders and the revision normalizer.
//!
//! Revisions are queried for three use cases — authored by the user,
//! needing the user's review, authored by a named user — and all three
//! are inherently open work, so the normalizer always drops closed
//! records.

use vstd::prelude::*;
use vstd::string::*;

use crate::structs::{FabConfig, Revision};
use crate::{param, param_is, Param};

verus! {

/// Whether the normalizer keeps a revision: only records that are not
/// closed.
pub open spec fn revision_is_open(rev: Revision) -> bool {
    !rev.fields.status.closed
}

/// The address of the revision search on the configured instance.
pub fn revision_search_url(config: &FabConfig) -> (r: String)
    ensures
        r@ == config.hosted_instance@ + "api/differential.revision.search"@,
{
    let mut r = config.hosted_instance.clone();
    r.append("api/differential.revision.search");
    r
}

/// The payload listing the user's own revisions.
pub fn build_authored_query(config: &FabConfig) -> (r: Vec<Param>)
    ensures
        r@.len() == 2,
        param_is(r@[0], "queryKey"@, "authored"@),
        param_is(r@[1], "api.token"@, config.api_token@),
{
    let mut r: Vec<Param> = Vec::new();
    r.push(param("queryKey", String::from_str("authored")));
    r.push(param("api.token", config.api_token.clone()));
    r
}

/// The payload listing the revisions that need the user's review.
pub fn build_needs_review_query(config: &FabConfig) -> (r: Vec<Param>)
    ensures
        r@.len() == 2,
        param_is(r@[0], "api.token"@, config.api_token@),
        param_is(r@[1], "constraints[reviewerPHIDs][0]"@, config.phid@),
{
    let mut r: Vec<Param> = Vec::new();
    r.push(param("api.token", config.api_token.clone()));
    r.push(param("constraints[reviewerPHIDs][0]", config.phid.clone()));
    r
}

/// The payload listing the revisions authored by the user with the
/// given identity (resolved beforehand through the user search).
pub fn build_author_query(config: &FabConfig, author_phid: &String) -> (r: Vec<Param>)
    ensures
        r@.len() == 2,
        param_is(r@[0], "api.token"@, config.api_token@),
        param_is(r@[1], "constraints[authorPHIDs][0]"@, author_phid@),
{
    let mut r: Vec<Param> = Vec::new();
    r.push(param("api.token", config.api_token.clone()));
    r.push(param("constraints[authorPHIDs][0]", author_phid.clone()));
    r
}

/// The revision normalizer: drops every closed record and keeps the
/// server's order for the rest.
#[verifier::loop_isolation(false)]
pub fn filter_open_revisions(revs: Vec<Revision>) -> (r: Vec<Revision>)
    ensures
        r@ == revs@.filter(|rev: Revision| revision_is_open(rev)),
{
    let ghost orig = revs@;
    let ghost pred = |rev: Revision| revision_is_open(rev);
    let mut revs = revs;
    let mut out: Vec<Revision> = Vec::new();
    let mut i: usize = 0;
    let n = revs.len();
    proof {
        reveal(Seq::filter);
        assert(orig.take(0) =~= Seq::<Revision>::empty());
        assert(orig.len() == n as int);
    }
    while revs.len() > 0
        invariant
            0 <= i <= orig.len(),
            orig.len() <= usize::MAX,
            revs@ =~= orig.skip(i as int),
            out@ == orig.take(i as int).filter(pred),
        decreases revs@.len(),
    {
        let rev = revs.remove(0);
        proof {
            assert(rev == orig[i as int]);
            assert(orig.skip(i as int).remove(0) =~= orig.skip(i + 1));
            reveal_with_fuel(Seq::filter, 2);
            let a = orig.take(i as int);
            let b = seq![orig[i as int]];
            assert(orig.take(i + 1) =~= a + b);
            Seq::<Revision>::filter_distributes_over_add(a, b, pred);
            assert(b.drop_last() =~= Seq::<Revision>::empty());
        }
        if !rev.fields.status.closed {
            out.push(rev);
            proof {
                reveal_with_fuel(Seq::filter, 2);
                assert(pred(orig[i as int]));
                assert(seq![orig[i as int]].filter(pred) =~= Seq::<Revision>::empty().push(
                    orig[i as int],
                ));
                assert(out@ =~= orig.take(i as int).filter(pred) + seq![orig[i as int]].filter(
                    pred,
                ));
                assert(out@ == orig.take(i + 1).filter(pred));
            }
        } else {
            proof {
                reveal_with_fuel(Seq::filter, 2);
                assert(!pred(orig[i as int]));
                assert(seq![orig[i as int]].filter(pred) =~= Seq::<Revision>::empty());
                assert(out@ =~= orig.take(i as int).filter(pred) + seq![orig[i as int]].filter(
                    pred,
                ));
                assert(out@ == orig.take(i + 1).filter(pred));
            }
        }
        i = i + 1;
    }
    proof {
        assert(orig.take(i as int) =~= orig);
    }
    out
}

} // verus!
