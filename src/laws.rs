//! Properties of aggregation that relate several results or hold of every
//! bulletin.
use vstd::prelude::*;
use crate::model::{CsrfDoc, Vulnerability};
use crate::report_formatter::{
    disclosed_of, exploited_of, report_matches, spec_is_disclosed, spec_is_exploited, summary_of,
    Report, Vuln,
};

verus! {

/// A vulnerability's summary is in the disclosed list exactly when the
/// vulnerability is disclosed: each disclosed vulnerability's summary is in
/// the list, and each entry of the list summarizes a disclosed vulnerability.
pub proof fn lemma_disclosed_membership(vs: Seq<Vulnerability>)
    ensures
        forall|i: int|
            0 <= i < vs.len() && spec_is_disclosed(#[trigger] vs[i])
                ==> disclosed_of(vs).contains(summary_of(vs[i])),
        forall|k: int|
            0 <= k < disclosed_of(vs).len() ==> exists|i: int|
                0 <= i < vs.len() && spec_is_disclosed(vs[i]) && #[trigger] disclosed_of(vs)[k]
                    == summary_of(vs[i]),
    decreases vs.len(),
{
    if vs.len() > 0 {
        let pre = vs.drop_last();
        lemma_disclosed_membership(pre);
        let out = disclosed_of(vs);
        assert forall|i: int|
            0 <= i < vs.len() && spec_is_disclosed(#[trigger] vs[i]) implies out.contains(
                summary_of(vs[i]),
            ) by {
            if i < vs.len() - 1 {
                assert(pre[i] == vs[i]);
                let j = choose|j: int| 0 <= j < disclosed_of(pre).len() && disclosed_of(pre)[j]
                    == summary_of(pre[i]);
                assert(out[j] == summary_of(vs[i]));
            } else {
                assert(out[out.len() - 1] == summary_of(vs[i]));
            }
        }
        assert forall|k: int| 0 <= k < out.len() implies exists|i: int|
            0 <= i < vs.len() && spec_is_disclosed(vs[i]) && #[trigger] out[k] == summary_of(
                vs[i],
            ) by {
            if k < disclosed_of(pre).len() {
                let i = choose|i: int|
                    0 <= i < pre.len() && spec_is_disclosed(pre[i]) && disclosed_of(pre)[k]
                        == summary_of(pre[i]);
                assert(vs[i] == pre[i]);
            } else {
                assert(out[k] == summary_of(vs[vs.len() - 1]));
            }
        }
    }
}

/// A vulnerability's summary is in the exploited list exactly when one of
/// its threats carries the exploited marker: each such vulnerability's
/// summary is in the list, and each entry of the list summarizes one.
pub proof fn lemma_exploited_membership(vs: Seq<Vulnerability>)
    ensures
        forall|i: int|
            0 <= i < vs.len() && spec_is_exploited(#[trigger] vs[i])
                ==> exploited_of(vs).contains(summary_of(vs[i])),
        forall|k: int|
            0 <= k < exploited_of(vs).len() ==> exists|i: int|
                0 <= i < vs.len() && spec_is_exploited(vs[i]) && #[trigger] exploited_of(vs)[k]
                    == summary_of(vs[i]),
    decreases vs.len(),
{
    if vs.len() > 0 {
        let pre = vs.drop_last();
        lemma_exploited_membership(pre);
        let out = exploited_of(vs);
        assert forall|i: int|
            0 <= i < vs.len() && spec_is_exploited(#[trigger] vs[i]) implies out.contains(
                summary_of(vs[i]),
            ) by {
            if i < vs.len() - 1 {
                assert(pre[i] == vs[i]);
                let j = choose|j: int| 0 <= j < exploited_of(pre).len() && exploited_of(pre)[j]
                    == summary_of(pre[i]);
                assert(out[j] == summary_of(vs[i]));
            } else {
                assert(out[out.len() - 1] == summary_of(vs[i]));
            }
        }
        assert forall|k: int| 0 <= k < out.len() implies exists|i: int|
            0 <= i < vs.len() && spec_is_exploited(vs[i]) && #[trigger] out[k] == summary_of(
                vs[i],
            ) by {
            if k < exploited_of(pre).len() {
                let i = choose|i: int|
                    0 <= i < pre.len() && spec_is_exploited(pre[i]) && exploited_of(pre)[k]
                        == summary_of(pre[i]);
                assert(vs[i] == pre[i]);
            } else {
                assert(out[k] == summary_of(vs[vs.len() - 1]));
            }
        }
    }
}

/// Aggregating one bulletin twice gives the same report: same title, same
/// counts, same lists and same conditions.
pub proof fn lemma_aggregation_idempotent(doc: CsrfDoc, r1: Report, r2: Report)
    requires
        report_matches(r1, doc),
        report_matches(r2, doc),
    ensures
        r1.title@ == r2.title@,
        r1.total_vulns == r2.total_vulns,
        r1.total_disclosed_vulns == r2.total_disclosed_vulns,
        r1.total_exploited_vulns == r2.total_exploited_vulns,
        r1.total_critical_vulns == r2.total_critical_vulns,
        r1.disclosed_vulns@ == r2.disclosed_vulns@,
        r1.exploited_vulns@ == r2.exploited_vulns@,
        r1.issues@ == r2.issues@,
{
}

/// A bulletin without vulnerabilities gives a report whose four counts are
/// zero and whose two lists are empty.
pub proof fn lemma_empty_bulletin(doc: CsrfDoc, r: Report)
    requires
        doc.vulnerability@.len() == 0,
        report_matches(r, doc),
    ensures
        r.total_vulns == 0,
        r.total_disclosed_vulns == 0,
        r.total_exploited_vulns == 0,
        r.total_critical_vulns == 0,
        r.disclosed_vulns@ == Seq::<Vuln>::empty(),
        r.exploited_vulns@ == Seq::<Vuln>::empty(),
{
}

} // verus!
