//! Aggregation of a bulletin into a report, and the report's renderings.
use vstd::prelude::*;
use crate::model::{CsrfDoc, Threat, Vulnerability};
use crate::text::{decimal, has_suffix, seq_contains, str_contains, strip_suffix_of, usize_text};

verus! {

/// A base score, in hundredths of a point, at or above which a vulnerability
/// is critical.
pub const CRITICAL_BASE_SCORE: u32 = 800;

/// One line of a report's lists: the CVE, the representative base score (in
/// hundredths; absent when the vulnerability has no score set) and the
/// display name.
pub struct Vuln {
    pub cve: String,
    pub cvss: Option<u32>,
    pub name: String,
}

/// A recoverable condition met while aggregating; the rest of the bulletin
/// is still aggregated.
pub enum ReportIssue {
    /// The vulnerability with this CVE has no score set: it is not critical,
    /// and its summaries carry no score.
    EmptyScoreSet { cve: String },
    /// The bulletin title does not end with the expected suffix; the report
    /// title keeps the bulletin title whole.
    MissingTitleSuffix,
    /// The vulnerability with this CVE has no title: its summaries are named
    /// by the CVE.
    MissingVulnerabilityTitle { cve: String },
}

/// What a bulletin adds up to.
pub struct Report {
    pub title: String,
    pub total_vulns: usize,
    pub total_disclosed_vulns: usize,
    pub total_exploited_vulns: usize,
    pub total_critical_vulns: usize,
    pub exploited_vulns: Vec<Vuln>,
    pub disclosed_vulns: Vec<Vuln>,
    pub issues: Vec<ReportIssue>,
}

pub open spec fn exploited_marker() -> Seq<char> {
    "Exploited:Yes"@
}

pub open spec fn title_suffix() -> Seq<char> {
    "Security Updates"@
}

pub open spec fn title_prefix() -> Seq<char> {
    "Patch Tuesday "@
}

/// The threat's description carries the exploited marker.
pub open spec fn threat_marks_exploited(t: Threat) -> bool {
    match t.description.value {
        Some(d) => seq_contains(d@, exploited_marker()),
        None => false,
    }
}

pub open spec fn spec_is_exploited(v: Vulnerability) -> bool {
    exists|i: int| 0 <= i < v.threats@.len() && threat_marks_exploited(#[trigger] v.threats@[i])
}

pub open spec fn spec_is_disclosed(v: Vulnerability) -> bool {
    v.release_date_specified
}

pub open spec fn spec_is_critical(v: Vulnerability) -> bool {
    v.cvss_score_sets@.len() > 0 && v.cvss_score_sets@[0].base_score >= CRITICAL_BASE_SCORE
}

/// The base score of the first score set, if there is one.
pub open spec fn first_base_score(v: Vulnerability) -> Option<u32> {
    if v.cvss_score_sets@.len() > 0 {
        Some(v.cvss_score_sets@[0].base_score)
    } else {
        None
    }
}

/// The vulnerability's title, or its CVE where it has none.
pub open spec fn display_name(v: Vulnerability) -> String {
    match v.title.value {
        Some(t) => t,
        None => v.cve,
    }
}

pub open spec fn summary_of(v: Vulnerability) -> Vuln {
    Vuln { cve: v.cve, cvss: first_base_score(v), name: display_name(v) }
}

/// Summaries of the disclosed vulnerabilities, in bulletin order.
pub open spec fn disclosed_of(vs: Seq<Vulnerability>) -> Seq<Vuln>
    decreases vs.len(),
{
    if vs.len() == 0 {
        Seq::empty()
    } else if spec_is_disclosed(vs.last()) {
        disclosed_of(vs.drop_last()).push(summary_of(vs.last()))
    } else {
        disclosed_of(vs.drop_last())
    }
}

/// Summaries of the exploited vulnerabilities, in bulletin order.
pub open spec fn exploited_of(vs: Seq<Vulnerability>) -> Seq<Vuln>
    decreases vs.len(),
{
    if vs.len() == 0 {
        Seq::empty()
    } else if spec_is_exploited(vs.last()) {
        exploited_of(vs.drop_last()).push(summary_of(vs.last()))
    } else {
        exploited_of(vs.drop_last())
    }
}

/// How many of the vulnerabilities are critical.
pub open spec fn critical_count(vs: Seq<Vulnerability>) -> nat
    decreases vs.len(),
{
    if vs.len() == 0 {
        0
    } else if spec_is_critical(vs.last()) {
        critical_count(vs.drop_last()) + 1
    } else {
        critical_count(vs.drop_last())
    }
}

/// The conditions that one vulnerability raises.
pub open spec fn vuln_issues(v: Vulnerability) -> Seq<ReportIssue> {
    let score = if v.cvss_score_sets@.len() == 0 {
        seq![ReportIssue::EmptyScoreSet { cve: v.cve }]
    } else {
        Seq::empty()
    };
    let name = if v.title.value is None && (spec_is_disclosed(v) || spec_is_exploited(v)) {
        seq![ReportIssue::MissingVulnerabilityTitle { cve: v.cve }]
    } else {
        Seq::empty()
    };
    score + name
}

/// The conditions that the vulnerabilities raise, in bulletin order.
pub open spec fn issues_of(vs: Seq<Vulnerability>) -> Seq<ReportIssue>
    decreases vs.len(),
{
    if vs.len() == 0 {
        Seq::empty()
    } else {
        issues_of(vs.drop_last()) + vuln_issues(vs.last())
    }
}

/// The report title for a bulletin title: the prefix, then the bulletin
/// title without its suffix (whole where the suffix is missing).
pub open spec fn title_of(t: Option<String>) -> Seq<char> {
    match t {
        None => Seq::empty(),
        Some(s) => if has_suffix(s@, title_suffix()) {
            title_prefix() + s@.subrange(0, s@.len() - title_suffix().len())
        } else {
            title_prefix() + s@
        },
    }
}

/// The conditions that the bulletin title raises.
pub open spec fn title_issues(t: Option<String>) -> Seq<ReportIssue> {
    match t {
        Some(s) => if has_suffix(s@, title_suffix()) {
            Seq::empty()
        } else {
            seq![ReportIssue::MissingTitleSuffix]
        },
        None => Seq::empty(),
    }
}

/// The report that a bulletin adds up to.
pub open spec fn report_matches(r: Report, doc: CsrfDoc) -> bool {
    let vs = doc.vulnerability@;
    &&& r.title@ == title_of(doc.document_title.value)
    &&& r.total_vulns == vs.len()
    &&& r.disclosed_vulns@ == disclosed_of(vs)
    &&& r.total_disclosed_vulns == disclosed_of(vs).len()
    &&& r.exploited_vulns@ == exploited_of(vs)
    &&& r.total_exploited_vulns == exploited_of(vs).len()
    &&& r.total_critical_vulns == critical_count(vs)
    &&& r.issues@ == title_issues(doc.document_title.value) + issues_of(vs)
}

/// Whether a threat's description carries the exploited marker.
pub fn threat_is_exploited(t: &Threat) -> (r: bool)
    ensures
        r == threat_marks_exploited(*t),
{
    match &t.description.value {
        Some(d) => str_contains(d.as_str(), "Exploited:Yes"),
        None => false,
    }
}

/// Whether any threat of the vulnerability marks it exploited; the scan
/// stops at the first that does.
pub fn is_exploited(v: &Vulnerability) -> (r: bool)
    ensures
        r == spec_is_exploited(*v),
{
    let mut i: usize = 0;
    while i < v.threats.len()
        invariant
            i <= v.threats@.len(),
            forall|j: int| 0 <= j < i ==> !threat_marks_exploited(#[trigger] v.threats@[j]),
        decreases v.threats@.len() - i,
    {
        if threat_is_exploited(&v.threats[i]) {
            return true;
        }
        i = i + 1;
    }
    false
}

/// Whether the vulnerability's first score set reaches the critical score.
pub fn is_critical(v: &Vulnerability) -> (r: bool)
    ensures
        r == spec_is_critical(*v),
{
    v.cvss_score_sets.len() > 0 && v.cvss_score_sets[0].base_score >= CRITICAL_BASE_SCORE
}

/// The summary line of a vulnerability.
pub fn summarize(v: &Vulnerability) -> (r: Vuln)
    ensures
        r == summary_of(*v),
{
    let cvss = if v.cvss_score_sets.len() > 0 {
        Some(v.cvss_score_sets[0].base_score)
    } else {
        None
    };
    let name = match &v.title.value {
        Some(t) => t.clone(),
        None => v.cve.clone(),
    };
    Vuln { cve: v.cve.clone(), cvss, name }
}

/// The report title for a bulletin title, and whether the expected suffix
/// was found (always so for an absent title).
pub fn report_title(t: &Option<String>) -> (r: (String, bool))
    ensures
        r.0@ == title_of(*t),
        r.1 == (title_issues(*t).len() == 0),
{
    match t {
        None => (String::new(), true),
        Some(s) => {
            let mut title = String::from_str("Patch Tuesday ");
            match strip_suffix_of(s.as_str(), "Security Updates") {
                Some(stem) => {
                    title.append(stem.as_str());
                    (title, true)
                },
                None => {
                    title.append(s.as_str());
                    (title, false)
                },
            }
        },
    }
}

/// Aggregates a bulletin: counts every vulnerability, lists the disclosed
/// and the exploited ones in bulletin order, counts the critical ones, and
/// records each recoverable condition met on the way.
pub fn generate_report(doc: CsrfDoc) -> (r: Report)
    ensures
        report_matches(r, doc),
{
    let (title, suffix_found) = report_title(&doc.document_title.value);
    let mut issues: Vec<ReportIssue> = Vec::new();
    if !suffix_found {
        issues.push(ReportIssue::MissingTitleSuffix);
    }
    let ghost vs = doc.vulnerability@;
    let ghost head = issues@;
    assert(head == title_issues(doc.document_title.value));
    let mut disclosed: Vec<Vuln> = Vec::new();
    let mut exploited: Vec<Vuln> = Vec::new();
    let mut critical: usize = 0;
    let mut i: usize = 0;
    while i < doc.vulnerability.len()
        invariant
            vs == doc.vulnerability@,
            i <= vs.len(),
            disclosed@ == disclosed_of(vs.subrange(0, i as int)),
            exploited@ == exploited_of(vs.subrange(0, i as int)),
            critical as nat == critical_count(vs.subrange(0, i as int)),
            issues@ == head + issues_of(vs.subrange(0, i as int)),
            disclosed@.len() <= i,
            exploited@.len() <= i,
            critical <= i,
        decreases vs.len() - i,
    {
        let v = &doc.vulnerability[i];
        let ghost pre = vs.subrange(0, i as int);
        let ghost next = vs.subrange(0, i + 1);
        assert(next.drop_last() == pre);
        assert(next.last() == *v);
        let ghost before = issues@;
        if v.cvss_score_sets.len() == 0 {
            issues.push(ReportIssue::EmptyScoreSet { cve: v.cve.clone() });
        }
        let disclosed_now = v.release_date_specified;
        let exploited_now = is_exploited(v);
        if v.title.value.is_none() && (disclosed_now || exploited_now) {
            issues.push(ReportIssue::MissingVulnerabilityTitle { cve: v.cve.clone() });
        }
        assert(issues@ =~= before + vuln_issues(*v));
        assert(head + issues_of(next) =~= head + issues_of(pre) + vuln_issues(*v));
        if disclosed_now {
            disclosed.push(summarize(v));
        }
        if exploited_now {
            exploited.push(summarize(v));
        }
        if is_critical(v) {
            critical = critical + 1;
        }
        i = i + 1;
    }
    assert(vs.subrange(0, vs.len() as int) == vs);
    let total_disclosed_vulns = disclosed.len();
    let total_exploited_vulns = exploited.len();
    Report {
        title,
        total_vulns: doc.vulnerability.len(),
        total_disclosed_vulns,
        total_exploited_vulns,
        total_critical_vulns: critical,
        exploited_vulns: exploited,
        disclosed_vulns: disclosed,
        issues,
    }
}

/// The fractional part of a score in hundredths, as `f32` display writes it:
/// nothing for a whole number, otherwise a point and no trailing zero.
pub open spec fn fraction_text(f: nat) -> Seq<char> {
    if f == 0 {
        Seq::empty()
    } else if f % 10 == 0 {
        "."@ + decimal(f / 10)
    } else {
        "."@ + decimal(f / 10) + decimal(f % 10)
    }
}

/// A score in hundredths written as a decimal number (`980` is `9.8`), or
/// `N/A` for an absent score.
pub open spec fn score_text(s: Option<u32>) -> Seq<char> {
    match s {
        Some(h) => decimal((h / 100) as nat) + fraction_text((h % 100) as nat),
        None => "N/A"@,
    }
}

/// `cve | CVSS: score | name`.
pub open spec fn vuln_text(v: Vuln) -> Seq<char> {
    v.cve@ + " | CVSS: "@ + score_text(v.cvss) + " | "@ + v.name@
}

/// The summaries as HTML list items, in order.
pub open spec fn list_items(vs: Seq<Vuln>) -> Seq<char>
    decreases vs.len(),
{
    if vs.len() == 0 {
        Seq::empty()
    } else {
        list_items(vs.drop_last()) + "<li>"@ + vuln_text(vs.last()) + "</li>"@
    }
}

pub open spec fn report_text(r: Report) -> Seq<char> {
    r.title@ + "\n[+] Found a total of "@ + decimal(r.total_vulns as nat) + " vulnerabilities\n[+] "@
        + decimal(r.total_disclosed_vulns as nat) + " disclosed vulnerabilities\n[+] "@
        + decimal(r.total_exploited_vulns as nat) + " exploited vulnerabilities\n[+] "@
        + decimal(r.total_critical_vulns as nat) + " in need of urgent patching\n"@
}

pub open spec fn html_head() -> Seq<char> {
    "<h1>Microsoft - Multiple Products - "@
}

pub open spec fn html_link() -> Seq<char> {
    "</h1><a href=\"https://teams.microsoft.com/l/team/19%3azyL0LCtHqHzphE7eObcnrarbHFspb5URbpRH6nSt6U01%40thread.tacv2/conversations?groupId=407e1952-854e-4b4b-94ec-d6064405b99a&tenantId=c047d5c1-d2a6-484d-ae6e-ec2bce85d023\"Critical Vulnerability Response - </a><br><p>"@
}

pub open spec fn html_closing() -> Seq<char> {
    "</ul><br><p>For a full breakdown of all critical vulnerabilities, vulnerabilities in need of urgent patching, vulnerabilities that are being exploited in the wild, and vulnerabilities that have been publicly disclosed, see the attached spreadsheet.</p>"@
}

pub open spec fn report_html(r: Report) -> Seq<char> {
    html_head() + r.title@ + html_link() + r.title@ + " addresses a total of "@
        + decimal(r.total_vulns as nat) + " vulnerabilities, with "@
        + decimal(r.total_critical_vulns as nat) + " classified as 'Critical', "@
        + decimal(r.total_exploited_vulns as nat) + " being actively exploited, and "@
        + decimal(r.total_disclosed_vulns as nat)
        + " publicly disclosed.</p><br><h2>Actively Exploited</h2><ul>"@
        + list_items(r.exploited_vulns@)
        + "</ul><br><h2>Publicly Disclosed Vulnerabilities</h2><ul>"@
        + list_items(r.disclosed_vulns@) + html_closing()
}

/// Writes a score in hundredths as a decimal number.
pub fn score_to_text(s: Option<u32>) -> (r: String)
    ensures
        r@ == score_text(s),
{
    match s {
        None => String::from_str("N/A"),
        Some(h) => {
            let mut out = usize_text((h / 100) as usize);
            let f = h % 100;
            if f != 0 {
                out.append(".");
                let tenths = usize_text((f / 10) as usize);
                out.append(tenths.as_str());
                if f % 10 != 0 {
                    let hundredths = usize_text((f % 10) as usize);
                    out.append(hundredths.as_str());
                }
            }
            out
        },
    }
}

impl Vuln {
    /// `cve | CVSS: score | name`.
    pub fn to_text(&self) -> (r: String)
        ensures
            r@ == vuln_text(*self),
    {
        let mut out = self.cve.clone();
        out.append(" | CVSS: ");
        let score = score_to_text(self.cvss);
        out.append(score.as_str());
        out.append(" | ");
        out.append(self.name.as_str());
        out
    }
}

/// Appends each summary as an HTML list item.
fn push_list_items(out: &mut String, vs: &Vec<Vuln>)
    ensures
        final(out)@ == old(out)@ + list_items(vs@),
{
    let ghost start = out@;
    let mut i: usize = 0;
    while i < vs.len()
        invariant
            i <= vs@.len(),
            out@ == start + list_items(vs@.subrange(0, i as int)),
        decreases vs@.len() - i,
    {
        let ghost pre = vs@.subrange(0, i as int);
        let ghost next = vs@.subrange(0, i + 1);
        assert(next.drop_last() == pre);
        let line = vs[i].to_text();
        out.append("<li>");
        out.append(line.as_str());
        out.append("</li>");
        assert(out@ =~= start + list_items(next));
        i = i + 1;
    }
    assert(vs@.subrange(0, vs@.len() as int) == vs@);
}

impl Report {
    /// The plain-text report: the title, then the total, disclosed,
    /// exploited and critical counts, one line each.
    pub fn to_text(&self) -> (r: String)
        ensures
            r@ == report_text(*self),
    {
        let mut out = self.title.clone();
        out.append("\n[+] Found a total of ");
        out.append(usize_text(self.total_vulns).as_str());
        out.append(" vulnerabilities\n[+] ");
        out.append(usize_text(self.total_disclosed_vulns).as_str());
        out.append(" disclosed vulnerabilities\n[+] ");
        out.append(usize_text(self.total_exploited_vulns).as_str());
        out.append(" exploited vulnerabilities\n[+] ");
        out.append(usize_text(self.total_critical_vulns).as_str());
        out.append(" in need of urgent patching\n");
        out
    }

    /// The HTML announcement: the title heading, the contact link, a summary
    /// sentence, the exploited and the disclosed lists, and a closing note.
    pub fn to_html(&self) -> (r: String)
        ensures
            r@ == report_html(*self),
    {
        let mut out = String::from_str("<h1>Microsoft - Multiple Products - ");
        out.append(self.title.as_str());
        out.append("</h1><a href=\"https://teams.microsoft.com/l/team/19%3azyL0LCtHqHzphE7eObcnrarbHFspb5URbpRH6nSt6U01%40thread.tacv2/conversations?groupId=407e1952-854e-4b4b-94ec-d6064405b99a&tenantId=c047d5c1-d2a6-484d-ae6e-ec2bce85d023\"Critical Vulnerability Response - </a><br><p>");
        out.append(self.title.as_str());
        out.append(" addresses a total of ");
        out.append(usize_text(self.total_vulns).as_str());
        out.append(" vulnerabilities, with ");
        out.append(usize_text(self.total_critical_vulns).as_str());
        out.append(" classified as 'Critical', ");
        out.append(usize_text(self.total_exploited_vulns).as_str());
        out.append(" being actively exploited, and ");
        out.append(usize_text(self.total_disclosed_vulns).as_str());
        out.append(" publicly disclosed.</p><br><h2>Actively Exploited</h2><ul>");
        push_list_items(&mut out, &self.exploited_vulns);
        out.append("</ul><br><h2>Publicly Disclosed Vulnerabilities</h2><ul>");
        push_list_items(&mut out, &self.disclosed_vulns);
        out.append("</ul><br><p>For a full breakdown of all critical vulnerabilities, vulnerabilities in need of urgent patching, vulnerabilities that are being exploited in the wild, and vulnerabilities that have been publicly disclosed, see the attached spreadsheet.</p>");
        out
    }
}

} // verus!
