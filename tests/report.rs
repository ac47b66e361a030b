use patch_tuesday_parser::model::{
    CsrfDoc, CvssScoreSet, DocumentPublisher, DocumentTracking, Identification, ProductTree,
    TextShape, Threat, ValString, Vulnerability,
};
use patch_tuesday_parser::report_formatter::{
    generate_report, is_critical, is_exploited, report_title, score_to_text, ReportIssue, Vuln,
};

fn text(s: &str) -> ValString {
    ValString { value: Some(s.to_string()) }
}

fn threat(description: Option<&str>) -> Threat {
    Threat {
        description: ValString { value: description.map(|d| d.to_string()) },
        product_id: None,
        type_field: 1,
        date_specified: false,
    }
}

fn score(base: u32) -> CvssScoreSet {
    CvssScoreSet { base_score: base, temporal_score: base, vector: String::new(), product_id: vec![] }
}

fn vuln(cve: &str, title: Option<&str>, released: bool, threats: Vec<Threat>, scores: Vec<u32>) -> Vulnerability {
    Vulnerability {
        title: ValString { value: title.map(|t| t.to_string()) },
        notes: vec![],
        discovery_date_specified: false,
        release_date_specified: released,
        cve: cve.to_string(),
        product_statuses: vec![],
        threats,
        cvss_score_sets: scores.into_iter().map(score).collect(),
        remediations: vec![],
        acknowledgments: vec![],
        ordinal: "1".to_string(),
        revision_history: vec![],
    }
}

fn doc(title: Option<&str>, vulnerability: Vec<Vulnerability>) -> CsrfDoc {
    CsrfDoc {
        document_title: ValString { value: title.map(|t| t.to_string()) },
        document_type: text("Security Update"),
        document_publisher: DocumentPublisher {
            contact_details: text("secure@microsoft.com"),
            issuing_authority: text("MSRC"),
            type_field: 0,
        },
        document_tracking: DocumentTracking {
            identification: Identification { id: text("2023-Jul"), alias: text("2023-Jul") },
            status: 2,
            version: "1.0".to_string(),
            revision_history: vec![],
            initial_release_date: "2023-07-11T07:00:00".to_string(),
            current_release_date: "2023-07-11T07:00:00".to_string(),
        },
        document_notes: vec![],
        product_tree: ProductTree { branch: vec![], full_product_name: vec![] },
        vulnerability,
    }
}

#[test]
fn report_title_strips_suffix() {
    let r = generate_report(doc(Some("July 2023 Security Updates"), vec![]));
    assert_eq!(r.title, "Patch Tuesday July 2023 ");
    assert!(r.issues.is_empty());
}

#[test]
fn report_title_without_suffix_is_kept_and_flagged() {
    let r = generate_report(doc(Some("July 2023 Bulletin"), vec![]));
    assert_eq!(r.title, "Patch Tuesday July 2023 Bulletin");
    assert!(matches!(r.issues.as_slice(), [ReportIssue::MissingTitleSuffix]));
    let (t, found) = report_title(&None);
    assert_eq!(t, "");
    assert!(found);
}

#[test]
fn disclosed_exploited_critical_vulnerability() {
    let v = vuln("CVE-2023-0001", Some("Office Remote Code Execution"), true,
        vec![threat(Some("Exploited:Yes;Disclosed:No"))], vec![980]);
    let r = generate_report(doc(Some("July 2023 Security Updates"), vec![v]));
    assert_eq!(r.total_vulns, 1);
    assert_eq!(r.total_disclosed_vulns, 1);
    assert_eq!(r.total_exploited_vulns, 1);
    assert_eq!(r.total_critical_vulns, 1);
    for list in [&r.disclosed_vulns, &r.exploited_vulns] {
        assert_eq!(list.len(), 1);
        assert_eq!(list[0].cve, "CVE-2023-0001");
        assert_eq!(list[0].cvss, Some(980));
        assert_eq!(list[0].name, "Office Remote Code Execution");
    }
}

#[test]
fn undisclosed_unthreatened_vulnerability_counts_in_total_only() {
    let v = vuln("CVE-2023-0002", Some("Kernel Information Disclosure"), false, vec![], vec![550]);
    let r = generate_report(doc(Some("July 2023 Security Updates"), vec![v]));
    assert_eq!(r.total_vulns, 1);
    assert_eq!(r.total_disclosed_vulns, 0);
    assert_eq!(r.total_exploited_vulns, 0);
    assert_eq!(r.total_critical_vulns, 0);
    assert!(r.disclosed_vulns.is_empty());
    assert!(r.exploited_vulns.is_empty());
}

#[test]
fn empty_score_set_is_flagged_not_critical() {
    let v = vuln("CVE-2023-0003", Some("Edge Spoofing"), true, vec![], vec![]);
    let r = generate_report(doc(Some("July 2023 Security Updates"), vec![v]));
    assert_eq!(r.total_vulns, 1);
    assert_eq!(r.total_critical_vulns, 0);
    assert_eq!(r.total_disclosed_vulns, 1);
    assert_eq!(r.disclosed_vulns[0].cvss, None);
    match r.issues.as_slice() {
        [ReportIssue::EmptyScoreSet { cve }] => assert_eq!(cve, "CVE-2023-0003"),
        _ => panic!("expected one empty score set issue"),
    }
}

#[test]
fn critical_threshold_is_inclusive() {
    let at = vuln("CVE-2023-0004", Some("a"), false, vec![], vec![800, 100]);
    let below = vuln("CVE-2023-0005", Some("b"), false, vec![], vec![799, 900]);
    assert!(is_critical(&at));
    assert!(!is_critical(&below));
    let r = generate_report(doc(Some("July 2023 Security Updates"), vec![at, below]));
    assert_eq!(r.total_critical_vulns, 1);
    assert_eq!(r.total_vulns, 2);
}

#[test]
fn empty_bulletin_gives_zero_counts() {
    let r = generate_report(doc(Some("July 2023 Security Updates"), vec![]));
    assert_eq!(r.total_vulns, 0);
    assert_eq!(r.total_disclosed_vulns, 0);
    assert_eq!(r.total_exploited_vulns, 0);
    assert_eq!(r.total_critical_vulns, 0);
    assert!(r.disclosed_vulns.is_empty());
    assert!(r.exploited_vulns.is_empty());
}

#[test]
fn exploited_marker_is_a_case_sensitive_substring() {
    let yes = vuln("CVE-1", Some("a"), false,
        vec![threat(None), threat(Some("Publicly Disclosed:No;Exploited:Yes;Latest:Yes"))], vec![100]);
    let lower = vuln("CVE-2", Some("b"), false, vec![threat(Some("exploited:yes"))], vec![100]);
    let no = vuln("CVE-3", Some("c"), false, vec![threat(Some("Exploited:No"))], vec![100]);
    assert!(is_exploited(&yes));
    assert!(!is_exploited(&lower));
    assert!(!is_exploited(&no));
    let r = generate_report(doc(Some("July 2023 Security Updates"), vec![yes, lower, no]));
    assert_eq!(r.total_exploited_vulns, 1);
    assert_eq!(r.exploited_vulns[0].cve, "CVE-1");
}

#[test]
fn lists_keep_bulletin_order_and_overlap() {
    let a = vuln("CVE-A", Some("a"), true, vec![threat(Some("Exploited:Yes"))], vec![900]);
    let b = vuln("CVE-B", Some("b"), false, vec![threat(Some("Exploited:Yes"))], vec![300]);
    let c = vuln("CVE-C", Some("c"), true, vec![], vec![810]);
    let r = generate_report(doc(Some("July 2023 Security Updates"), vec![a, b, c]));
    let cves = |l: &Vec<Vuln>| l.iter().map(|v| v.cve.clone()).collect::<Vec<_>>();
    assert_eq!(cves(&r.disclosed_vulns), vec!["CVE-A", "CVE-C"]);
    assert_eq!(cves(&r.exploited_vulns), vec!["CVE-A", "CVE-B"]);
    assert_eq!(r.total_critical_vulns, 2);
    assert_eq!(r.total_vulns, 3);
}

#[test]
fn missing_vulnerability_title_falls_back_to_cve() {
    let v = vuln("CVE-2023-0009", None, true, vec![], vec![420]);
    let r = generate_report(doc(Some("July 2023 Security Updates"), vec![v]));
    assert_eq!(r.disclosed_vulns[0].name, "CVE-2023-0009");
    match r.issues.as_slice() {
        [ReportIssue::MissingVulnerabilityTitle { cve }] => assert_eq!(cve, "CVE-2023-0009"),
        _ => panic!("expected one missing title issue"),
    }
}

#[test]
fn aggregation_is_repeatable() {
    let make = || doc(Some("July 2023 Security Updates"), vec![
        vuln("CVE-A", Some("a"), true, vec![threat(Some("Exploited:Yes"))], vec![900]),
        vuln("CVE-B", None, false, vec![], vec![]),
    ]);
    let r1 = generate_report(make());
    let r2 = generate_report(make());
    assert_eq!(r1.to_text(), r2.to_text());
    assert_eq!(r1.to_html(), r2.to_html());
    assert_eq!(r1.issues.len(), r2.issues.len());
}

#[test]
fn scores_are_written_as_decimals() {
    assert_eq!(score_to_text(Some(980)), "9.8");
    assert_eq!(score_to_text(Some(799)), "7.99");
    assert_eq!(score_to_text(Some(800)), "8");
    assert_eq!(score_to_text(Some(705)), "7.05");
    assert_eq!(score_to_text(Some(1000)), "10");
    assert_eq!(score_to_text(None), "N/A");
    let v = Vuln { cve: "CVE-1".to_string(), cvss: Some(75), name: "x".to_string() };
    assert_eq!(v.to_text(), "CVE-1 | CVSS: 0.75 | x");
}

#[test]
fn plain_text_report_layout() {
    let a = vuln("CVE-A", Some("a"), true, vec![threat(Some("Exploited:Yes"))], vec![900]);
    let r = generate_report(doc(Some("July 2023 Security Updates"), vec![a]));
    assert_eq!(
        r.to_text(),
        "Patch Tuesday July 2023 \n[+] Found a total of 1 vulnerabilities\n[+] 1 disclosed vulnerabilities\n[+] 1 exploited vulnerabilities\n[+] 1 in need of urgent patching\n"
    );
}

#[test]
fn html_report_layout() {
    let a = vuln("CVE-A", Some("Alpha"), true, vec![threat(Some("Exploited:Yes"))], vec![980]);
    let b = vuln("CVE-B", Some("Beta"), true, vec![], vec![120]);
    let r = generate_report(doc(Some("July 2023 Security Updates"), vec![a, b]));
    let html = r.to_html();
    assert!(html.starts_with("<h1>Microsoft - Multiple Products - Patch Tuesday July 2023 </h1><a href=\""));
    assert!(html.contains("<p>Patch Tuesday July 2023  addresses a total of 2 vulnerabilities, with 1 classified as 'Critical', 1 being actively exploited, and 2 publicly disclosed.</p>"));
    assert!(html.contains("<h2>Actively Exploited</h2><ul><li>CVE-A | CVSS: 9.8 | Alpha</li></ul>"));
    assert!(html.contains("<h2>Publicly Disclosed Vulnerabilities</h2><ul><li>CVE-A | CVSS: 9.8 | Alpha</li><li>CVE-B | CVSS: 1.2 | Beta</li></ul>"));
    assert!(html.ends_with("see the attached spreadsheet.</p>"));
}

#[test]
fn text_shapes_normalize_to_one_optional_string() {
    assert_eq!(ValString::from_shape(TextShape::Bare("x".to_string())).value, Some("x".to_string()));
    assert_eq!(ValString::from_shape(TextShape::Wrapped(Some("y".to_string()))).value, Some("y".to_string()));
    assert_eq!(ValString::from_shape(TextShape::Wrapped(None)).value, None);
}
