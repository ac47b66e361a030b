//! The security bulletin as typed data. Every optional field of the bulletin
//! keeps an explicit absent state; CVSS scores are held in hundredths of a
//! point (a base score of 9.8 is `980`).
use vstd::prelude::*;

verus! {

/// Text that a bulletin may omit; both the wrapped and the bare shape of the
/// field end up here.
pub struct ValString {
    pub value: Option<String>,
}

/// The two shapes in which a bulletin writes a text field: a bare string, or
/// an object whose one field may be missing.
pub enum TextShape {
    Bare(String),
    Wrapped(Option<String>),
}

impl ValString {
    /// Normalizes either shape of a text field into one optional string.
    pub fn from_shape(shape: TextShape) -> (r: ValString)
        ensures
            r.value == (match shape {
                TextShape::Bare(s) => Some(s),
                TextShape::Wrapped(v) => v,
            }),
    {
        match shape {
            TextShape::Bare(s) => ValString { value: Some(s) },
            TextShape::Wrapped(v) => ValString { value: v },
        }
    }
}

/// The whole bulletin.
pub struct CsrfDoc {
    pub document_title: ValString,
    pub document_type: ValString,
    pub document_publisher: DocumentPublisher,
    pub document_tracking: DocumentTracking,
    pub document_notes: Vec<DocumentNote>,
    pub product_tree: ProductTree,
    pub vulnerability: Vec<Vulnerability>,
}

pub struct DocumentPublisher {
    pub contact_details: ValString,
    pub issuing_authority: ValString,
    pub type_field: i64,
}

pub struct DocumentTracking {
    pub identification: Identification,
    pub status: i16,
    pub version: String,
    pub revision_history: Vec<RevisionHistory>,
    pub initial_release_date: String,
    pub current_release_date: String,
}

pub struct Identification {
    pub id: ValString,
    pub alias: ValString,
}

pub struct RevisionHistory {
    pub number: String,
    pub date: String,
    pub description: ValString,
}

pub struct DocumentNote {
    pub title: String,
    pub audience: Option<String>,
    pub type_field: i16,
    pub ordinal: String,
    pub value: Option<String>,
}

/// The product taxonomy: a forest of branches and a flat list of product names.
pub struct ProductTree {
    pub branch: Vec<Branch>,
    pub full_product_name: Vec<FullProductName>,
}

/// A node of the product tree. An inner node lists its children in `items`,
/// in their declared order; a leaf carries a `product_id` instead.
pub struct Branch {
    pub items: Option<Vec<Branch>>,
    pub type_field: Option<i64>,
    pub name: Option<String>,
    pub product_id: Option<String>,
    pub value: Option<String>,
}

pub struct FullProductName {
    pub product_id: String,
    pub value: String,
}

pub struct Vulnerability {
    pub title: ValString,
    pub notes: Vec<Note>,
    pub discovery_date_specified: bool,
    pub release_date_specified: bool,
    pub cve: String,
    pub product_statuses: Vec<ProductStatus>,
    pub threats: Vec<Threat>,
    pub cvss_score_sets: Vec<CvssScoreSet>,
    pub remediations: Vec<Remediation>,
    pub acknowledgments: Vec<Acknowledgment>,
    pub ordinal: String,
    pub revision_history: Vec<RevisionHistory>,
}

pub struct Note {
    pub title: String,
    pub type_field: i16,
    pub ordinal: String,
    pub value: Option<String>,
}

pub struct ProductStatus {
    pub product_id: Vec<String>,
    pub type_field: i16,
}

pub struct Threat {
    pub description: ValString,
    pub product_id: Option<Vec<String>>,
    pub type_field: i16,
    pub date_specified: bool,
}

/// A CVSS score record; both scores are in hundredths of a point.
pub struct CvssScoreSet {
    pub base_score: u32,
    pub temporal_score: u32,
    pub vector: String,
    pub product_id: Vec<String>,
}

pub struct Remediation {
    pub description: ValString,
    pub url: Option<String>,
    pub supercedence: Option<String>,
    pub product_id: Vec<String>,
    pub type_field: i16,
    pub date_specified: bool,
    pub affected_files: Vec<AffectedFile>,
    pub restart_required: Option<ValString>,
    pub sub_type: Option<String>,
    pub fixed_build: Option<String>,
}

pub struct AffectedFile {
    pub file_name: String,
    pub file_last_modified: String,
}

pub struct Acknowledgment {
    pub name: Vec<ValString>,
    pub url: Vec<String>,
}

} // verus!
