use vstd::prelude::*;

verus! {

/// A patient whose consultation an external system starts in the
/// application.
#[derive(Debug, Clone, PartialEq, Eq)]
pub struct PatientInfo {
    pub id_pi: String,
    pub na_pi: String,
    pub sd_sex_text: String,
    pub age_text: String,
    pub department: Option<String>,
    pub chief_complaint: Option<String>,
    pub mobile_phone: Option<String>,
    pub id_card: Option<String>,
    pub allergy_history: Option<String>,
}

/// The result of one finished consultation, handed back to the external
/// system.
#[derive(Debug, Clone, PartialEq, Eq)]
pub struct ConsultationResult {
    pub consultation_id: String,
    pub diagnosis: String,
    pub treatment_plan: String,
    pub medical_summary: String,
    pub timestamp: u64,
}

/// One risk flag shown for a patient; `level` 1 is the most severe of
/// the three levels.
#[derive(Debug, Clone, PartialEq, Eq)]
pub struct RiskItem {
    pub level: u8,
    pub category: String,
    pub content: String,
}

/// The risk flags an external system pushes for one patient.
#[derive(Debug, Clone, PartialEq, Eq)]
pub struct PatientRiskData {
    pub patient_id: String,
    pub patient_name: String,
    pub gender: String,
    pub age: u32,
    pub risks: Vec<RiskItem>,
}

} // verus!
