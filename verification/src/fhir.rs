//! The clinical-observation record handed to the persistence collaborator.
//!
//! Each confirmed beat is forwarded as a FHIR-shaped observation.  The store
//! itself is consumed, not implemented, here; the library only builds the
//! record.  Instants are epoch milliseconds rendered as RFC 3339 strings; a
//! rate is a whole number of beats per minute.

use vstd::prelude::*;
use vstd::string::StringExecFns;

use crate::clock::MAX_RENDERABLE_MS;
use crate::clock::render_rfc3339;
use crate::clock::rfc3339_of;

verus! {

/// One stored heart-rate value with the instant it was taken.
#[derive(Clone, Copy, Debug)]
pub struct HeartRateRecord {
    pub value: i32,
    pub timestamp_ms: u64,
}

#[derive(Clone, Debug)]
pub struct FhirCoding {
    pub system: String,
    pub code: String,
    pub display: String,
}

#[derive(Clone, Debug)]
pub struct FhirCodeableConcept {
    pub coding: Vec<FhirCoding>,
    pub text: String,
}

#[derive(Clone, Debug)]
pub struct FhirReference {
    pub reference: String,
    pub display: Option<String>,
}

/// A measured quantity.  Heart rates are whole beats per minute, so the
/// value is kept as an integer.
#[derive(Clone, Debug)]
pub struct FhirQuantity {
    pub value: i32,
    pub unit: String,
    pub system: String,
    pub code: String,
}

#[derive(Clone, Debug)]
pub struct FhirObservation {
    pub resource_type: String,
    pub status: String,
    pub code: FhirCodeableConcept,
    pub subject: FhirReference,
    pub effective_date_time: String,
    pub value_quantity: FhirQuantity,
    pub device: Option<FhirReference>,
}

impl FhirObservation {
    /// Build the final heart-rate observation for one confirmed beat: the
    /// LOINC heart-rate coding, the subject derived from the user
    /// identifier, the effective instant rendered as RFC 3339, the rate in
    /// beats per minute, and the fixed device reference.
    pub fn new_heart_rate(bpm: i32, user_id: &str, effective_ms: u64) -> (o: FhirObservation)
        requires
            effective_ms < MAX_RENDERABLE_MS,
        ensures
            o.resource_type@ == "Observation"@,
            o.status@ == "final"@,
            o.code.text@ == "Heart rate"@,
            o.code.coding@.len() == 1,
            o.code.coding@[0].system@ == "http://loinc.org"@,
            o.code.coding@[0].code@ == "8867-4"@,
            o.code.coding@[0].display@ == "Heart rate"@,
            o.subject.reference@ == "Patient/"@ + user_id@,
            o.subject.display matches Some(d) && d@ == "Student User"@,
            o.effective_date_time@ == rfc3339_of(effective_ms),
            o.value_quantity.value == bpm,
            o.value_quantity.unit@ == "beats/minute"@,
            o.value_quantity.system@ == "http://unitsofmeasure.org"@,
            o.value_quantity.code@ == "/min"@,
            o.device matches Some(d) && d.reference@ == "Device/arduino-uno-r3"@ && (d.display
                matches Some(n) && n@ == "Arduino Heart Rate Sensor"@),
    {
        let mut coding: Vec<FhirCoding> = Vec::new();
        coding.push(FhirCoding {
            system: String::from_str("http://loinc.org"),
            code: String::from_str("8867-4"),
            display: String::from_str("Heart rate"),
        });
        let mut subject_ref = String::from_str("Patient/");
        subject_ref.append(user_id);
        FhirObservation {
            resource_type: String::from_str("Observation"),
            status: String::from_str("final"),
            code: FhirCodeableConcept { coding, text: String::from_str("Heart rate") },
            subject: FhirReference {
                reference: subject_ref,
                display: Some(String::from_str("Student User")),
            },
            effective_date_time: render_rfc3339(effective_ms),
            value_quantity: FhirQuantity {
                value: bpm,
                unit: String::from_str("beats/minute"),
                system: String::from_str("http://unitsofmeasure.org"),
                code: String::from_str("/min"),
            },
            device: Some(FhirReference {
                reference: String::from_str("Device/arduino-uno-r3"),
                display: Some(String::from_str("Arduino Heart Rate Sensor")),
            }),
        }
    }
}

} // verus!
