use cotyledon::error::{CotyledonError, SignatureError};
use cotyledon::infra::{u64_from_be_bytes, u64_to_be_bytes, NatureApproved, Plot, SimpleDuration};
use cotyledon::plants::{lookup_plant, plant_types, CotyledonPlant, Plant};
use cotyledon::sow::{sow_plant, sow_plant_at};

fn plant(t: &str, at: u64) -> Plant {
    Plant { plant_type: t.to_string(), planted: SimpleDuration(at) }
}

fn garden(plants: Vec<Plant>) -> NatureApproved {
    NatureApproved { nature_approved: None, plot: Plot { plants } }
}

fn signed(plants: Vec<Plant>, secret: &str) -> NatureApproved {
    let mut g = garden(plants);
    g.sign(secret);
    g
}

fn signature_error(r: Result<(), CotyledonError>) -> Option<SignatureError> {
    match r {
        Err(CotyledonError::InvalidSignature(e)) => Some(e),
        _ => None,
    }
}

#[test]
fn signed_garden_verifies() {
    let g = signed(vec![plant("carrot", 10), plant("onion", 20)], "s1");
    assert!(g.is_honest("s1").is_ok());
    let empty = signed(vec![], "s1");
    assert!(empty.is_honest("s1").is_ok());
}

#[test]
fn changed_type_is_a_mismatch() {
    let mut g = signed(vec![plant("carrot", 10), plant("onion", 20)], "s1");
    g.get_mut_plot().get_mut_plants()[0].plant_type = "carrou".to_string();
    assert_eq!(signature_error(g.is_honest("s1")), Some(SignatureError::Mismatch));
}

#[test]
fn changed_time_is_a_mismatch() {
    let mut g = signed(vec![plant("carrot", 10), plant("onion", 20)], "s1");
    g.get_mut_plot().get_mut_plants()[1].planted = SimpleDuration(21);
    assert_eq!(signature_error(g.is_honest("s1")), Some(SignatureError::Mismatch));
}

#[test]
fn reordered_plants_are_a_mismatch() {
    let mut g = signed(vec![plant("carrot", 10), plant("onion", 20)], "s1");
    g.get_mut_plot().get_mut_plants().swap(0, 1);
    assert_eq!(signature_error(g.is_honest("s1")), Some(SignatureError::Mismatch));
}

#[test]
fn removed_plant_is_a_mismatch() {
    let mut g = signed(vec![plant("carrot", 10), plant("onion", 20)], "s1");
    g.get_mut_plot().get_mut_plants().pop();
    assert_eq!(signature_error(g.is_honest("s1")), Some(SignatureError::Mismatch));
}

#[test]
fn other_secret_is_a_mismatch() {
    let g = signed(vec![plant("carrot", 10)], "s1");
    assert_eq!(signature_error(g.is_honest("s2")), Some(SignatureError::Mismatch));
}

#[test]
fn missing_signature_is_not_found() {
    let g = garden(vec![plant("carrot", 10)]);
    assert_eq!(signature_error(g.is_honest("s1")), Some(SignatureError::NotFound));
}

#[test]
fn non_base64_signature_is_malformed() {
    let mut g = garden(vec![plant("carrot", 10)]);
    g.nature_approved = Some("not base64!".to_string());
    assert_eq!(signature_error(g.is_honest("s1")), Some(SignatureError::Malformed));
}

#[test]
fn short_signature_is_malformed() {
    let mut g = garden(vec![plant("carrot", 10)]);
    g.nature_approved = Some("AAAA".to_string());
    assert_eq!(signature_error(g.is_honest("s1")), Some(SignatureError::Malformed));
}

#[test]
fn signature_is_base64_of_eight_bytes() {
    let g = signed(vec![plant("carrot", 10)], "s1");
    let text = g.nature_approved.clone().unwrap();
    assert_eq!(text.len(), 12);
    assert!(text.ends_with('='));
    let h = g.get_plot_hash("s1");
    let bytes = u64_to_be_bytes(h);
    let mut forged = garden(vec![plant("carrot", 10)]);
    forged.nature_approved = Some(text);
    assert!(forged.is_honest("s1").is_ok());
    assert_eq!(u64_from_be_bytes(&bytes), h);
}

#[test]
fn plot_hash_is_deterministic_and_keyed() {
    let a = garden(vec![plant("carrot", 10)]);
    let b = garden(vec![plant("carrot", 10)]);
    assert_eq!(a.get_plot_hash("s1"), b.get_plot_hash("s1"));
    assert_ne!(a.get_plot_hash("s1"), a.get_plot_hash("s2"));
    assert_ne!(a.get_plot_hash("s1"), garden(vec![plant("carrot", 11)]).get_plot_hash("s1"));
}

#[test]
fn be_bytes_exact_value() {
    assert_eq!(u64_to_be_bytes(0x0102_0304_0506_0708), vec![1, 2, 3, 4, 5, 6, 7, 8]);
    assert_eq!(u64_from_be_bytes(&[0, 0, 0, 0, 0, 0, 1, 0]), 256);
}

#[test]
fn signature_integer_round_trips() {
    for x in [0u64, 1, 255, 256, 0xdead_beef, u64::MAX - 1, u64::MAX] {
        let bytes = u64_to_be_bytes(x);
        assert_eq!(bytes.len(), 8);
        assert_eq!(u64_from_be_bytes(&bytes), x);
    }
    assert_eq!(u64_to_be_bytes(0), vec![0; 8]);
    assert_eq!(u64_to_be_bytes(u64::MAX), vec![255; 8]);
}

#[test]
fn empty_plot_without_signature_is_sown() {
    let g = NatureApproved::new();
    let r = sow_plant_at(g, "potato".to_string(), "s1", 100).unwrap();
    assert_eq!(r.get_plot().get_plants().len(), 1);
    assert!(r.is_honest("s1").is_ok());
}

#[test]
fn empty_plot_with_bogus_signature_is_sown() {
    let mut g = NatureApproved::new();
    g.nature_approved = Some("bogus".to_string());
    let r = sow_plant_at(g, "onion".to_string(), "s1", 100).unwrap();
    assert_eq!(r.get_plot().get_plants().len(), 1);
    assert_eq!(r.get_plot().get_plants()[0].get_type(), "onion");
}

#[test]
fn unsigned_plot_is_refused_by_sow() {
    let g = garden(vec![plant("carrot", 10)]);
    match sow_plant_at(g, "carrot".to_string(), "s1", 100) {
        Err(CotyledonError::InvalidSignature(SignatureError::NotFound)) => {}
        _ => panic!("expected a missing signature"),
    }
}

#[test]
fn unknown_type_is_refused_by_sow() {
    match sow_plant_at(NatureApproved::new(), "tulip".to_string(), "s1", 100) {
        Err(CotyledonError::InvalidPlantType(m)) => {
            assert_eq!(m, "`tulip` is not a valid plant type")
        }
        _ => panic!("expected an invalid plant type"),
    }
}

#[test]
fn maturity_boundary() {
    let c = CotyledonPlant { grow_time: SimpleDuration(60) };
    assert!(!c.is_mature(SimpleDuration(60)));
    assert!(c.is_mature(SimpleDuration(61)));
    assert!(!c.is_mature(SimpleDuration(0)));
}

#[test]
fn ripeness_uses_the_catalog() {
    let p = plant("potato", 1000);
    let (d, m) = p.ripeness_at(1060).unwrap();
    assert_eq!(d.as_secs(), 60);
    assert!(!m);
    let (d, m) = p.ripeness_at(1061).unwrap();
    assert_eq!(d.as_secs(), 61);
    assert!(m);
    assert!(matches!(p.ripeness_at(999), Err(CotyledonError::InternalError(_))));
    assert!(matches!(plant("tulip", 0).ripeness_at(5), Err(CotyledonError::InternalError(_))));
}

#[test]
fn elapsed_at_counts_seconds() {
    let p = plant("carrot", 500);
    assert_eq!(p.elapsed_at(800).unwrap(), SimpleDuration(300));
    assert_eq!(p.elapsed_at(500).unwrap(), SimpleDuration(0));
    match p.elapsed_at(499) {
        Err(CotyledonError::InternalError(m)) => {
            assert_eq!(m, "The timestamp for this plant is in the future!")
        }
        _ => panic!("expected an internal error"),
    }
}

#[test]
fn elapsed_by_the_clock() {
    let p = Plant::new("carrot".to_string()).unwrap();
    assert!(p.elapsed().unwrap().as_secs() < 5);
    assert!(p.ripeness().is_ok());
}

#[test]
fn unknown_plant_type_is_invalid() {
    match Plant::new("unknown_type".to_string()) {
        Err(CotyledonError::InvalidPlantType(m)) => {
            assert_eq!(m, "`unknown_type` is not a valid plant type")
        }
        _ => panic!("expected an invalid plant type"),
    }
}

#[test]
fn carrot_is_planted_now() {
    let secs = || {
        std::time::SystemTime::now()
            .duration_since(std::time::UNIX_EPOCH)
            .unwrap()
            .as_secs()
    };
    let before = secs();
    let p = Plant::new("carrot".to_string()).unwrap();
    let after = secs();
    assert_eq!(p.get_type(), "carrot");
    assert!(before <= p.planted.as_secs() && p.planted.as_secs() <= after);
}

#[test]
fn new_at_records_the_time() {
    let p = Plant::new_at("onion".to_string(), 42).unwrap();
    assert_eq!(p.get_type(), "onion");
    assert_eq!(p.planted, SimpleDuration(42));
}

#[test]
fn catalog_lookup() {
    assert_eq!(lookup_plant("carrot").unwrap().grow_time, SimpleDuration(86_400));
    assert_eq!(lookup_plant("potato").unwrap().grow_time, SimpleDuration(60));
    assert_eq!(lookup_plant("onion").unwrap().grow_time, SimpleDuration(3_600));
    assert!(lookup_plant("Carrot").is_none());
    assert!(lookup_plant("").is_none());
    assert_eq!(plant_types(), vec!["carrot", "potato", "onion"]);
}

#[test]
fn error_messages() {
    assert_eq!(
        SignatureError::NotFound.message(),
        "Expected signature was missing. Do not modify or omit the `nature_approved` field."
    );
    assert_eq!(
        CotyledonError::InvalidPlantType("x".to_string()).message(),
        "Invalid plant type, 'x'"
    );
    assert_eq!(CotyledonError::InternalError("y".to_string()).message(), "InternalError, y");
    assert_eq!(
        CotyledonError::InvalidSignature(SignatureError::Mismatch).message(),
        SignatureError::Mismatch.message()
    );
}

#[test]
fn garden_scenario() {
    let first = sow_plant(NatureApproved::new(), "carrot".to_string(), "s1").unwrap();
    let sig1 = first.nature_approved.clone().unwrap();
    assert!(!sig1.is_empty());
    assert_eq!(first.get_plot().get_plants().len(), 1);
    assert_eq!(first.get_plot().get_plants()[0].get_type(), "carrot");

    let second = sow_plant(first.clone(), "carrot".to_string(), "s1").unwrap();
    assert_eq!(second.get_plot().get_plants().len(), 2);
    assert_ne!(second.nature_approved.clone().unwrap(), sig1);

    let mut tampered = first.clone();
    tampered.get_mut_plot().get_mut_plants()[0].plant_type = "darrot".to_string();
    match sow_plant(tampered, "carrot".to_string(), "s1") {
        Err(CotyledonError::InvalidSignature(SignatureError::Mismatch)) => {}
        _ => panic!("expected a mismatch"),
    }
}
