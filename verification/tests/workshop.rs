use moto_tuning::service::{add_upgrade, get_motorcycle, remove_upgrade};
use moto_tuning::{Motorcycle, Quantity, Registry, Response, Upgrade};

fn quantity(value: f32) -> Quantity {
    Quantity { bits: value.to_bits() }
}

fn number(quantity: Quantity) -> f32 {
    f32::from_bits(quantity.bits)
}

fn upgrade(name: &str, cost: f32, hp_gain: f32, weight_reduction: f32) -> Upgrade {
    Upgrade {
        name: name.to_string(),
        manufacturer: "Acme".to_string(),
        stage: 2,
        cost: quantity(cost),
        hp_gain: quantity(hp_gain),
        weight_reduction: quantity(weight_reduction),
        installation_time: quantity(3.0),
    }
}

fn workshop() -> Registry {
    let mut registry = Registry::new();
    registry.insert(
        "r1".to_string(),
        Motorcycle::new("Roadster".to_string(), 100, quantity(200.0)),
    );
    registry.insert(
        "t7".to_string(),
        Motorcycle::new("Tourer".to_string(), 80, quantity(250.0)),
    );
    registry
}

fn record_of(response: Response) -> Motorcycle {
    match response {
        Response::Success(record) => record,
        other => panic!("no record in {:?}", other),
    }
}

#[test]
fn unknown_identifier_is_not_found_and_creates_nothing() {
    let registry = Registry::new();
    let response = get_motorcycle(&registry, "ghost");
    assert!(matches!(response, Response::NotFound));
    assert_eq!(response.status_code(), 404);
    assert_eq!(registry.len(), 0);
    assert!(!registry.contains("ghost"));

    let registry = workshop();
    assert!(matches!(get_motorcycle(&registry, "ghost"), Response::NotFound));
    assert_eq!(registry.len(), 2);
    assert!(!registry.contains("ghost"));
    assert!(registry.get("ghost").is_none());
}

#[test]
fn known_identifier_gives_the_record() {
    let registry = workshop();
    let response = get_motorcycle(&registry, "t7");
    assert_eq!(response.status_code(), 200);
    let record = record_of(response);
    assert_eq!(record.model(), "Tourer");
    assert_eq!(record.base_hp(), 80);
    assert_eq!(number(record.weight_kg()), 250.0);
    assert!(record.upgrades().is_empty());
    assert_eq!(number(record.total_cost()), 0.0);
    assert_eq!(number(record.performance_index()), 32.0);
    assert_eq!(&record, registry.get("t7").unwrap());
}

#[test]
fn fitting_an_upgrade_updates_the_stored_record() {
    let mut registry = workshop();
    let response = add_upgrade(&mut registry, "r1", upgrade("exhaust", 500.0, 15.0, 2.0));
    assert_eq!(response.status_code(), 200);
    let record = record_of(response);
    assert_eq!(number(record.total_cost()), 500.0);
    assert_eq!(
        record.performance_index().bits,
        ((115.0f32 / 198.0f32) * 100.0f32).to_bits()
    );
    assert_eq!(registry.get("r1").unwrap(), &record);
    assert_eq!(registry.len(), 2);
    assert!(registry.get("t7").unwrap().upgrades().is_empty());

    let again = record_of(get_motorcycle(&registry, "r1"));
    assert_eq!(again, record);
}

#[test]
fn fitting_to_an_unknown_identifier_is_not_found() {
    let mut registry = workshop();
    let response = add_upgrade(&mut registry, "ghost", upgrade("exhaust", 500.0, 15.0, 2.0));
    assert!(matches!(response, Response::NotFound));
    assert_eq!(response.status_code(), 404);
    assert_eq!(registry.len(), 2);
    assert!(registry.get("r1").unwrap().upgrades().is_empty());
    assert!(registry.get("t7").unwrap().upgrades().is_empty());
}

#[test]
fn fitting_to_a_full_record_is_a_bad_request() {
    let mut registry = workshop();
    for i in 0..10 {
        let name = format!("part{}", i);
        let response = add_upgrade(&mut registry, "r1", upgrade(&name, 10.0, 1.0, 0.5));
        assert_eq!(response.status_code(), 200);
    }
    let before = registry.get("r1").unwrap().clone();
    let response = add_upgrade(&mut registry, "r1", upgrade("more", 10.0, 1.0, 0.5));
    assert_eq!(response.status_code(), 400);
    match response {
        Response::BadRequest(text) => assert_eq!(text, "Maximum upgrades reached"),
        other => panic!("unexpected {:?}", other),
    }
    assert_eq!(registry.get("r1").unwrap(), &before);
    assert_eq!(registry.get("r1").unwrap().upgrades().len(), 10);
}

#[test]
fn taking_an_upgrade_off_updates_the_stored_record() {
    let mut registry = workshop();
    add_upgrade(&mut registry, "r1", upgrade("exhaust", 500.0, 15.0, 2.0));
    add_upgrade(&mut registry, "r1", upgrade("chip", 300.0, 10.0, 0.0));
    let response = remove_upgrade(&mut registry, "r1", "exhaust");
    assert_eq!(response.status_code(), 200);
    let record = record_of(response);
    assert_eq!(number(record.total_cost()), 300.0);
    assert_eq!(number(record.performance_index()), 55.0);
    assert_eq!(registry.get("r1").unwrap(), &record);
}

#[test]
fn taking_off_an_unknown_upgrade_is_a_bad_request() {
    let mut registry = workshop();
    add_upgrade(&mut registry, "r1", upgrade("exhaust", 500.0, 15.0, 2.0));
    let before = registry.get("r1").unwrap().clone();
    let response = remove_upgrade(&mut registry, "r1", "nonexistent");
    assert_eq!(response.status_code(), 400);
    match response {
        Response::BadRequest(text) => assert_eq!(text, "Upgrade not found"),
        other => panic!("unexpected {:?}", other),
    }
    assert_eq!(registry.get("r1").unwrap(), &before);
}

#[test]
fn taking_off_from_an_unknown_identifier_is_not_found() {
    let mut registry = workshop();
    let response = remove_upgrade(&mut registry, "ghost", "exhaust");
    assert!(matches!(response, Response::NotFound));
    assert_eq!(registry.len(), 2);
}

#[test]
fn records_under_different_identifiers_do_not_touch_each_other() {
    let mut registry = workshop();
    add_upgrade(&mut registry, "r1", upgrade("exhaust", 500.0, 15.0, 2.0));
    add_upgrade(&mut registry, "t7", upgrade("chip", 300.0, 10.0, 0.0));
    let roadster = registry.get("r1").unwrap();
    let tourer = registry.get("t7").unwrap();
    assert_eq!(roadster.upgrades().len(), 1);
    assert_eq!(roadster.upgrades()[0].name, "exhaust");
    assert_eq!(tourer.upgrades().len(), 1);
    assert_eq!(tourer.upgrades()[0].name, "chip");
    assert_eq!(number(tourer.total_cost()), 300.0);
    assert_eq!(number(tourer.performance_index()), 36.0);
}

#[test]
fn inserting_under_a_used_identifier_replaces_the_record() {
    let mut registry = workshop();
    registry.insert(
        "r1".to_string(),
        Motorcycle::new("Scrambler".to_string(), 60, quantity(150.0)),
    );
    assert_eq!(registry.len(), 2);
    assert!(registry.contains("r1"));
    assert_eq!(registry.get("r1").unwrap().model(), "Scrambler");
    assert_eq!(number(registry.get("r1").unwrap().performance_index()), 40.0);
}
