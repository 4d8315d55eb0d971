use brasilapi::ibge::{Municipality, State, StateRegion};

fn sao_paulo() -> State {
    State::new(
        35,
        String::from("SP"),
        String::from("São Paulo"),
        StateRegion::new(3, String::from("SE"), String::from("Sudeste")),
    )
}

#[test]
fn a_municipality_gives_back_its_fields() {
    let municipality = Municipality::new(String::from("CAMPINAS"), String::from("3509502"));
    assert_eq!(municipality.get_name(), "CAMPINAS");
    assert_eq!(municipality.get_ibge_code(), "3509502");
}

#[test]
fn a_region_gives_back_its_fields() {
    let region = StateRegion::new(3, String::from("SE"), String::from("Sudeste"));
    assert_eq!(region.get_id(), 3);
    assert_eq!(region.get_sigla(), "SE");
    assert_eq!(region.get_name(), "Sudeste");
}

#[test]
fn a_state_gives_back_its_fields() {
    let state = sao_paulo();
    assert_eq!(state.get_id(), 35);
    assert_eq!(state.get_sigla(), "SP");
    assert_eq!(state.get_name(), "São Paulo");
    assert_eq!(state.get_region().get_id(), 3);
    assert_eq!(state.get_region().get_sigla(), "SE");
    assert_eq!(state.get_region().get_name(), "Sudeste");
}

#[test]
fn records_are_equal_by_value() {
    assert_eq!(sao_paulo(), sao_paulo());
    assert_eq!(
        Municipality::new(String::from("SANTOS"), String::from("3548500")),
        Municipality::new(String::from("SANTOS"), String::from("3548500"))
    );
}

#[test]
fn records_that_differ_in_one_field_are_not_equal() {
    let municipality = Municipality::new(String::from("SANTOS"), String::from("3548500"));
    assert_ne!(municipality, Municipality::new(String::from("SANTOS"), String::from("3548501")));
    assert_ne!(municipality, Municipality::new(String::from("Santos"), String::from("3548500")));
    let region = StateRegion::new(3, String::from("SE"), String::from("Sudeste"));
    assert_ne!(region, StateRegion::new(4, String::from("SE"), String::from("Sudeste")));
    assert_ne!(region, StateRegion::new(3, String::from("S"), String::from("Sudeste")));
    assert_ne!(region, StateRegion::new(3, String::from("SE"), String::from("Sul")));
    let state = sao_paulo();
    let other_region = StateRegion::new(4, String::from("S"), String::from("Sul"));
    assert_ne!(state, State::new(35, String::from("SP"), String::from("São Paulo"), other_region));
    assert_ne!(state, State::new(33, String::from("SP"), String::from("São Paulo"), region.clone()));
    assert_ne!(state, State::new(35, String::from("RJ"), String::from("São Paulo"), region.clone()));
    assert_ne!(state, State::new(35, String::from("SP"), String::from("Rio"), region));
}

#[test]
fn a_clone_is_equal_to_what_it_was_cloned_from() {
    let state = sao_paulo();
    assert_eq!(state.clone(), state);
    let municipality = Municipality::new(String::from("SANTOS"), String::from("3548500"));
    assert_eq!(municipality.clone(), municipality);
    let region = StateRegion::new(3, String::from("SE"), String::from("Sudeste"));
    assert_eq!(region.clone(), region);
}

#[test]
fn empty_fields_are_kept_as_they_are() {
    let municipality = Municipality::new(String::new(), String::new());
    assert_eq!(municipality.get_name(), "");
    assert_eq!(municipality.get_ibge_code(), "");
}
