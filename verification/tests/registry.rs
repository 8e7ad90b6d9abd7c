use orbit_engine::elements::parse;
use orbit_engine::elements::ElementSet;
use orbit_engine::frame::create_vector_array;
use orbit_engine::frame::from_render_frame;
use orbit_engine::frame::to_render_frame;
use orbit_engine::propagator::PropagationError;
use orbit_engine::registry::Registry;
use orbit_engine::registry::RegistryError;
use orbit_engine::registry::SatelliteState;
use orbit_engine::scalar::Scalar;
use orbit_engine::scalar::Vector3;

const ISS_1: &str = "1 25544U 98067A   21245.53748218  .00003969  00000-0  81292-4 0  9995";
const ISS_2: &str = "2 25544  51.6442 320.2331 0003041 346.4163 145.5195 15.48587491300581";
const OLD_1: &str = "1 25544U 98067A   20194.88612269 -.00002218  00000-0 -31515-4 0  9992";
const OLD_2: &str = "2 25544  51.6461 221.2784 0001413  89.1723 280.4612 15.49507896236008";
const AT_REST_2: &str = "2 25544  51.6442 320.2331 0003041 346.4163 145.5195 00.00000000300589";
const ISS_EPOCH: i64 = 1_630_587_238_460;
const OLD_EPOCH: i64 = 1_594_588_561_000;
const DAY: i64 = 86_400_000;

fn station() -> ElementSet {
    parse(Some("ISS (ZARYA)".to_string()), ISS_1.as_bytes(), ISS_2.as_bytes()).unwrap()
}

fn older_station() -> ElementSet {
    parse(None, OLD_1.as_bytes(), OLD_2.as_bytes()).unwrap()
}

fn registry_with_station() -> Registry {
    let mut registry = Registry::new();
    registry.register(0, station()).unwrap();
    registry
}

fn marked() -> Vector3 {
    Vector3::new(
        Scalar::from_bits(11.0f64.to_bits()),
        Scalar::from_bits(22.0f64.to_bits()),
        Scalar::from_bits(f64::NAN.to_bits()),
    )
}

fn floats(v: Vector3) -> [f64; 3] {
    [
        f64::from_bits(v.x.to_bits()),
        f64::from_bits(v.y.to_bits()),
        f64::from_bits(v.z.to_bits()),
    ]
}

fn norm(v: Vector3) -> f64 {
    let [x, y, z] = floats(v);
    (x * x + y * y + z * z).sqrt()
}

#[test]
fn new_registry_is_empty() {
    let registry = Registry::new();
    assert_eq!(registry.len(), 0);
    assert!(!registry.contains(0));
    assert_eq!(registry.epoch_millis(0), None);
}

#[test]
fn register_keeps_the_object() {
    let mut registry = Registry::new();
    assert_eq!(registry.register(7, station()), Ok(()));
    assert!(registry.contains(7));
    assert!(!registry.contains(0));
    assert_eq!(registry.len(), 1);
    assert_eq!(registry.epoch_millis(7), Some(ISS_EPOCH));
}

#[test]
fn register_keeps_objects_apart() {
    let mut registry = Registry::new();
    registry.register(1, station()).unwrap();
    registry.register(2, older_station()).unwrap();
    assert_eq!(registry.len(), 2);
    assert_eq!(registry.epoch_millis(1), Some(ISS_EPOCH));
    assert_eq!(registry.epoch_millis(2), Some(OLD_EPOCH));
    let first = registry.predict(1, ISS_EPOCH).unwrap();
    let second = registry.predict(2, ISS_EPOCH).unwrap();
    assert_ne!(first, second);
}

#[test]
fn register_refuses_a_duplicate() {
    let mut registry = registry_with_station();
    let before = registry.predict(0, ISS_EPOCH);
    assert_eq!(registry.register(0, older_station()), Err(RegistryError::DuplicateId));
    assert_eq!(registry.len(), 1);
    assert_eq!(registry.epoch_millis(0), Some(ISS_EPOCH));
    assert_eq!(registry.predict(0, ISS_EPOCH), before);
}

#[test]
fn register_refuses_elements_without_constants() {
    let mut registry = registry_with_station();
    let elements = parse(None, ISS_1.as_bytes(), AT_REST_2.as_bytes()).unwrap();
    assert_eq!(registry.register(1, elements), Err(RegistryError::InvalidElements));
    assert!(!registry.contains(1));
    assert_eq!(registry.len(), 1);
}

#[test]
fn register_reports_the_duplicate_first() {
    let mut registry = registry_with_station();
    let elements = parse(None, ISS_1.as_bytes(), AT_REST_2.as_bytes()).unwrap();
    assert_eq!(registry.register(0, elements), Err(RegistryError::DuplicateId));
    assert_eq!(registry.epoch_millis(0), Some(ISS_EPOCH));
}

#[test]
fn query_of_an_unknown_id() {
    let registry = registry_with_station();
    let mut out = marked();
    assert_eq!(registry.query(1, ISS_EPOCH, &mut out), Err(RegistryError::UnknownId));
    assert_eq!(out, marked());
    let empty = Registry::new();
    assert_eq!(empty.query(0, ISS_EPOCH, &mut out), Err(RegistryError::UnknownId));
    assert_eq!(out, marked());
    assert_eq!(empty.predict(0, ISS_EPOCH), Err(RegistryError::UnknownId));
}

#[test]
fn query_one_orbit_after_the_epoch() {
    let registry = registry_with_station();
    let epoch_millis = registry.epoch_millis(0).unwrap();
    let mut at_epoch = create_vector_array();
    let mut later = create_vector_array();
    assert_eq!(registry.query(0, epoch_millis, &mut at_epoch), Ok(()));
    assert_eq!(registry.query(0, epoch_millis + 5_400_000, &mut later), Ok(()));
    let radius = norm(later);
    assert!(6700.0 < radius && radius < 6900.0, "{radius}");
    let [x0, y0, z0] = floats(at_epoch);
    let [x1, y1, z1] = floats(later);
    let moved = ((x1 - x0).powi(2) + (y1 - y0).powi(2) + (z1 - z0).powi(2)).sqrt();
    assert!(moved > 100.0, "{moved}");
    assert!(moved < 2.0 * 6900.0, "{moved}");
}

#[test]
fn query_writes_the_render_frame() {
    let registry = registry_with_station();
    let mut out = marked();
    registry.query(0, ISS_EPOCH + 60_000, &mut out).unwrap();
    let state = registry.predict(0, ISS_EPOCH + 60_000).unwrap();
    assert_eq!(out, to_render_frame(state.position));
    assert_eq!(from_render_frame(out), state.position);
    let [x, y, z] = floats(state.position);
    assert_eq!(floats(out), [-y, z, -x]);
}

#[test]
fn query_is_what_the_model_computes() {
    let registry = registry_with_station();
    let mut out = create_vector_array();
    registry.query(0, ISS_EPOCH + 5_400_000, &mut out).unwrap();
    let elements = sgp4::Elements::from_tle(None, ISS_1.as_bytes(), ISS_2.as_bytes()).unwrap();
    let constants = sgp4::Constants::from_elements(&elements).unwrap();
    let direct = constants.propagate(sgp4::MinutesSinceEpoch(90.0)).unwrap();
    assert_eq!(floats(out), [-direct.position[1], direct.position[2], -direct.position[0]]);
}

#[test]
fn query_before_the_epoch() {
    let registry = registry_with_station();
    let mut out = create_vector_array();
    assert_eq!(registry.query(0, ISS_EPOCH - DAY, &mut out), Ok(()));
    let radius = norm(out);
    assert!(6700.0 < radius && radius < 6900.0, "{radius}");
}

#[test]
fn query_of_a_decayed_object_leaves_the_buffer() {
    let registry = registry_with_station();
    let mut out = marked();
    assert_eq!(
        registry.query(0, ISS_EPOCH + 20_000 * DAY, &mut out),
        Err(RegistryError::Propagation(PropagationError::Decayed))
    );
    assert_eq!(out, marked());
    assert_eq!(
        registry.query(0, ISS_EPOCH + 10_000 * DAY, &mut out),
        Err(RegistryError::Propagation(PropagationError::Decayed))
    );
    assert_eq!(out, marked());
}

#[test]
fn query_of_a_time_out_of_reach_leaves_the_buffer() {
    let registry = registry_with_station();
    let mut out = marked();
    for timestamp in [i64::MIN, i64::MAX, ISS_EPOCH + 107_000 * DAY] {
        assert_eq!(
            registry.query(0, timestamp, &mut out),
            Err(RegistryError::Propagation(PropagationError::Numerical))
        );
        assert_eq!(out, marked());
    }
}

#[test]
fn query_twice_is_bit_identical() {
    let registry = registry_with_station();
    let mut first = create_vector_array();
    let mut second = marked();
    registry.query(0, ISS_EPOCH + 12_345, &mut first).unwrap();
    registry.query(0, ISS_EPOCH + 5 * DAY, &mut second).unwrap();
    registry.query(0, ISS_EPOCH + 12_345, &mut second).unwrap();
    assert_eq!(first, second);
}

#[test]
fn query_changes_nothing_in_the_registry() {
    let registry = registry_with_station();
    let mut out = create_vector_array();
    let _ = registry.query(0, ISS_EPOCH + 20_000 * DAY, &mut out);
    let _ = registry.query(9, ISS_EPOCH, &mut out);
    assert_eq!(registry.len(), 1);
    assert_eq!(registry.epoch_millis(0), Some(ISS_EPOCH));
    assert!(registry.query(0, ISS_EPOCH, &mut out).is_ok());
}

#[test]
fn satellite_state_keeps_elements_and_constants() {
    let state = SatelliteState::new(station()).unwrap();
    assert_eq!(state.elements().epoch_millis(), ISS_EPOCH);
    assert_eq!(state.elements().name(), &Some("ISS (ZARYA)".to_string()));
    let direct = sgp4::Constants::from_elements(state.elements().fields()).unwrap();
    let at_epoch = state.predict(ISS_EPOCH).unwrap();
    let expected = direct.propagate(sgp4::MinutesSinceEpoch(0.0)).unwrap();
    assert_eq!(floats(at_epoch.position), expected.position);
    assert_eq!(floats(at_epoch.velocity), expected.velocity);
}

#[test]
fn satellite_state_of_elements_without_constants() {
    let elements = parse(None, ISS_1.as_bytes(), AT_REST_2.as_bytes()).unwrap();
    assert!(SatelliteState::new(elements).is_err());
}

#[test]
fn satellite_state_far_from_its_epoch() {
    let state = SatelliteState::new(station()).unwrap();
    assert_eq!(state.predict(i64::MIN), Err(PropagationError::Numerical));
    assert_eq!(state.predict(ISS_EPOCH + 50_000 * DAY), Err(PropagationError::Decayed));
}
