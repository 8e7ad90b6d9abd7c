use orbit_engine::elements::parse;
use orbit_engine::elements::ElementSet;
use orbit_engine::model::ModelError;
use orbit_engine::model::ModelPrediction;
use orbit_engine::propagator::elapsed_minutes;
use orbit_engine::propagator::minutes_since_epoch;
use orbit_engine::propagator::outcome_of;
use orbit_engine::propagator::propagate;
use orbit_engine::propagator::Prediction;
use orbit_engine::propagator::PropagationConstants;
use orbit_engine::propagator::PropagationError;
use orbit_engine::scalar::Vector3;

const ISS_1: &str = "1 25544U 98067A   21245.53748218  .00003969  00000-0  81292-4 0  9995";
const ISS_2: &str = "2 25544  51.6442 320.2331 0003041 346.4163 145.5195 15.48587491300581";
const MOLNIYA_1: &str = "1 08195U 75081A   06176.33215444  .00000099  00000-0  11873-3 0   813";
const MOLNIYA_2: &str = "2 08195  64.1586 279.0717 6877146 264.7651  20.2257  2.00491383225656";
const DAY: i64 = 86_400_000;

fn station() -> (ElementSet, PropagationConstants) {
    let elements = parse(None, ISS_1.as_bytes(), ISS_2.as_bytes()).unwrap();
    let constants = orbit_engine::propagator::derive(&elements).unwrap();
    (elements, constants)
}

fn molniya() -> (ElementSet, PropagationConstants) {
    let elements = parse(None, MOLNIYA_1.as_bytes(), MOLNIYA_2.as_bytes()).unwrap();
    let constants = orbit_engine::propagator::derive(&elements).unwrap();
    (elements, constants)
}

fn after(
    elements: &ElementSet,
    constants: &PropagationConstants,
    elapsed_millis: i64,
) -> Result<Prediction, PropagationError> {
    propagate(constants, &elapsed_minutes(elements, elapsed_millis).unwrap())
}

fn floats(v: Vector3) -> [f64; 3] {
    [
        f64::from_bits(v.x.to_bits()),
        f64::from_bits(v.y.to_bits()),
        f64::from_bits(v.z.to_bits()),
    ]
}

fn norm(v: Vector3) -> f64 {
    let [x, y, z] = floats(v);
    (x * x + y * y + z * z).sqrt()
}

fn bits(v: [f64; 3]) -> [u64; 3] {
    [v[0].to_bits(), v[1].to_bits(), v[2].to_bits()]
}

fn model_at(line1: &str, line2: &str, minutes: f64) -> sgp4::Prediction {
    let elements = sgp4::Elements::from_tle(None, line1.as_bytes(), line2.as_bytes()).unwrap();
    let constants = sgp4::Constants::from_elements(&elements).unwrap();
    constants.propagate(sgp4::MinutesSinceEpoch(minutes)).unwrap()
}

#[test]
fn derive_accepts_the_station() {
    let elements = parse(None, ISS_1.as_bytes(), ISS_2.as_bytes()).unwrap();
    assert!(orbit_engine::propagator::derive(&elements).is_ok());
}

#[test]
fn derive_refuses_a_mean_motion_of_zero() {
    let line2 = "2 25544  51.6442 320.2331 0003041 346.4163 145.5195 00.00000000300589";
    let elements = parse(None, ISS_1.as_bytes(), line2.as_bytes()).unwrap();
    match orbit_engine::propagator::derive(&elements) {
        Ok(_) => panic!("constants were derived"),
        Err(e) => assert_eq!(e, ModelError::MeanMotionNotPositive),
    }
}

#[test]
fn derive_refuses_a_negative_eccentricity() {
    // The parser does not let such lines pass; the model's own does.
    let line2 = "2 25544  51.6442 320.2331 -003041 346.4163 145.5195 15.48587491300582";
    assert!(parse(None, ISS_1.as_bytes(), line2.as_bytes()).is_err());
    let read = sgp4::Elements::from_tle(None, ISS_1.as_bytes(), line2.as_bytes());
    let elements = ElementSet::from_model(None, read).unwrap();
    match orbit_engine::propagator::derive(&elements) {
        Ok(_) => panic!("constants were derived"),
        Err(e) => assert_eq!(e, ModelError::EccentricityOutOfRange),
    }
}

#[test]
fn station_at_epoch_is_in_low_orbit() {
    let (elements, constants) = station();
    let state = after(&elements, &constants, 0).unwrap();
    assert!(state.position.is_finite());
    assert!(state.velocity.is_finite());
    let radius = norm(state.position);
    assert!(6700.0 < radius && radius < 6900.0, "{radius}");
    let speed = norm(state.velocity);
    assert!(7.0 < speed && speed < 8.0, "{speed}");
}

#[test]
fn molniya_at_epoch_is_in_high_orbit() {
    let (elements, constants) = molniya();
    let state = after(&elements, &constants, 0).unwrap();
    let radius = norm(state.position);
    assert!(6800.0 < radius && radius < 47000.0, "{radius}");
}

#[test]
fn propagate_returns_what_the_model_computes() {
    let (elements, constants) = station();
    let state = after(&elements, &constants, 0).unwrap();
    let direct = model_at(ISS_1, ISS_2, 0.0);
    assert_eq!(floats(state.position), direct.position);
    assert_eq!(floats(state.velocity), direct.velocity);
}

#[test]
fn minutes_are_milliseconds_by_sixty_thousand() {
    let (elements, constants) = station();
    for (millis, minutes) in [
        (5_400_000i64, 90.0),
        (60_000, 1.0),
        (30_000, 0.5),
        (1, 1.0 / 60_000.0),
        (-60_000, -1.0),
        (-DAY, -1440.0),
        (365 * DAY, 525_600.0),
    ] {
        let state = after(&elements, &constants, millis).unwrap();
        let direct = model_at(ISS_1, ISS_2, minutes);
        assert_eq!(bits(floats(state.position)), bits(direct.position), "{millis}");
        assert_eq!(bits(floats(state.velocity)), bits(direct.velocity), "{millis}");
    }
}

#[test]
fn minutes_since_epoch_count_from_the_epoch() {
    let (elements, constants) = station();
    let epoch = elements.epoch_millis();
    let by_timestamp =
        propagate(&constants, &minutes_since_epoch(&elements, epoch + 5_400_000).unwrap());
    let by_elapsed = after(&elements, &constants, 5_400_000);
    assert_eq!(by_timestamp, by_elapsed);
    let before = propagate(&constants, &minutes_since_epoch(&elements, epoch - DAY).unwrap());
    assert_eq!(before, after(&elements, &constants, -DAY));
    assert_ne!(by_timestamp, before);
}

#[test]
fn minutes_since_epoch_of_a_time_too_far() {
    let (elements, _) = station();
    // More than 2^63 nanoseconds, about 292 years, from the epoch.
    assert!(elapsed_minutes(&elements, 107_000 * DAY).is_none());
    assert!(elapsed_minutes(&elements, -107_000 * DAY).is_none());
    assert!(elapsed_minutes(&elements, i64::MAX).is_none());
    assert!(elapsed_minutes(&elements, i64::MIN).is_none());
    assert!(elapsed_minutes(&elements, 106_000 * DAY).is_some());
}

#[test]
fn minutes_since_epoch_of_a_difference_that_overflows() {
    let (elements, _) = station();
    assert!(elements.epoch_millis() > 0);
    assert!(minutes_since_epoch(&elements, i64::MIN).is_none());
    assert!(minutes_since_epoch(&elements, i64::MIN + 1).is_none());
    assert!(minutes_since_epoch(&elements, i64::MAX).is_none());
}

#[test]
fn propagate_twice_is_bit_identical() {
    for (elements, constants) in [station(), molniya()] {
        for millis in [0, 1, 5_400_000, -5_400_000, 100 * DAY, 3000 * DAY] {
            let first = after(&elements, &constants, millis);
            let second = after(&elements, &constants, millis);
            assert_eq!(first, second);
            let other = orbit_engine::propagator::derive(&elements).unwrap();
            assert_eq!(after(&elements, &other, millis), first);
        }
    }
}

#[test]
fn propagate_in_any_order() {
    let (elements, constants) = molniya();
    let late = after(&elements, &constants, 100 * DAY);
    let early = after(&elements, &constants, DAY);
    let before = after(&elements, &constants, -30 * DAY);
    assert!(late.is_ok() && early.is_ok() && before.is_ok());
    assert_eq!(after(&elements, &constants, 100 * DAY), late);
    assert_eq!(after(&elements, &constants, -30 * DAY), before);
    assert_eq!(after(&elements, &constants, DAY), early);
    let direct = model_at(MOLNIYA_1, MOLNIYA_2, 1440.0);
    assert_eq!(floats(early.unwrap().position), direct.position);
}

#[test]
fn station_moves_in_ninety_minutes() {
    let (elements, constants) = station();
    let start = after(&elements, &constants, 0).unwrap();
    let later = after(&elements, &constants, 5_400_000).unwrap();
    let radius = norm(later.position);
    assert!(6700.0 < radius && radius < 6900.0, "{radius}");
    let [x0, y0, z0] = floats(start.position);
    let [x1, y1, z1] = floats(later.position);
    let moved = ((x1 - x0).powi(2) + (y1 - y0).powi(2) + (z1 - z0).powi(2)).sqrt();
    assert!(moved > 100.0, "{moved}");
}

#[test]
fn station_decays_in_the_far_future() {
    let (elements, constants) = station();
    for days in [20_000, 50_000, 100_000, 106_000] {
        assert_eq!(after(&elements, &constants, days * DAY), Err(PropagationError::Decayed));
    }
}

#[test]
fn station_below_the_surface_has_decayed() {
    let (elements, constants) = station();
    // The model still gives a position here, 3485 km from the centre of
    // the Earth.
    let direct = model_at(ISS_1, ISS_2, 10_000.0 * 1440.0);
    let [x, y, z] = direct.position;
    let radius = (x * x + y * y + z * z).sqrt();
    assert!(3000.0 < radius && radius < 4000.0, "{radius}");
    assert_eq!(after(&elements, &constants, 10_000 * DAY), Err(PropagationError::Decayed));
    assert_eq!(after(&elements, &constants, 5_000 * DAY), Err(PropagationError::Decayed));
}

#[test]
fn station_is_still_up_after_some_years() {
    let (elements, constants) = station();
    let state = after(&elements, &constants, 2_000 * DAY).unwrap();
    let radius = norm(state.position);
    assert!(6700.0 < radius && radius < 6800.0, "{radius}");
}

#[test]
fn molniya_decays_in_the_far_future() {
    let (elements, constants) = molniya();
    assert_eq!(after(&elements, &constants, 100_000 * DAY), Err(PropagationError::Decayed));
}

fn predicted(position: [f64; 3], velocity: [f64; 3]) -> ModelPrediction {
    ModelPrediction::Predicted { position: bits(position), velocity: bits(velocity) }
}

#[test]
fn outcome_of_a_sound_prediction() {
    let state = outcome_of(predicted([-4339.25, 3912.5, 3386.125], [-4.5, -5.5, 2.75])).unwrap();
    assert_eq!(floats(state.position), [-4339.25, 3912.5, 3386.125]);
    assert_eq!(floats(state.velocity), [-4.5, -5.5, 2.75]);
}

#[test]
fn outcome_of_a_prediction_with_a_nan() {
    for i in 0..3 {
        let mut position = [7000.0, 0.0, 0.0];
        position[i] = f64::NAN;
        assert_eq!(outcome_of(predicted(position, [0.0; 3])), Err(PropagationError::Numerical));
        let mut velocity = [0.0, 7.5, 0.0];
        velocity[i] = f64::NAN;
        assert_eq!(
            outcome_of(predicted([7000.0, 0.0, 0.0], velocity)),
            Err(PropagationError::Numerical)
        );
    }
}

#[test]
fn outcome_of_a_prediction_with_an_infinity() {
    assert_eq!(
        outcome_of(predicted([f64::INFINITY, 0.0, 0.0], [0.0; 3])),
        Err(PropagationError::Numerical)
    );
    assert_eq!(
        outcome_of(predicted([7000.0, 0.0, 0.0], [0.0, f64::NEG_INFINITY, 0.0])),
        Err(PropagationError::Numerical)
    );
}

#[test]
fn outcome_of_a_nan_below_the_surface_is_numerical() {
    assert_eq!(
        outcome_of(predicted([100.0, 0.0, 0.0], [f64::NAN, 0.0, 0.0])),
        Err(PropagationError::Numerical)
    );
}

#[test]
fn outcome_of_a_position_below_the_surface() {
    assert_eq!(
        outcome_of(predicted([3000.0, 1000.0, -1000.0], [1.0, 2.0, 3.0])),
        Err(PropagationError::Decayed)
    );
    assert_eq!(outcome_of(predicted([0.0; 3], [0.0; 3])), Err(PropagationError::Decayed));
    assert_eq!(
        outcome_of(predicted([6378.136, 0.0, 0.0], [0.0; 3])),
        Err(PropagationError::Decayed)
    );
    assert!(outcome_of(predicted([6378.138, 0.0, 0.0], [0.0; 3])).is_ok());
}

#[test]
fn outcome_of_the_model_refusals() {
    assert_eq!(
        outcome_of(ModelPrediction::EccentricityOutOfRange),
        Err(PropagationError::Decayed)
    );
    assert_eq!(
        outcome_of(ModelPrediction::PerturbedEccentricityOutOfRange),
        Err(PropagationError::Numerical)
    );
    assert_eq!(
        outcome_of(ModelPrediction::NegativeSemiLatusRectum),
        Err(PropagationError::Numerical)
    );
}
