use sylva_agent::collector::{
    fix_of_reading, CollectError, FakeLocationCollector, FixStage, LocationCollector, LocationFix,
    Reading, ServiceAnswer, WindowsLocationCollector,
};

fn collected(answer: ServiceAnswer) -> Result<LocationFix, CollectError> {
    WindowsLocationCollector { answer }.collect()
}

#[test]
fn the_fake_collector_gives_its_fix() {
    let fix = LocationFix {
        latitude: 35.594566f64.to_bits(),
        longitude: (-77.408395f64).to_bits(),
        accuracy_m: 27.0f64.to_bits(),
    };
    let collector = FakeLocationCollector { fix };
    assert_eq!(collector.collect().unwrap(), fix);
    assert_eq!(f64::from_bits(collector.collect().unwrap().longitude), -77.408395);
}

#[test]
fn off_windows_nothing_is_collected() {
    let error = collected(ServiceAnswer::NoService).unwrap_err();
    assert!(matches!(error, CollectError::Unsupported));
    assert_eq!(error.cause(), None);
    assert_eq!(error.message(), "location collection is only implemented on Windows");
}

#[test]
fn a_reading_becomes_a_fix() {
    let reading = Reading {
        latitude: 1.5f64.to_bits(),
        longitude: 2.5f64.to_bits(),
        accuracy_m: Some(3.5f64.to_bits()),
    };
    let fix = collected(ServiceAnswer::Read(reading)).unwrap();
    assert_eq!(fix, fix_of_reading(reading));
    assert_eq!(f64::from_bits(fix.latitude), 1.5);
    assert_eq!(f64::from_bits(fix.longitude), 2.5);
    assert_eq!(f64::from_bits(fix.accuracy_m), 3.5);
}

#[test]
fn a_reading_without_accuracy_has_an_unknown_one() {
    let reading = Reading { latitude: 0, longitude: 0, accuracy_m: None };
    assert!(f64::from_bits(fix_of_reading(reading).accuracy_m).is_nan());
}

#[test]
fn a_failed_call_is_named() {
    let texts = [
        (FixStage::CreateLocator, "create Geolocator", "create Geolocator"),
        (FixStage::RequestPosition, "GetGeopositionAsync", "GetGeopositionAsync (call)"),
        (
            FixStage::AwaitFix,
            "awaiting a location fix (lfsvc off / no sensor?)",
            "awaiting a fix — location off, no consent, or no sensor in this context?",
        ),
        (FixStage::Coordinate, "Coordinate", "Coordinate"),
        (FixStage::Point, "Point", "Point"),
        (FixStage::Position, "Position", "Position"),
    ];
    for (stage, collector, probe) in texts {
        let cause = "0x80070422".to_string();
        let error = collected(ServiceAnswer::Failed { stage, cause }).unwrap_err();
        assert!(matches!(&error, CollectError::Failed { stage: at, .. } if *at == stage));
        assert_eq!(error.cause(), Some("0x80070422".to_string()));
        assert_eq!(error.message(), collector);
        assert_eq!(stage.context(), collector);
        assert_eq!(stage.probe_context(), probe);
    }
}

#[test]
fn fixes_are_equal_where_their_numbers_are() {
    let numbers = [
        0.0f64, -0.0, 1.0, -1.0, 35.594566, f64::MIN_POSITIVE, 5e-324, -5e-324, f64::MAX, f64::MIN,
        f64::INFINITY, f64::NEG_INFINITY, f64::NAN, -f64::NAN, f64::from_bits(0x7ff0_0000_0000_0001),
    ];
    let fix = |a: f64, b: f64, c: f64| LocationFix {
        latitude: a.to_bits(),
        longitude: b.to_bits(),
        accuracy_m: c.to_bits(),
    };
    for a in numbers {
        for b in numbers {
            assert_eq!(fix(a, 1.0, 2.0) == fix(b, 1.0, 2.0), a == b);
            assert_eq!(fix(1.0, a, 2.0) == fix(1.0, b, 2.0), a == b);
            assert_eq!(fix(1.0, 2.0, a) == fix(1.0, 2.0, b), a == b);
        }
    }
}
