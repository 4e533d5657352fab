use duplosentido::mappings::TemperatureState;

#[test]
fn same_unit_conversions_are_identity() {
    assert_eq!(
        TemperatureState::Celsius(5).as_celcius(),
        TemperatureState::Celsius(5)
    );
    assert_eq!(
        TemperatureState::Fahrenheit(50).as_fahrenheit(),
        TemperatureState::Fahrenheit(50)
    );
    assert_eq!(
        TemperatureState::Kelvin(300).as_kelvin(),
        TemperatureState::Kelvin(300)
    );
}

#[test]
fn celsius_to_fahrenheit_truncates() {
    assert_eq!(
        TemperatureState::Celsius(100).as_fahrenheit(),
        TemperatureState::Fahrenheit(212)
    );
    assert_eq!(
        TemperatureState::Celsius(1).as_fahrenheit(),
        TemperatureState::Fahrenheit(33) // 33.8 °F truncated.
    );
    assert_eq!(
        TemperatureState::Celsius(0).as_fahrenheit(),
        TemperatureState::Fahrenheit(32)
    );
    assert_eq!(
        TemperatureState::Celsius(124).as_fahrenheit(),
        TemperatureState::Fahrenheit(255)
    );
}

#[test]
fn negative_celsius_clamps_to_freezing_fahrenheit() {
    assert_eq!(
        TemperatureState::Celsius(-10).as_fahrenheit(),
        TemperatureState::Fahrenheit(32)
    );
    assert_eq!(
        TemperatureState::Celsius(-128).as_fahrenheit(),
        TemperatureState::Fahrenheit(32)
    );
}

#[test]
fn fahrenheit_to_celsius_truncates() {
    assert_eq!(
        TemperatureState::Fahrenheit(212).as_celcius(),
        TemperatureState::Celsius(100)
    );
    assert_eq!(
        TemperatureState::Fahrenheit(32).as_celcius(),
        TemperatureState::Celsius(0)
    );
    assert_eq!(
        TemperatureState::Fahrenheit(100).as_celcius(),
        TemperatureState::Celsius(37) // 37.77 °C truncated.
    );
    assert_eq!(
        TemperatureState::Fahrenheit(255).as_celcius(),
        TemperatureState::Celsius(123)
    );
}

#[test]
fn kelvin_to_celsius_subtracts_273() {
    assert_eq!(
        TemperatureState::Kelvin(293).as_celcius(),
        TemperatureState::Celsius(20)
    );
    assert_eq!(
        TemperatureState::Kelvin(273).as_celcius(),
        TemperatureState::Celsius(0)
    );
}

#[test]
fn kelvin_far_above_celsius_range_wraps_into_the_byte() {
    // 500 K is 227 degrees above 273 K; 227 wraps to -29 in a signed byte.
    assert_eq!(
        TemperatureState::Kelvin(500).as_celcius(),
        TemperatureState::Celsius(-29)
    );
}

#[test]
fn celsius_to_kelvin_adds_273() {
    assert_eq!(
        TemperatureState::Celsius(20).as_kelvin(),
        TemperatureState::Kelvin(293)
    );
    assert_eq!(
        TemperatureState::Celsius(-40).as_kelvin(),
        TemperatureState::Kelvin(233)
    );
    assert_eq!(
        TemperatureState::Celsius(-128).as_kelvin(),
        TemperatureState::Kelvin(145)
    );
}

#[test]
fn fahrenheit_to_kelvin_truncates_then_adds_273() {
    assert_eq!(
        TemperatureState::Fahrenheit(212).as_kelvin(),
        TemperatureState::Kelvin(373)
    );
    assert_eq!(
        TemperatureState::Fahrenheit(33).as_kelvin(),
        TemperatureState::Kelvin(273) // 0.55 °C truncated to 0 °C.
    );
}

#[test]
fn kelvin_to_fahrenheit_truncates() {
    assert_eq!(
        TemperatureState::Kelvin(300).as_fahrenheit(),
        TemperatureState::Fahrenheit(80) // 26.85 °C exact is 80.6 °F; 27 °C truncated is 80 °F.
    );
    assert_eq!(
        TemperatureState::Kelvin(397).as_fahrenheit(),
        TemperatureState::Fahrenheit(255)
    );
    assert_eq!(
        TemperatureState::Kelvin(273).as_fahrenheit(),
        TemperatureState::Fahrenheit(32)
    );
}

#[test]
fn round_trips_are_lossy_by_truncation() {
    // 1 °C becomes 33 °F, which converts back to 0 °C: the documented
    // truncation makes cross-unit round trips inexact.
    let back = TemperatureState::Celsius(1).as_fahrenheit().as_celcius();
    assert_eq!(back, TemperatureState::Celsius(0));
}
