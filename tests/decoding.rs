use switchbot_th_exporter::decoder::{parse_service_data, SensorReading};
use switchbot_th_exporter::metrics::{calculate_discomfort_index, measure, DISCOMFORT_INDEX_SCALE};

#[test]
fn decodes_example_frame() {
    let r = parse_service_data(&[0x00, 0x00, 0x32, 0x03, 0x98, 0x28]);
    assert_eq!(r.battery, 50);
    assert_eq!(r.temperature_tenths, 243);
    assert_eq!(r.humidity, 40);
}

#[test]
fn decoding_is_deterministic() {
    let frame = [0x11, 0x22, 0x5a, 0x07, 0x9c, 0x37];
    assert_eq!(parse_service_data(&frame), parse_service_data(&frame.clone()));
}

#[test]
fn clear_sign_bit_gives_negative_temperature() {
    let r = parse_service_data(&[0x00, 0x00, 0x64, 0x07, 0x05, 0x30]);
    assert_eq!(r.temperature_tenths, -57);
}

#[test]
fn zero_magnitude_is_zero_under_either_sign() {
    let below = parse_service_data(&[0x00, 0x00, 0x64, 0x00, 0x00, 0x30]);
    let above = parse_service_data(&[0x00, 0x00, 0x64, 0x00, 0x80, 0x30]);
    assert_eq!(below.temperature_tenths, 0);
    assert_eq!(above.temperature_tenths, 0);
}

#[test]
fn high_bits_do_not_leak_into_battery_or_humidity() {
    let plain = parse_service_data(&[0x00, 0x00, 0x32, 0x03, 0x98, 0x28]);
    let flagged = parse_service_data(&[0xff, 0xff, 0xb2, 0xf3, 0x98, 0xa8]);
    assert_eq!(flagged.battery, plain.battery);
    assert_eq!(flagged.humidity, plain.humidity);
    assert_eq!(flagged.temperature_tenths, plain.temperature_tenths);
}

#[test]
fn out_of_range_percentages_pass_through() {
    let r = parse_service_data(&[0x00, 0x00, 0x7f, 0x0f, 0xff, 0xff]);
    assert_eq!(r, SensorReading { battery: 127, temperature_tenths: 1285, humidity: 127 });
}

#[test]
fn discomfort_index_at_25_degrees_and_50_percent() {
    let di = calculate_discomfort_index(250, 50);
    assert_eq!(di, 7_177_500);
    let as_float = di as f64 / DISCOMFORT_INDEX_SCALE as f64;
    let direct = 0.81 * 25.0 + 0.01 * 50.0 * (0.99 * 25.0 - 14.3) + 46.3;
    assert!((as_float - direct).abs() < 1e-9);
}

#[test]
fn discomfort_index_at_freezing_and_dry_air() {
    assert_eq!(calculate_discomfort_index(0, 0), 4_630_000);
}

#[test]
fn discomfort_index_below_freezing() {
    // T = -5.7, RH = 48: 0.81*T + 0.01*RH*(0.99*T - 14.3) + 46.3 = 32.11036
    assert_eq!(calculate_discomfort_index(-57, 48), 3_211_036);
}

#[test]
fn measure_combines_reading_and_index() {
    let s = measure(&[0x00, 0x00, 0x32, 0x03, 0x98, 0x28]);
    assert_eq!(s.reading.temperature_tenths, 243);
    assert_eq!(s.discomfort_index, calculate_discomfort_index(243, 40));
}
