use battery_free_climat_sensor::data_handling::dynamic_labeled_readout::{
    DynamicLabeledReadout, SensorType,
};
use battery_free_climat_sensor::data_handling::labeled_readout::LabeledReadout;
use battery_free_climat_sensor::data_handling::static_leabeled_readout::{
    Barometer, Higrometer, Luxmeter, SensorId0, SensorId1, SensorId2, SensorId3, Thermometer,
    TypedLabelReadout, UnitScale1, UnitScale1_10, UnitScale1_100, UnitScale1_1000,
};
use battery_free_climat_sensor::le_bytes::{
    i16_from_le_bytes, u16_from_le_bytes, u32_from_le_bytes, u32_to_le_bytes,
};

#[test]
fn u32_le_bytes_roundtrip() {
    assert_eq!(u32_to_le_bytes(0x1234_5678), [0x78, 0x56, 0x34, 0x12]);
    assert_eq!(u32_from_le_bytes([0x78, 0x56, 0x34, 0x12]), 0x1234_5678);
    for v in [0u32, 1, 255, 256, 0xdead_beef, u32::MAX] {
        assert_eq!(u32_from_le_bytes(u32_to_le_bytes(v)), v);
    }
}

#[test]
fn u16_and_i16_le_bytes() {
    assert_eq!(u16_from_le_bytes([0x70, 0x6b]), 27504);
    assert_eq!(i16_from_le_bytes([0x43, 0x67]), 26435);
    assert_eq!(i16_from_le_bytes([0x18, 0xfc]), -1000);
    assert_eq!(i16_from_le_bytes([0x00, 0x80]), i16::MIN);
    assert_eq!(i16_from_le_bytes([0xff, 0xff]), -1);
}

#[test]
fn typed_readout_labels() {
    let r = TypedLabelReadout::<SensorId0, UnitScale1_100, Thermometer>::new(7);
    assert_eq!(r.get_label(), 0x20);
    let r = TypedLabelReadout::<SensorId0, UnitScale1_100, Higrometer>::new(7);
    assert_eq!(r.get_label(), 0x21);
    let r = TypedLabelReadout::<SensorId1, UnitScale1_1000, Thermometer>::new(7);
    assert_eq!(r.get_label(), 0x70);
    let r = TypedLabelReadout::<SensorId0, UnitScale1_1000, Barometer>::new(7);
    assert_eq!(r.get_label(), 0x32);
    let r = TypedLabelReadout::<SensorId3, UnitScale1, Luxmeter>::new(7);
    assert_eq!(r.get_label(), 0xc3);
    let r = TypedLabelReadout::<SensorId2, UnitScale1_10, Luxmeter>::new(7);
    assert_eq!(r.get_label(), 0x93);
}

#[test]
fn typed_readout_bytes() {
    let r = TypedLabelReadout::<SensorId1, UnitScale1_1000, Barometer>::new(101_325);
    assert_eq!(r.get_data(), 101_325);
    assert_eq!(r.get_bytes(), [0x72, 0xcd, 0x8b, 0x01, 0x00]);
}

#[test]
fn dynamic_readout_roundtrip() {
    let typed = TypedLabelReadout::<SensorId0, UnitScale1_100, Luxmeter>::new(0x0102_0304);
    let bytes = typed.get_bytes();
    let decoded = DynamicLabeledReadout::from_bytes(&bytes).unwrap();
    assert_eq!(decoded.get_label(), typed.get_label());
    assert_eq!(decoded.get_data(), 0x0102_0304);
    assert!(matches!(decoded.sensor_type(), SensorType::Luxmeter));
    assert_eq!(decoded.get_bytes(), bytes);
}

#[test]
fn dynamic_readout_id_and_scale_read_as_zero() {
    // The id and scale masks keep only the two lowest label bits before
    // shifting, so both always come out as zero.
    let typed = TypedLabelReadout::<SensorId3, UnitScale1_1000, Thermometer>::new(5);
    let decoded = DynamicLabeledReadout::from_bytes(&typed.get_bytes()).unwrap();
    assert_eq!(decoded.get_label(), 0xf0);
    assert_eq!(decoded.sensor_id(), 0);
    assert_eq!(decoded.unit_scale(), 0);
    assert!(matches!(decoded.sensor_type(), SensorType::Thermometer));
}

#[test]
fn dynamic_readout_rejects_short_input_and_unknown_types() {
    assert!(DynamicLabeledReadout::from_bytes(&[0x20, 1, 2, 3]).is_none());
    assert!(DynamicLabeledReadout::from_bytes(&[]).is_none());
    assert!(DynamicLabeledReadout::from_bytes(&[0x04, 1, 2, 3, 4]).is_none());
    assert!(DynamicLabeledReadout::new_labeled_data(0x2f, 9).is_none());
    let r = DynamicLabeledReadout::from_bytes(&[0x22, 1, 0, 0, 0, 99]).unwrap();
    assert_eq!(r.get_data(), 1);
    assert!(matches!(r.sensor_type(), SensorType::Barometer));
}

#[test]
fn sensor_type_bits() {
    for t in [SensorType::Thermometer, SensorType::Higrometer, SensorType::Barometer, SensorType::Luxmeter] {
        let bits = t.get_bits();
        let back = SensorType::from_bits(bits).unwrap();
        assert_eq!(back.get_bits(), bits);
    }
    assert_eq!(SensorType::Thermometer.get_bits(), 0);
    assert_eq!(SensorType::Higrometer.get_bits(), 1);
    assert_eq!(SensorType::Barometer.get_bits(), 2);
    assert_eq!(SensorType::Luxmeter.get_bits(), 3);
    assert!(SensorType::from_bits(4).is_none());
    assert!(SensorType::from_bits(255).is_none());
}
