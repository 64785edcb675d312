use drogue_device::buffer::ByteBuf;
use drogue_device::model::sensor::{
    lookup_cadence_descriptor, lookup_descriptor, lookup_setting_descriptor, CadenceDescriptor, CadenceSet, ColumnGet,
    DescriptorGet, DescriptorStatus, PropertyId, SamplingFunction, SensorDescriptor, SensorGet, SeriesGet,
    SettingDescriptor, SettingGet, SettingSet, StatusTriggerType, Tolerance,
};
use drogue_device::pdu::ParseError;

fn descriptors() -> Vec<SensorDescriptor> {
    let mut temperature = SensorDescriptor::new(PropertyId(0x004F), 1);
    temperature.x_size = 2;
    vec![SensorDescriptor::new(PropertyId(0x0042), 2), temperature]
}

#[test]
fn descriptor_is_written_with_its_tolerances_and_periods() {
    let d = SensorDescriptor {
        id: PropertyId(0x1234),
        positive_tolerance: Tolerance(0x0ABC),
        negative_tolerance: Tolerance(0x0DEF),
        sampling_function: SamplingFunction::ArithmeticMean,
        measurement_period: Some(10),
        update_interval: None,
        size: 2,
        x_size: 0,
    };
    let mut buf = ByteBuf::new(16);
    d.emit_parameters(88, 99, &mut buf).unwrap();
    assert_eq!(buf.as_slice(), &[0x34, 0x12, 0xBC, 0xA0 | 0xEF, 0x0D, 0x02, 88, 0]);
}

#[test]
fn descriptor_status_writes_each_descriptor() {
    let status = DescriptorStatus::Descriptors(descriptors());
    let mut buf = ByteBuf::new(32);
    status.emit_parameters(&[(0, 0), (0, 0)], &mut buf).unwrap();
    assert_eq!(buf.as_slice().len(), 16);
    assert_eq!(&buf.as_slice()[..2], &[0x42, 0x00]);
    let missing = DescriptorStatus::NotFound(PropertyId(0x0099));
    let mut buf = ByteBuf::new(32);
    missing.emit_parameters(&[], &mut buf).unwrap();
    assert_eq!(buf.as_slice(), &[0x99, 0x00]);
}

#[test]
fn lookups_find_the_first_match() {
    let ds = descriptors();
    assert_eq!(lookup_descriptor(&ds, PropertyId(0x004F)).unwrap().size, 1);
    assert!(lookup_descriptor(&ds, PropertyId(0x0001)).is_none());
    let cds = [CadenceDescriptor { id: PropertyId(1), size: 1 }, CadenceDescriptor { id: PropertyId(1), size: 2 }];
    assert_eq!(lookup_cadence_descriptor(&cds, PropertyId(1)).unwrap().size, 1);
    let sds = [SettingDescriptor { sensor: PropertyId(1), setting: PropertyId(2), size: 3 }];
    assert!(lookup_setting_descriptor(&sds, PropertyId(1), PropertyId(2)).is_some());
    assert!(lookup_setting_descriptor(&sds, PropertyId(2), PropertyId(1)).is_none());
}

#[test]
fn get_requests_name_a_property_or_none() {
    assert_eq!(DescriptorGet::parse(&[]), Ok(DescriptorGet { id: None }));
    assert_eq!(SensorGet::parse(&[0x4F, 0x00]), Ok(SensorGet { id: Some(PropertyId(0x004F)) }));
    assert_eq!(SensorGet::parse(&[0x4F]), Err(ParseError::InvalidLength));
}

#[test]
fn column_get_reads_a_raw_value_of_the_descriptor_size() {
    let ds = descriptors();
    let c = ColumnGet::parse(&ds, &[0x4F, 0x00, 0x10, 0x20, 0x30]).ok().unwrap();
    assert_eq!(c.id, PropertyId(0x004F));
    assert_eq!(c.x.0, vec![0x10, 0x20]);
    assert!(matches!(ColumnGet::parse(&ds, &[0x01, 0x00]), Err(ParseError::InvalidValue)));
}

#[test]
fn series_get_reads_two_raw_values_or_none() {
    let ds = descriptors();
    let g = SeriesGet::parse(&ds, &[0x4F, 0x00, 1, 2, 3, 4]).ok().unwrap();
    match g.x {
        Some((a, b)) => {
            assert_eq!(a.0, vec![1, 2]);
            assert_eq!(b.0, vec![3, 4]);
        }
        None => panic!("no range"),
    }
    assert!(SeriesGet::parse(&ds, &[0x4F, 0x00]).ok().unwrap().x.is_none());
}

#[test]
fn cadence_set_is_read_with_its_divisor_mask() {
    let cds = [CadenceDescriptor { id: PropertyId(0x004F), size: 1 }];
    let bytes = [0x4F, 0x00, 0xFF, 0x01, 0x02, 0x0A, 0x03, 0x04];
    let c = CadenceSet::parse(&cds, &bytes).ok().unwrap();
    assert_eq!(c.fast_cadence_divisor, 0x7B);
    assert_eq!(c.status_trigger_type, StatusTriggerType::Unitless);
    assert_eq!(c.status_trigger_delta_down.0, vec![0x01]);
    assert_eq!(c.status_trigger_delta_up.0, vec![0x02]);
    assert_eq!(c.status_min_interval, 0x0A);
    assert_eq!(c.fast_cadence_low.0, vec![0x03]);
    assert_eq!(c.fast_cadence_high.0, vec![0x04]);
    let mut buf = ByteBuf::new(16);
    c.emit_parameters(&mut buf).unwrap();
    assert_eq!(buf.as_slice(), &[0x4F, 0x00, 0xF7, 0x01, 0x02, 0x0A, 0x03, 0x04]);
}

#[test]
fn settings_are_read() {
    assert_eq!(SettingGet::parse(&[1, 0, 2, 0]), Ok(SettingGet { id: PropertyId(1), setting: PropertyId(2) }));
    assert_eq!(SettingGet::parse(&[1, 0, 2]), Err(ParseError::InvalidLength));
    let sds = [SettingDescriptor { sensor: PropertyId(1), setting: PropertyId(2), size: 2 }];
    let s = SettingSet::parse(&sds, &[1, 0, 2, 0, 7, 8]).ok().unwrap();
    assert_eq!(s.raw.0, vec![7, 8]);
    assert!(matches!(SettingSet::parse(&sds, &[1, 0, 3, 0]), Err(ParseError::InvalidValue)));
}

#[test]
fn sensor_requests_written_are_read_back() {
    let get = SensorGet { id: Some(PropertyId(0xBEEF)) };
    let mut buf = ByteBuf::new(8);
    get.emit_parameters(&mut buf).unwrap();
    assert_eq!(buf.as_slice(), &[0xEF, 0xBE]);
    assert_eq!(SensorGet::parse(buf.as_slice()), Ok(get));
    let all = DescriptorGet { id: None };
    let mut buf = ByteBuf::new(8);
    all.emit_parameters(&mut buf).unwrap();
    assert_eq!(DescriptorGet::parse(buf.as_slice()), Ok(all));
    let setting = SettingGet { id: PropertyId(0x0042), setting: PropertyId(0x1234) };
    let mut buf = ByteBuf::new(8);
    setting.emit_parameters(&mut buf).unwrap();
    assert_eq!(buf.as_slice(), &[0x42, 0x00, 0x34, 0x12]);
    assert_eq!(SettingGet::parse(buf.as_slice()), Ok(setting));
}
