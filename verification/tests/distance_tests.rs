use touch_panel::distance::{sensor_address, DistanceMeasurement, ADDRESS_DEFAULT, SIZE};

fn measurement() -> DistanceMeasurement<u8> {
    DistanceMeasurement::new([0, 1, 2, 3, 4, 5, 6, 7])
}

#[test]
fn read_milli_takes_off_the_offset() {
    let d = measurement();
    let offsets = [10u16, 13, 6, 3, 6, 13, 16, 16];
    for i in 0..SIZE {
        assert_eq!(d.read_milli(i, 500), Ok(500 - offsets[i]));
    }
}

#[test]
fn read_milli_never_goes_below_zero() {
    let d = measurement();
    assert_eq!(d.read_milli(0, 4), Ok(0));
    assert_eq!(d.read_milli(6, 16), Ok(0));
    assert_eq!(d.read_milli(6, 17), Ok(1));
    assert_eq!(d.read_milli(3, 0), Ok(0));
}

#[test]
fn read_milli_rejects_a_ninth_sensor() {
    let d = measurement();
    assert_eq!(d.read_milli(8, 100), Err(()));
    assert_eq!(d.read_milli(usize::MAX, 100), Err(()));
    assert_eq!(d.read_section(8, 100), Err(()));
}

#[test]
fn read_section_boundaries() {
    let d = measurement();
    // sensor 3 has an offset of 3 millimetres
    assert_eq!(d.read_section(3, 123), Ok(Some(0)));
    assert_eq!(d.read_section(3, 124), Ok(Some(1)));
    assert_eq!(d.read_section(3, 215), Ok(Some(1)));
    assert_eq!(d.read_section(3, 216), Ok(Some(2)));
    assert_eq!(d.read_section(3, 333), Ok(Some(2)));
    assert_eq!(d.read_section(3, 334), Ok(None));
    assert_eq!(d.read_section(3, u16::MAX), Ok(None));
}

#[test]
fn fresh_measurement_presses_nothing() {
    let d = measurement();
    assert_eq!(d.get_cached_buttons(), [false; 17]);
}

#[test]
fn update_then_buttons() {
    let mut d = measurement();
    assert_eq!(d.update_read_all(&[0, 150, 300, 300, 300, 400, 300, 5]), Ok(()));
    let b = d.get_cached_buttons();
    let mut expected = [false; 17];
    expected[0] = true; // sensor 0 low
    expected[7] = true; // sensor 7 low
    expected[9] = true; // sensor 1 in the second section
    expected[16] = true; // sensors 3 and 4 count for the middle
    assert_eq!(b, expected);
}

#[test]
fn middle_needs_two_counting_sensors() {
    let mut d = measurement();
    // sensors 2 and 6 do not count, sensor 3 alone is not enough
    d.update_read_all(&[1000, 1000, 300, 300, 1000, 1000, 300, 1000]).unwrap();
    assert_eq!(d.get_cached_buttons(), [false; 17]);
    d.update_read_all(&[1000, 1000, 300, 300, 1000, 1000, 300, 300]).unwrap();
    let b = d.get_cached_buttons();
    assert!(b[16]);
    assert_eq!(b.iter().filter(|x| **x).count(), 1);
}

#[test]
fn update_replaces_earlier_readings() {
    let mut d = measurement();
    d.update_read_all(&[50; 8]).unwrap();
    assert_eq!(d.get_cached_buttons()[..8], [true; 8]);
    d.update_read_all(&[200; 8]).unwrap();
    let b = d.get_cached_buttons();
    assert_eq!(b[..8], [false; 8]);
    assert_eq!(b[8..16], [true; 8]);
    assert!(!b[16]);
}

#[test]
fn sensor_addresses() {
    assert_eq!(sensor_address(0), ADDRESS_DEFAULT + 10);
    assert_eq!(sensor_address(7), 0x29 + 17);
}

#[test]
fn sensors_are_handed_out_by_index() {
    let mut d = measurement();
    assert_eq!(*d.sensor_mut(5), 5);
    *d.sensor_mut(5) = 50;
    assert_eq!(*d.sensor_mut(5), 50);
}
