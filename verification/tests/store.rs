use kongregator::reading::Reading;
use kongregator::store::ReadingStore;

fn sample(co2: i64) -> Reading {
    Reading {
        wifi: -60,
        co2,
        pm25: 10,
        temperature_bits: 22.5f64.to_bits(),
        humidity: 40,
    }
}

#[test]
fn default_reading_is_all_zero() {
    let reading = Reading::default();
    assert_eq!(reading.wifi, 0);
    assert_eq!(reading.co2, 0);
    assert_eq!(reading.pm25, 0);
    assert_eq!(reading.humidity, 0);
    assert_eq!(f64::from_bits(reading.temperature_bits), 0.0);
    assert_eq!(reading.temperature_bits, 0);
}

#[test]
fn new_store_holds_zero_reading_and_threshold() {
    let store = ReadingStore::new(1000);
    assert_eq!(store.get_current(), Reading::default());
    assert_eq!(store.threshold(), 1000);
}

#[test]
fn replace_current_installs_the_whole_reading() {
    let mut store = ReadingStore::new(1000);
    let reading = sample(1200);
    let threshold = store.replace_current(reading);
    assert_eq!(threshold, 1000);
    let current = store.get_current();
    assert_eq!(current, reading);
    assert_eq!(current.wifi, -60);
    assert_eq!(current.co2, 1200);
    assert_eq!(current.pm25, 10);
    assert_eq!(f64::from_bits(current.temperature_bits), 22.5);
    assert_eq!(current.humidity, 40);
}

#[test]
fn get_current_after_each_installation_is_that_reading() {
    let readings = vec![
        Reading { wifi: -1, co2: 400, pm25: 1, temperature_bits: 18.0f64.to_bits(), humidity: 30 },
        Reading { wifi: -2, co2: 800, pm25: 2, temperature_bits: 19.5f64.to_bits(), humidity: 35 },
        Reading { wifi: -3, co2: 1600, pm25: 3, temperature_bits: (-4.25f64).to_bits(), humidity: 90 },
        Reading { wifi: 0, co2: 0, pm25: 0, temperature_bits: 0, humidity: 0 },
        Reading { wifi: i64::MIN, co2: i64::MAX, pm25: -7, temperature_bits: u64::MAX, humidity: 100 },
    ];
    let mut store = ReadingStore::new(700);
    for reading in &readings {
        let threshold = store.replace_current(*reading);
        assert_eq!(threshold, 700);
        assert_eq!(store.get_current(), *reading);
        assert_eq!(store.threshold(), 700);
    }
    assert_eq!(store.get_current(), readings[4]);
}

#[test]
fn no_field_of_an_older_reading_is_left() {
    let mut store = ReadingStore::new(0);
    store.replace_current(Reading {
        wifi: 11,
        co2: 22,
        pm25: 33,
        temperature_bits: 44.0f64.to_bits(),
        humidity: 55,
    });
    let newer = Reading { wifi: 0, co2: 0, pm25: 0, temperature_bits: 0, humidity: 0 };
    store.replace_current(newer);
    assert_eq!(store.get_current(), newer);
}

#[test]
fn set_threshold_accepts_any_value_and_keeps_the_reading() {
    let mut store = ReadingStore::new(1000);
    let reading = sample(900);
    store.replace_current(reading);
    store.set_threshold(0);
    assert_eq!(store.threshold(), 0);
    assert_eq!(store.get_current(), reading);
    store.set_threshold(u64::MAX);
    assert_eq!(store.threshold(), u64::MAX);
    assert_eq!(store.get_current(), reading);
}

#[test]
fn replace_current_returns_the_threshold_set_last() {
    let mut store = ReadingStore::new(1000);
    assert_eq!(store.replace_current(sample(1)), 1000);
    store.set_threshold(1500);
    assert_eq!(store.replace_current(sample(2)), 1500);
    store.set_threshold(3);
    store.set_threshold(4);
    assert_eq!(store.replace_current(sample(3)), 4);
}

#[test]
fn two_racing_ingestions_leave_one_whole_reading() {
    let first = Reading { wifi: -10, co2: 500, pm25: 5, temperature_bits: 20.0f64.to_bits(), humidity: 45 };
    let second = Reading { wifi: -90, co2: 2500, pm25: 75, temperature_bits: 31.5f64.to_bits(), humidity: 80 };

    let mut store = ReadingStore::new(1000);
    store.replace_current(first);
    store.replace_current(second);
    let after = store.get_current();
    assert!(after == first || after == second);
    assert_eq!(after, second);

    let mut store = ReadingStore::new(1000);
    store.replace_current(second);
    store.replace_current(first);
    let after = store.get_current();
    assert!(after == first || after == second);
    assert_eq!(after, first);
}
