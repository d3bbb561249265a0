use embedded_hal::i2c::{ErrorKind, ErrorType, I2c, NoAcknowledgeSource, Operation};
use max30205::config::Update;
use max30205::temperature::Reading;
use max30205::{Step, Transaction, MAX30205};

/// A bus with at most one sensor on it. It keeps the address and the written
/// bytes of every transaction that was attempted.
struct Bus {
    sensor: Option<u8>,
    temp: [u8; 2],
    config: u8,
    thyst: u8,
    tos: u8,
    failing: Option<usize>,
    attempted: Vec<(u8, Vec<u8>)>,
}

impl Bus {
    fn with_sensor_at(address: u8) -> Bus {
        Bus {
            sensor: Some(address),
            temp: [0x19, 0x00],
            config: 0x6A,
            thyst: 0x4B,
            tos: 0x50,
            failing: None,
            attempted: Vec::new(),
        }
    }

    fn empty() -> Bus {
        Bus { sensor: None, ..Bus::with_sensor_at(0) }
    }
}

impl ErrorType for Bus {
    type Error = ErrorKind;
}

impl I2c for Bus {
    fn transaction(
        &mut self,
        address: u8,
        operations: &mut [Operation<'_>],
    ) -> Result<(), ErrorKind> {
        let number = self.attempted.len();
        let mut written = Vec::new();
        for operation in operations.iter() {
            if let Operation::Write(bytes) = operation {
                written.extend_from_slice(bytes);
            }
        }
        self.attempted.push((address, written.clone()));
        if self.failing == Some(number) {
            return Err(ErrorKind::Bus);
        }
        if self.sensor != Some(address) {
            return Err(ErrorKind::NoAcknowledge(NoAcknowledgeSource::Address));
        }
        if let Some(value) = written.get(1) {
            match written[0] {
                0x01 => self.config = *value,
                0x02 => self.thyst = *value,
                0x03 => self.tos = *value,
                _ => return Err(ErrorKind::NoAcknowledge(NoAcknowledgeSource::Data)),
            }
        }
        for operation in operations.iter_mut() {
            if let Operation::Read(buffer) = operation {
                let content: &[u8] = match written.first() {
                    Some(0x00) => &self.temp,
                    Some(0x01) => core::slice::from_ref(&self.config),
                    Some(0x02) => core::slice::from_ref(&self.thyst),
                    Some(0x03) => core::slice::from_ref(&self.tos),
                    _ => return Err(ErrorKind::Other),
                };
                if buffer.len() != content.len() {
                    return Err(ErrorKind::Overrun);
                }
                buffer.copy_from_slice(content);
            }
        }
        Ok(())
    }
}

fn perform<T: I2c, const N: usize>(
    i2c: &mut T,
    transaction: &Transaction,
) -> Result<[u8; N], T::Error> {
    let mut read = [0u8; N];
    match transaction {
        Transaction::Write { address, bytes } => i2c.write(*address, bytes)?,
        Transaction::WriteRead { address, bytes, count } => {
            i2c.write_read(*address, bytes, &mut read[..*count])?
        }
    }
    Ok(read)
}

fn scan<T: I2c>(i2c: &mut T) -> Option<u8> {
    let mut scan = MAX30205::scan();
    loop {
        let outcome = perform::<T, 0>(i2c, &scan.request()).map(|_| ());
        match scan.resume(outcome) {
            Step::Next(next) => scan = next,
            Step::Finish(found) => return found,
        }
    }
}

fn init<T: I2c>(addr: u8, i2c: &mut T) -> Result<MAX30205, T::Error> {
    let mut init = MAX30205::new(addr);
    loop {
        let outcome = perform::<T, 0>(i2c, &init.request()).map(|_| ());
        match init.resume(outcome) {
            Step::Next(next) => init = next,
            Step::Finish(result) => return result,
        }
    }
}

fn change<T: I2c>(i2c: &mut T, update: Update) -> Result<(), T::Error> {
    let outcome = perform(i2c, &update.request());
    match update.resume(outcome) {
        Step::Next(write_back) => {
            let outcome = perform::<T, 0>(i2c, &write_back.request()).map(|_| ());
            write_back.resume(outcome)
        }
        Step::Finish(result) => result,
    }
}

fn celsius<T: I2c>(i2c: &mut T, reading: Reading) -> Result<f64, T::Error> {
    let outcome = perform(i2c, &reading.request());
    reading.resume(outcome).map(|raw| raw as f64 * 0.00390625)
}

#[test]
fn hal_scan_where_only_the_second_address_acknowledges() {
    let mut bus = Bus::with_sensor_at(0x48);
    assert_eq!(scan(&mut bus), Some(0x48));
    assert_eq!(bus.attempted, vec![(0x49, vec![]), (0x48, vec![])]);
}

#[test]
fn hal_scan_where_the_first_address_acknowledges() {
    let mut bus = Bus::with_sensor_at(0x49);
    assert_eq!(scan(&mut bus), Some(0x49));
    assert_eq!(bus.attempted, vec![(0x49, vec![])]);
}

#[test]
fn hal_scan_where_nothing_acknowledges() {
    let mut bus = Bus::empty();
    assert_eq!(scan(&mut bus), None);
    assert_eq!(bus.attempted, vec![(0x49, vec![]), (0x48, vec![])]);
}

#[test]
fn hal_scan_swallows_any_error() {
    let mut bus = Bus::with_sensor_at(0x48);
    bus.failing = Some(0);
    assert_eq!(scan(&mut bus), Some(0x48));
    bus.attempted.clear();
    bus.failing = Some(1);
    assert_eq!(scan(&mut bus), None);
    assert_eq!(bus.attempted.len(), 2);
}

#[test]
fn hal_new_clears_configuration_and_thresholds() {
    let mut bus = Bus::with_sensor_at(0x48);
    assert!(init(0x48, &mut bus).is_ok());
    assert_eq!(
        bus.attempted,
        vec![(0x48, vec![0x01, 0x00]), (0x48, vec![0x02, 0x00]), (0x48, vec![0x03, 0x00])]
    );
    assert_eq!((bus.config, bus.thyst, bus.tos), (0x00, 0x00, 0x00));
}

#[test]
fn hal_new_gives_up_at_the_first_failure() {
    let mut bus = Bus::with_sensor_at(0x48);
    bus.failing = Some(1);
    assert_eq!(init(0x48, &mut bus), Err(ErrorKind::Bus));
    assert_eq!(bus.attempted, vec![(0x48, vec![0x01, 0x00]), (0x48, vec![0x02, 0x00])]);
    assert_eq!((bus.config, bus.thyst, bus.tos), (0x00, 0x4B, 0x50));
}

#[test]
fn hal_new_on_an_absent_sensor() {
    let mut bus = Bus::with_sensor_at(0x48);
    assert_eq!(
        init(0x49, &mut bus),
        Err(ErrorKind::NoAcknowledge(NoAcknowledgeSource::Address))
    );
    assert_eq!(bus.attempted, vec![(0x49, vec![0x01, 0x00])]);
}

#[test]
fn hal_power_modes() {
    let mut bus = Bus::with_sensor_at(0x49);
    let sensor = init(0x49, &mut bus).expect("the sensor is there");
    assert_eq!(change(&mut bus, sensor.power_down()), Ok(()));
    assert_eq!(bus.config, 0x01);
    assert_eq!(change(&mut bus, sensor.update_once()), Ok(()));
    assert_eq!(bus.config, 0x81);
    assert_eq!(change(&mut bus, sensor.power_up()), Ok(()));
    assert_eq!(bus.config, 0x80);
    assert_eq!(
        bus.attempted[3..],
        [
            (0x49, vec![0x01]),
            (0x49, vec![0x01, 0x01]),
            (0x49, vec![0x01]),
            (0x49, vec![0x01, 0x81]),
            (0x49, vec![0x01]),
            (0x49, vec![0x01, 0x80]),
        ]
    );
}

#[test]
fn hal_power_down_keeps_the_other_bits() {
    let mut bus = Bus::with_sensor_at(0x48);
    let sensor = init(0x48, &mut bus).expect("the sensor is there");
    bus.config = 0x6A;
    assert_eq!(change(&mut bus, sensor.power_down()), Ok(()));
    assert_eq!(bus.config, 0x6B);
    assert_eq!(change(&mut bus, sensor.power_up()), Ok(()));
    assert_eq!(bus.config, 0x6A);
}

#[test]
fn hal_a_failed_read_of_configuration_writes_nothing() {
    let mut bus = Bus::with_sensor_at(0x48);
    let sensor = init(0x48, &mut bus).expect("the sensor is there");
    bus.failing = Some(3);
    assert_eq!(change(&mut bus, sensor.power_down()), Err(ErrorKind::Bus));
    assert_eq!(bus.attempted.len(), 4);
    assert_eq!(bus.config, 0x00);
}

#[test]
fn hal_get_temperature_in_celsius() {
    let mut bus = Bus::with_sensor_at(0x48);
    let sensor = init(0x48, &mut bus).expect("the sensor is there");
    assert_eq!(celsius(&mut bus, sensor.get_temperature()), Ok(25.0));
    bus.temp = [0xE7, 0x00];
    assert_eq!(celsius(&mut bus, sensor.get_temperature()), Ok(-25.0));
    bus.temp = [0x25, 0x80];
    assert_eq!(celsius(&mut bus, sensor.get_temperature()), Ok(37.5));
    assert_eq!(bus.attempted[3..], [(0x48, vec![0x00]), (0x48, vec![0x00]), (0x48, vec![0x00])]);
}

#[test]
fn hal_get_temperature_hands_on_the_error() {
    let mut bus = Bus::with_sensor_at(0x48);
    let sensor = init(0x48, &mut bus).expect("the sensor is there");
    bus.sensor = None;
    assert_eq!(
        celsius(&mut bus, sensor.get_temperature()),
        Err(ErrorKind::NoAcknowledge(NoAcknowledgeSource::Address))
    );
}
