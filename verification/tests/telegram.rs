use dsmr_bridge::error::DecodeError;
use dsmr_bridge::telegram::{can_decode, decode_readout, READOUT_LEN};

const ISK: &str = "/ISK5\\2M550E-1012\r\n\r\n1-3:0.2.8(50)\r\n0-0:1.0.0(190320181403W)\r\n0-0:96.1.1(4530303433303037303532383730333138)\r\n1-0:1.8.1(000576.239*kWh)\r\n1-0:1.8.2(000465.162*kWh)\r\n1-0:2.8.1(000000.000*kWh)\r\n1-0:2.8.2(000000.000*kWh)\r\n0-0:96.14.0(0002)\r\n1-0:1.7.0(00.193*kW)\r\n1-0:2.7.0(00.000*kW)\r\n0-0:96.7.21(00009)\r\n0-0:96.7.9(00008)\r\n1-0:99.97.0(6)(0-0:96.7.19)(190201235231W)(0000003231*s)(190212214204W)(0000001489*s)(190212215426W)(0000000315*s)(190310230314W)(0000000295*s)(190316085447W)(0000000230*s)(190316123141W)(0000000516*s)\r\n1-0:32.32.0(00006)\r\n1-0:32.36.0(00001)\r\n0-0:96.13.0()\r\n1-0:32.7.0(236.1*V)\r\n1-0:31.7.0(001*A)\r\n1-0:21.7.0(00.193*kW)\r\n1-0:22.7.0(00.000*kW)\r\n0-1:24.1.0(003)\r\n0-1:96.1.0(4730303332353635353335353230313137)\r\n0-1:24.2.1(190320181003W)(00304.089*m3)\r\n!67B1\r\n\r\n";

fn readout(text: &[u8]) -> [u8; READOUT_LEN] {
    let mut buffer = [0u8; READOUT_LEN];
    buffer[..text.len()].copy_from_slice(text);
    buffer
}

fn checksum(data: &[u8]) -> u16 {
    let mut crc: u16 = 0;
    for byte in data {
        crc ^= *byte as u16;
        for _ in 0..8 {
            crc = if crc & 1 == 1 { (crc >> 1) ^ 0xA001 } else { crc >> 1 };
        }
    }
    crc
}

fn telegram(objects: &str) -> Vec<u8> {
    let mut text = format!("/ISK5\\2M550E-1012\r\n\r\n{}!", objects).into_bytes();
    let sum = format!("{:04X}\r\n", checksum(&text));
    text.extend_from_slice(sum.as_bytes());
    text
}

#[test]
fn the_checksum_helper_agrees_with_the_meter() {
    let end = ISK.find('!').unwrap() + 1;
    assert_eq!(checksum(ISK[..end].as_bytes()), 0x67B1);
}

#[test]
fn a_meter_telegram_decodes() {
    let buffer = readout(ISK.as_bytes());
    assert!(can_decode(&buffer));
    let state = decode_readout(&buffer).unwrap();
    let time = state.datetime.as_ref().unwrap();
    assert_eq!((time.year, time.month, time.day), (19, 3, 20));
    assert_eq!((time.hour, time.minute, time.second, time.dst), (18, 14, 3, false));
    assert_eq!(state.meterreadings[0].to, Some(576.239));
    assert_eq!(state.meterreadings[1].to, Some(465.162));
    assert_eq!(state.tariff_indicator, Some([0, 2]));
    assert_eq!(state.power_delivered, Some(0.193));
    assert_eq!(state.power_failures, Some(9));
    assert_eq!(state.long_power_failures, Some(8));
    assert_eq!(state.lines[0].voltage, Some(236.1));
    assert_eq!(state.slaves[0].device_type, Some(3));
    assert_eq!(state.slaves[0].meter_reading.as_ref().unwrap().1, 304.089);
}

#[test]
fn a_built_telegram_decodes() {
    let buffer = readout(&telegram("0-0:96.7.21(00012)\r\n"));
    assert!(can_decode(&buffer));
    let state = decode_readout(&buffer).unwrap();
    assert_eq!(state.power_failures, Some(12));
    assert_eq!(state.datetime, None);
}

#[test]
fn a_wrong_checksum_is_reported() {
    let text = ISK.replace("!67B1", "!67B2");
    let buffer = readout(text.as_bytes());
    assert!(can_decode(&buffer));
    assert_eq!(decode_readout(&buffer).err(), Some(DecodeError::InvalidChecksum));
}

#[test]
fn an_unknown_object_is_reported() {
    let buffer = readout(&telegram("9-9:9.9.9(1)\r\n"));
    assert_eq!(decode_readout(&buffer).err(), Some(DecodeError::UnknownObis));
}

#[test]
fn a_malformed_object_is_reported() {
    let buffer = readout(&telegram("0-0:96.7.21(abcde)\r\n"));
    assert_eq!(decode_readout(&buffer).err(), Some(DecodeError::InvalidFormat));
}

#[test]
fn an_empty_readout_is_no_telegram() {
    let buffer = [0u8; READOUT_LEN];
    assert!(can_decode(&buffer));
    assert_eq!(decode_readout(&buffer).err(), Some(DecodeError::InvalidFormat));
}

#[test]
fn text_that_is_not_ascii_is_refused() {
    let buffer = readout(&telegram("0-0:1.0.0(19032018140\u{e9}W)\r\n"));
    assert!(!can_decode(&buffer));
    assert_eq!(decode_readout(&buffer).err(), Some(DecodeError::InvalidFormat));
    let mut last = [0u8; READOUT_LEN];
    last[READOUT_LEN - 1] = 0x80;
    assert!(!can_decode(&last));
    last[READOUT_LEN - 1] = 0x7f;
    assert!(can_decode(&last));
}

#[test]
fn a_slave_reading_with_a_far_decimal_point_is_refused() {
    let buffer = readout(&telegram("0-1:24.2.1(190320181003W)(0000000304.089*m3)\r\n"));
    assert!(!can_decode(&buffer));
    assert_eq!(decode_readout(&buffer).err(), Some(DecodeError::InvalidFormat));
}

#[test]
fn a_slave_reading_with_the_point_in_reach_is_left_to_the_decoder() {
    let one_decimal = readout(&telegram("0-1:24.2.1(190320181003W)(0000304.0*m3)\r\n"));
    assert!(can_decode(&one_decimal));
    let state = decode_readout(&one_decimal).unwrap();
    assert_eq!(state.slaves[0].meter_reading.as_ref().unwrap().1, 304.0);
    let no_decimal = readout(&telegram("0-1:24.2.1(190320181003W)(00000304.0*m3)\r\n"));
    assert!(can_decode(&no_decimal));
    assert_eq!(decode_readout(&no_decimal).err(), Some(DecodeError::InvalidFormat));
    let far = readout(&telegram("0-1:24.2.1(190320181003W)(000000304.0*m3)\r\n"));
    assert!(!can_decode(&far));
    assert_eq!(decode_readout(&far).err(), Some(DecodeError::InvalidFormat));
}

#[test]
fn a_slave_reading_without_a_value_is_left_to_the_decoder() {
    let buffer = readout(&telegram("0-1:24.2.1(190320181003W)\r\n"));
    assert!(can_decode(&buffer));
    assert_eq!(decode_readout(&buffer).err(), Some(DecodeError::InvalidFormat));
    let at_the_end = {
        let mut b = [0x20u8; READOUT_LEN];
        b[READOUT_LEN - 7..].copy_from_slice(b"24.2.1(");
        b
    };
    assert!(can_decode(&at_the_end));
}

struct Dice(u64);

impl Dice {
    fn roll(&mut self, sides: usize) -> usize {
        self.0 = self.0.wrapping_mul(6364136223846793005).wrapping_add(1442695040888963407);
        ((self.0 >> 33) as usize) % sides
    }
}

const REFERENCES: [&str; 14] = [
    "1-3:0.2.8",
    "0-0:1.0.0",
    "0-0:96.1.1",
    "1-0:1.8.1",
    "0-0:96.14.0",
    "1-0:1.7.0",
    "0-0:96.7.21",
    "1-0:32.7.0",
    "0-1:24.1.0",
    "0-2:96.1.0",
    "0-1:24.2.1",
    "0-4:24.2.1",
    "0-5:24.2.1",
    "0-124.2.1",
];

const ALPHABET: &[u8] = b"0123456789012345678900..()()WS*m+-: ";

fn random_line(dice: &mut Dice) -> String {
    let mut line = String::from(REFERENCES[dice.roll(REFERENCES.len())]);
    if dice.roll(8) == 0 {
        line.truncate(dice.roll(11));
    }
    for _ in 0..1 + dice.roll(3) {
        line.push('(');
        if dice.roll(3) == 0 {
            line.push_str("190320181003W");
        }
        for _ in 0..dice.roll(16) {
            line.push(ALPHABET[dice.roll(ALPHABET.len())] as char);
        }
        if dice.roll(6) != 0 {
            line.push(')');
        }
    }
    line
}

#[test]
fn every_readout_that_passes_the_test_is_decoded_or_refused() {
    let mut dice = Dice(2024);
    let mut passed = 0;
    let mut decoded = 0;
    for _ in 0..4000 {
        let mut objects = String::new();
        for _ in 0..1 + dice.roll(3) {
            objects.push_str(&random_line(&mut dice));
            objects.push_str(if dice.roll(10) == 0 { "\n" } else { "\r\n" });
        }
        let buffer = readout(&telegram(&objects));
        if can_decode(&buffer) {
            passed += 1;
        }
        if decode_readout(&buffer).is_ok() {
            decoded += 1;
        }
    }
    assert!(passed > 1000);
    assert!(decoded > 10);
}

#[test]
fn slave_readings_of_every_shape_are_decoded_or_refused() {
    let mut dice = Dice(7);
    let mut refused = 0;
    for _ in 0..4000 {
        let mut value = String::new();
        for _ in 0..dice.roll(14) {
            value.push(b"0123456789"[dice.roll(10)] as char);
        }
        value.push('.');
        for _ in 0..dice.roll(6) {
            value.push(b"0123456789"[dice.roll(10)] as char);
        }
        let slave = 1 + dice.roll(4);
        let line = format!("0-{}:24.2.1(190320181003W)({}*m3)\r\n", slave, value);
        let digits = value.find('.').unwrap();
        let buffer = readout(&telegram(&line));
        assert_eq!(can_decode(&buffer), digits <= 8);
        match decode_readout(&buffer) {
            Ok(state) => {
                assert!(digits <= 8);
                let reading = state.slaves[slave - 1].meter_reading.as_ref();
                assert!(reading.is_some() || value == "00000000.0000");
            }
            Err(e) => {
                assert_eq!(e, DecodeError::InvalidFormat);
                refused += 1;
            }
        }
    }
    assert!(refused > 100);
}
