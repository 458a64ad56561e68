//! Driver tests against the simulated transport: register access framing,
//! the write-and-verify retry behaviour, and the EZ-Config initialization
//! sequence in both of its branches.

use max1726x::comms::BatteryChargeStatus;
use max1726x::comms::EzConfig;
use max1726x::comms::Max1726x;
use max1726x::error::Error;
use max1726x::max17263::registers::Max17263RegisterResolver;
use max1726x::max17263::registers::Register as ChipRegister;
use max1726x::registers::FStat;
use max1726x::registers::ModelCfg;
use max1726x::registers::Status;
use max1726x::registers::VEmpty;
use max1726x::traits::BitField;
use max1726x::sim::SimDelay;
use max1726x::sim::SimEvent;
use max1726x::sim::SimResponse;
use max1726x::sim::SimTransport;

type Driver = Max1726x<ChipRegister, SimTransport, Max17263RegisterResolver>;

const ADDR: u8 = 0x36;

fn driver(responses: Vec<SimResponse>) -> Driver {
    Max1726x::new(SimTransport::new(responses), Max17263RegisterResolver::new(10))
}

fn write_event(register: u8, word: u16) -> SimEvent {
    SimEvent::Write {
        address: ADDR,
        bytes: vec![register, (word & 0xFF) as u8, (word >> 8) as u8],
    }
}

fn read_event(register: u8, word: u16) -> SimEvent {
    SimEvent::WriteRead {
        address: ADDR,
        written: vec![register],
        read: vec![(word & 0xFF) as u8, (word >> 8) as u8],
    }
}

#[test]
fn write_register_frames_little_endian() {
    let mut dev = driver(vec![]);
    dev.write_register(0x18, 0x1234).unwrap();
    let sim = dev.into_transport();
    assert_eq!(sim.events().as_slice(), &[write_event(0x18, 0x1234)]);
}

#[test]
fn read_register_reassembles_little_endian() {
    let mut dev = driver(vec![SimResponse::Word(0xBEEF), SimResponse::Word(0xBEEF)]);
    let bytes = dev.read_register(0x09).unwrap();
    assert_eq!(bytes, [0xEF, 0xBE]);
    let word = dev.read_register_as_u16(0x09).unwrap();
    assert_eq!(word, 0xBEEF);
}

#[test]
fn transport_errors_propagate() {
    let mut dev = driver(vec![SimResponse::Failure]);
    let r = dev.read_register_as_u16(0x09);
    assert!(matches!(r, Err(Error::I2c(_))));
}

#[test]
fn write_and_verify_succeeds_on_fourth_attempt() {
    // The first three read-backs mismatch; the fourth matches.
    let mut dev = driver(vec![
        SimResponse::Word(0xFFFF),
        SimResponse::Word(0x0000),
        SimResponse::Word(0xABCD),
        SimResponse::Word(0x1234),
    ]);
    let mut delay = SimDelay::new();
    dev.write_and_verify_register(0x00, 0x1234, &mut delay).unwrap();

    let sim = dev.into_transport();
    // Exactly four write attempts were issued, each followed by a 1 ms
    // settling pause and a read-back.
    let writes: Vec<&SimEvent> = sim
        .events()
        .iter()
        .filter(|e| matches!(e, SimEvent::Write { .. }))
        .collect();
    assert_eq!(writes.len(), 4);
    assert_eq!(sim.events().len(), 8);
    assert_eq!(sim.events()[0], write_event(0x00, 0x1234));
    assert_eq!(sim.events()[1], read_event(0x00, 0xFFFF));
    assert_eq!(sim.events()[6], write_event(0x00, 0x1234));
    assert_eq!(sim.events()[7], read_event(0x00, 0x1234));
    assert_eq!(delay.delays().as_slice(), &[1, 1, 1, 1]);
}

#[test]
fn write_and_verify_fails_after_four_attempts() {
    // No read-back ever matches: the operation fails after exactly four
    // attempts (one initial plus three retries), never looping on.
    let mut dev = driver(vec![
        SimResponse::Word(0x0001),
        SimResponse::Word(0x0002),
        SimResponse::Word(0x0003),
        SimResponse::Word(0x0004),
        SimResponse::Word(0x1234),
    ]);
    let mut delay = SimDelay::new();
    let r = dev.write_and_verify_register(0x00, 0x1234, &mut delay);
    match r {
        Err(Error::WriteNotVerified { register, write, read }) => {
            assert_eq!(register, 0x00);
            assert_eq!(write, 0x1234);
            assert_eq!(read, 0x0004);
        },
        _ => panic!("expected a write-not-verified error"),
    }

    let sim = dev.into_transport();
    let writes: Vec<&SimEvent> = sim
        .events()
        .iter()
        .filter(|e| matches!(e, SimEvent::Write { .. }))
        .collect();
    assert_eq!(writes.len(), 4);
    // The fifth scripted response was never consumed.
    assert_eq!(sim.responses_used(), 4);
}

fn sample_config(charge_voltage_mv: u16) -> EzConfig {
    EzConfig {
        charge_voltage_mv,
        design_cap_mah: 5000,
        i_chg_term_ma: 300,
        v_empty_mv: VEmpty::init(3300, 3880),
    }
}

#[test]
fn ez_config_skips_load_when_por_clear() {
    // POR already clear on the first status read: exactly one status read
    // and no configuration write precede the POR clear.
    let mut dev = driver(vec![
        SimResponse::Word(0x0000),  // Status: POR clear
        SimResponse::Word(0x8082),  // Status before clearing POR
        SimResponse::Word(0x8080),  // verified read-back
        SimResponse::Word(0x0AAA),  // RepCap
        SimResponse::Word(0x0BBB),  // RepSOC
        SimResponse::Word(0x0CCC),  // TTE
    ]);
    let mut delay = SimDelay::new();
    dev.ez_config(&mut delay, sample_config(4200)).unwrap();

    let sim = dev.into_transport();
    let expected = vec![
        read_event(0x00, 0x0000),
        read_event(0x00, 0x8082),
        write_event(0x00, 0x8080),
        write_event(0x00, 0x8080),
        read_event(0x00, 0x8080),
        read_event(0x05, 0x0AAA),
        read_event(0x06, 0x0BBB),
        read_event(0x11, 0x0CCC),
    ];
    assert_eq!(sim.events(), &expected);
    // No write touched the design-capacity, model-config or
    // hibernate-config registers.
    for e in sim.events() {
        if let SimEvent::Write { bytes, .. } = e {
            assert!(bytes[0] != 0x18 && bytes[0] != 0xDB && bytes[0] != 0xBA);
        }
    }
    assert_eq!(delay.delays().as_slice(), &[1]);
}

#[test]
fn ez_config_full_sequence_high_voltage() {
    // POR set and a charge voltage above 4275 mV: the full write sequence
    // runs in order and selects the high-voltage model constant 0x8400.
    let mut dev = driver(vec![
        SimResponse::Word(0x0002),  // Status: POR set
        SimResponse::Word(0x0001),  // FStat: DNR still set
        SimResponse::Word(0x0000),  // FStat: DNR clear
        SimResponse::Word(0x870C),  // HibCfg saved
        SimResponse::Word(0x8400),  // ModelCfg: refresh still set
        SimResponse::Word(0x0400),  // ModelCfg: refresh clear
        SimResponse::Word(0x0002),  // Status before clearing POR
        SimResponse::Word(0x0000),  // verified read-back
        SimResponse::Word(0x0AAA),  // RepCap
        SimResponse::Word(0x0BBB),  // RepSOC
        SimResponse::Word(0x0CCC),  // TTE
    ]);
    let mut delay = SimDelay::new();
    dev.ez_config(&mut delay, sample_config(4400)).unwrap();

    let sim = dev.into_transport();
    let expected = vec![
        read_event(0x00, 0x0002),
        read_event(0x3D, 0x0001),
        read_event(0x3D, 0x0000),
        read_event(0xBA, 0x870C),
        write_event(0x60, 0x0090),
        write_event(0xBA, 0x0000),
        write_event(0x60, 0x0000),
        write_event(0x18, 5000),
        write_event(0x1E, 300),
        write_event(0x3A, 0xA561),
        write_event(0xDB, 0x8400),
        read_event(0xDB, 0x8400),
        read_event(0xDB, 0x0400),
        write_event(0xBA, 0x870C),
        read_event(0x00, 0x0002),
        write_event(0x00, 0x0000),
        write_event(0x00, 0x0000),
        read_event(0x00, 0x0000),
        read_event(0x05, 0x0AAA),
        read_event(0x06, 0x0BBB),
        read_event(0x11, 0x0CCC),
    ];
    assert_eq!(sim.events(), &expected);
    assert_eq!(delay.delays().as_slice(), &[10, 10, 1]);
}

#[test]
fn ez_config_selects_standard_model_constant() {
    // A charge voltage at or below 4275 mV selects the standard constant
    // 0x8000.
    let mut dev = driver(vec![
        SimResponse::Word(0x0002),
        SimResponse::Word(0x0000),  // DNR already clear
        SimResponse::Word(0x1517),  // HibCfg saved
        SimResponse::Word(0x8000),  // refresh still set
        SimResponse::Word(0x0000),  // refresh clear
        SimResponse::Word(0x0002),
        SimResponse::Word(0x0000),
        SimResponse::Word(0x0001),
        SimResponse::Word(0x0002),
        SimResponse::Word(0x0003),
    ]);
    let mut delay = SimDelay::new();
    dev.ez_config(&mut delay, sample_config(4275)).unwrap();

    let sim = dev.into_transport();
    let model_writes: Vec<&SimEvent> = sim
        .events()
        .iter()
        .filter(
            |e| matches!(e, SimEvent::Write { bytes, .. } if !bytes.is_empty() && bytes[0] == 0xDB),
        )
        .collect();
    assert_eq!(model_writes.len(), 1);
    assert_eq!(*model_writes[0], write_event(0xDB, 0x8000));
    // The saved hibernate configuration is restored verbatim.
    assert!(sim.events().contains(&write_event(0xBA, 0x1517)));
}

#[test]
fn ez_config_aborts_on_transport_error() {
    // A failed register read aborts the procedure at once, propagating
    // the transport error unchanged.
    let mut dev = driver(vec![SimResponse::Failure]);
    let mut delay = SimDelay::new();
    let r = dev.ez_config(&mut delay, sample_config(4200));
    assert!(matches!(r, Err(Error::I2c(_))));
    let sim = dev.into_transport();
    assert!(sim.events().is_empty());
}

#[test]
fn ez_config_poll_budget_is_opt_in() {
    // By default the driver keeps polling; a caller that opts into a
    // small budget gets a clean give-up error naming the polled register
    // once the device keeps reporting not-ready past the budget.
    let mut dev = driver(vec![
        SimResponse::Word(0x0002),  // Status: POR set
        SimResponse::Word(0x0001),  // FStat: DNR set, first waiting read
        SimResponse::Word(0x0001),  // second waiting read
        SimResponse::Word(0x0001),  // third waiting read
        SimResponse::Word(0x0001),  // the give-up read, DNR still set
    ]);
    assert_eq!(dev.poll_budget(), u32::MAX);
    dev.set_poll_budget(3);
    assert_eq!(dev.poll_budget(), 3);
    let mut delay = SimDelay::new();
    let r = dev.ez_config(&mut delay, sample_config(4200));
    match r {
        Err(Error::PollBudgetExhausted { register }) => assert_eq!(register, 0x3D),
        _ => panic!("expected the poll budget to run out"),
    }
    let sim = dev.into_transport();
    // Three waiting reads with their pauses, then one more read that
    // still showed DNR set, and nothing after it.
    assert_eq!(sim.responses_used(), 5);
    assert_eq!(delay.delays().as_slice(), &[10, 10, 10]);
}

#[test]
fn battery_accessors_convert_readings() {
    let mut dev = driver(vec![
        SimResponse::Word(0x8000),  // VCell
        SimResponse::Word(0x8000),  // Current
        SimResponse::Word(0xFF00),  // Temp
        SimResponse::Word(0x3200),  // RepSOC
    ]);
    // VCell 0x8000: 32768 counts of 78.125 microvolts.
    assert_eq!(dev.battery_voltage().unwrap(), 2_560_000);
    // Current 0x8000: minus full scale over the 10 milliohm sense
    // resistor.
    assert_eq!(dev.battery_current().unwrap(), -5_120_000);
    // Temp 0xFF00: minus one degree Celsius.
    assert_eq!(dev.battery_temperature().unwrap(), -1_000);
    // RepSOC 0x3200: fifty percent.
    assert_eq!(dev.battery_state_of_charge().unwrap(), 50_000);
}

#[test]
fn typed_register_accessors() {
    let mut dev = driver(vec![
        SimResponse::Word(0x8082),  // Status
        SimResponse::Word(0x0001),  // FStat
        SimResponse::Word(0x870C),  // HibCfg
        SimResponse::Word(0xA561),  // VEmpty
        SimResponse::Word(0x8400),  // ModelCfg via the generic bitfield read
        SimResponse::Word(0x0AAA),  // RepCap
        SimResponse::Word(0x0BBB),  // RepSOC
        SimResponse::Word(0x0CCC),  // TTE
    ]);
    let st = dev.status_register().unwrap();
    assert!(st.contains(Status::POR));
    assert_eq!(st.bits(), 0x8082);
    let fs = dev.fstat_register().unwrap();
    assert!(fs.contains(FStat::DNR));
    let hib = dev.hib_cfg_register().unwrap();
    assert_eq!(hib.to_word(), 0x870C);
    let ve = dev.v_empty_register().unwrap();
    assert_eq!(ve.calc_empty_voltage_target_mv(), 3300);
    let mc: ModelCfg = dev.read_register_as_bitfield().unwrap();
    assert!(mc.refresh());
    assert!(mc.v_chg());
    let snapshot = dev.battery_charge_status().unwrap();
    assert_eq!(
        snapshot,
        BatteryChargeStatus { rep_cap: 0x0AAA, rep_soc: 0x0BBB, tte: 0x0CCC },
    );
}

#[test]
fn write_bitfield_uses_its_own_register() {
    let mut dev = driver(vec![]);
    dev.write_bitfield_to_register(ModelCfg::from(0x8400)).unwrap();
    let sim = dev.into_transport();
    assert_eq!(sim.events().as_slice(), &[write_event(0xDB, 0x8400)]);
}
