use half::f16;
use morningstar::binary16::Half;
use morningstar::prostar_mppt::connection::Outcome;
use morningstar::prostar_mppt::connection::Progress;
use morningstar::prostar_mppt::connection::Request;
use morningstar::prostar_mppt::connection::Response;
use morningstar::prostar_mppt::error::Error;
use morningstar::prostar_mppt::error::Operation;
use morningstar::prostar_mppt::field::Field;
use morningstar::prostar_mppt::plan::RegisterWrite;
use morningstar::prostar_mppt::quantity::ElectricPotential;
use morningstar::prostar_mppt::quantity::Time;
use morningstar::prostar_mppt::stats::Timestamp;
use morningstar::prostar_mppt::Coil;
use morningstar::prostar_mppt::Connection;
use morningstar::prostar_mppt::Settings;
use morningstar::prostar_mppt::Stats;

const NOW: Timestamp = Timestamp { unix_milliseconds: 42 };

fn volts(value: f32) -> ElectricPotential {
    ElectricPotential { volts: Half::from_bits(f16::from_f32(value).to_bits()) }
}

/// A configuration that passes validation: the block of zeros, with bus addresses.
fn base() -> Settings {
    Settings { modbus_id: 1, meterbus_id: 1, ..Settings::default() }
}

/// A controller, as far as its configuration block goes.
struct Device {
    block: Vec<u16>,
    /// The requests that reached it, in order.
    seen: Vec<Request>,
    /// The number of the write that fails, counted from 1; none fails when 0.
    failing_write: usize,
    writes: usize,
}

fn device(block: Vec<u16>, failing_write: usize) -> Device {
    Device { block, seen: Vec::new(), failing_write, writes: 0 }
}

fn answer(device: &mut Device, request: Request) -> Response {
    device.seen.push(request);
    match request {
        Request::ReadRegisters { address, count } => {
            let start = (address - 0xE000) as usize;
            Response::Registers(device.block[start..start + count as usize].to_vec())
        }
        Request::WriteRegister { address, value } => {
            device.writes += 1;
            if device.writes == device.failing_write {
                Response::Failed
            } else {
                device.block[(address - 0xE000) as usize] = value;
                Response::Written
            }
        }
        _ => Response::Failed,
    }
}

/// Runs an operation against the device until it finishes.
fn drive(connection: &mut Connection, device: &mut Device, first: Request) -> Progress {
    let mut request = first;
    loop {
        let response = answer(device, request);
        assert!(connection.awaits(&response));
        match connection.receive(response) {
            Progress::Send(next) => request = next,
            done => return done,
        }
    }
}

fn write(connection: &mut Connection, device: &mut Device, settings: &Settings) -> Progress {
    let first = connection.write_settings(settings).unwrap();
    drive(connection, device, first)
}

#[test]
fn a_new_connection_is_idle() {
    let c = Connection::new(7);
    assert!(c.is_idle());
    assert_eq!(c.modbus_id(), 7);
    assert!(!c.awaits(&Response::Failed));
    assert!(!c.awaits(&Response::Written));
}

#[test]
fn reading_the_telemetry_asks_for_the_whole_block_once() {
    let mut c = Connection::new(1);
    assert_eq!(c.stats(NOW), Request::ReadRegisters { address: 0x0000, count: 81 });
    assert!(!c.is_idle());
    assert!(c.awaits(&Response::Registers(vec![])));
    assert!(c.awaits(&Response::Failed));
    assert!(!c.awaits(&Response::Written));
    assert!(!c.awaits(&Response::Coils(vec![true])));
    let raw = vec![0x4C60u16; 81];
    let progress = c.receive(Response::Registers(raw.clone()));
    assert_eq!(progress, Progress::Finished(Outcome::Stats(Stats::decode(&raw, NOW).unwrap())));
    assert!(c.is_idle());
}

#[test]
fn a_telemetry_block_of_the_wrong_size_is_an_error() {
    let mut c = Connection::new(1);
    let _ = c.stats(NOW);
    assert_eq!(
        c.receive(Response::Registers(vec![0; 80])),
        Progress::Failed(Error::WrongSize { operation: Operation::ReadStats, expected: 81, found: 80 })
    );
    assert!(c.is_idle());
}

#[test]
fn a_failed_read_names_its_operation() {
    let mut c = Connection::new(1);
    let _ = c.stats(NOW);
    assert_eq!(c.receive(Response::Failed), Progress::Failed(Error::Transport(Operation::ReadStats)));
    assert!(c.is_idle());
    let _ = c.read_settings();
    assert_eq!(c.receive(Response::Failed), Progress::Failed(Error::Transport(Operation::ReadSettings)));
    let _ = c.write_settings(&base()).unwrap();
    assert_eq!(c.receive(Response::Failed), Progress::Failed(Error::Transport(Operation::ReadCurrentSettings)));
    let _ = c.read_coil(Coil::ClearFaults);
    assert_eq!(c.receive(Response::Failed), Progress::Failed(Error::Transport(Operation::ReadCoil(Coil::ClearFaults))));
    let _ = c.write_coil(Coil::ResetControl, true);
    assert_eq!(
        c.receive(Response::Failed),
        Progress::Failed(Error::Transport(Operation::WriteCoil(Coil::ResetControl)))
    );
    assert!(c.is_idle());
}

#[test]
fn reading_the_configuration_asks_for_the_whole_block_once() {
    let mut c = Connection::new(1);
    assert_eq!(c.read_settings(), Request::ReadRegisters { address: 0xE000, count: 57 });
    let block = base().encode();
    assert_eq!(c.receive(Response::Registers(block)), Progress::Finished(Outcome::Settings(base())));
    assert!(c.is_idle());
    let _ = c.read_settings();
    assert_eq!(
        c.receive(Response::Registers(vec![0; 56])),
        Progress::Failed(Error::WrongSize { operation: Operation::ReadSettings, expected: 57, found: 56 })
    );
}

#[test]
fn coils_are_read_and_written_at_their_addresses() {
    let mut c = Connection::new(1);
    assert_eq!(c.read_coil(Coil::ChargeDisconnect), Request::ReadCoils { address: 0x0002, count: 1 });
    assert!(c.awaits(&Response::Coils(vec![true])));
    assert!(!c.awaits(&Response::Registers(vec![1])));
    assert_eq!(c.receive(Response::Coils(vec![true])), Progress::Finished(Outcome::Coil(true)));
    let _ = c.read_coil(Coil::ChargeDisconnect);
    assert_eq!(c.receive(Response::Coils(vec![false])), Progress::Finished(Outcome::Coil(false)));
    let _ = c.read_coil(Coil::FactoryReset);
    assert_eq!(
        c.receive(Response::Coils(vec![true, false])),
        Progress::Failed(Error::WrongSize { operation: Operation::ReadCoil(Coil::FactoryReset), expected: 1, found: 2 })
    );
    let _ = c.read_coil(Coil::FactoryReset);
    assert_eq!(
        c.receive(Response::Coils(vec![])),
        Progress::Failed(Error::WrongSize { operation: Operation::ReadCoil(Coil::FactoryReset), expected: 1, found: 0 })
    );
    assert_eq!(c.write_coil(Coil::ClearFaults, true), Request::WriteCoil { address: 0x0014, value: true });
    assert_eq!(c.receive(Response::Written), Progress::Finished(Outcome::Written));
    assert_eq!(c.write_coil(Coil::LoadDisconnect, false), Request::WriteCoil { address: 0x0001, value: false });
    assert_eq!(c.receive(Response::Written), Progress::Finished(Outcome::Written));
    assert!(c.is_idle());
}

#[test]
fn a_configuration_out_of_range_is_refused_before_anything_is_asked() {
    let mut c = Connection::new(1);
    let mut bad = base();
    bad.float_voltage = volts(18.0);
    assert_eq!(
        c.write_settings(&bad),
        Err(Error::OutOfRange { field: Field::FloatVoltage, range: Field::FloatVoltage.range() })
    );
    assert!(c.is_idle());
    assert!(!c.awaits(&Response::Registers(vec![0; 57])));
}

#[test]
fn writing_what_the_controller_holds_writes_nothing() {
    let settings = base();
    let mut d = device(settings.encode(), 0);
    let mut c = Connection::new(1);
    assert_eq!(write(&mut c, &mut d, &settings), Progress::Finished(Outcome::Written));
    assert_eq!(d.seen, vec![Request::ReadRegisters { address: 0xE000, count: 57 }]);
    assert_eq!(settings.pending_writes(&settings.encode()), Ok(vec![]));
    assert!(c.is_idle());
}

#[test]
fn one_changed_field_is_one_write() {
    let mut d = device(base().encode(), 0);
    let mut settings = base();
    settings.float_voltage = volts(13.5);
    let mut c = Connection::new(1);
    assert_eq!(write(&mut c, &mut d, &settings), Progress::Finished(Outcome::Written));
    assert_eq!(
        d.seen,
        vec![
            Request::ReadRegisters { address: 0xE000, count: 57 },
            Request::WriteRegister { address: 0xE001, value: f16::from_f32(13.5).to_bits() },
        ]
    );
    assert_eq!(
        settings.pending_writes(&base().encode()),
        Ok(vec![RegisterWrite { field: Field::FloatVoltage, value: f16::from_f32(13.5).to_bits() }])
    );
    assert_eq!(Settings::decode(&d.block), Ok(settings));
}

#[test]
fn each_field_alone_is_written_at_its_own_address() {
    let current = vec![0xFFFFu16; 57];
    let mut expected = Vec::new();
    for offset in 0..57 {
        if let Some(field) = Field::at(offset) {
            expected.push(RegisterWrite { field, value: base().register(field) });
            let mut block = base().encode();
            block[offset] ^= 0x0100;
            let writes = base().pending_writes(&block).unwrap();
            assert_eq!(writes, vec![RegisterWrite { field, value: base().register(field) }]);
            assert_eq!(writes[0].address() as usize, 0xE000 + offset);
        } else {
            let mut block = base().encode();
            block[offset] = 0xABCD;
            assert_eq!(base().pending_writes(&block), Ok(vec![]));
        }
    }
    assert_eq!(base().pending_writes(&current), Ok(expected));
}

#[test]
fn the_plan_refuses_a_block_of_another_length() {
    assert_eq!(
        base().pending_writes(&vec![0; 56]),
        Err(Error::WrongSize { operation: Operation::ReadCurrentSettings, expected: 57, found: 56 })
    );
    let mut c = Connection::new(1);
    let _ = c.write_settings(&base()).unwrap();
    assert_eq!(
        c.receive(Response::Registers(vec![0; 58])),
        Progress::Failed(Error::WrongSize { operation: Operation::ReadCurrentSettings, expected: 57, found: 58 })
    );
    assert!(c.is_idle());
}

#[test]
fn changed_fields_are_written_in_the_order_of_the_block() {
    let mut d = device(base().encode(), 0);
    let mut settings = base();
    settings.charge_current_limit.amperes = Half::from_bits(0x5100);
    settings.modbus_id = 9;
    settings.regulation_voltage = volts(14.0);
    settings.alarm_on_setting_change = true;
    settings.lvd_warning_timeout = Time { seconds: 600 };
    let mut c = Connection::new(1);
    assert_eq!(write(&mut c, &mut d, &settings), Progress::Finished(Outcome::Written));
    assert_eq!(
        d.seen,
        vec![
            Request::ReadRegisters { address: 0xE000, count: 57 },
            Request::WriteRegister { address: 0xE000, value: f16::from_f32(14.0).to_bits() },
            Request::WriteRegister { address: 0xE00D, value: 1 },
            Request::WriteRegister { address: 0xE027, value: 10 },
            Request::WriteRegister { address: 0xE034, value: 9 },
            Request::WriteRegister { address: 0xE038, value: 0x5100 },
        ]
    );
    assert_eq!(Settings::decode(&d.block), Ok(settings));
    assert!(c.is_idle());
}

#[test]
fn partial_write_failure() {
    let before = base();
    let mut d = device(before.encode(), 3);
    let mut settings = before;
    settings.regulation_voltage = volts(14.0);
    settings.alarm_on_setting_change = true;
    settings.lvd_warning_timeout = Time { seconds: 600 };
    settings.modbus_id = 9;
    settings.charge_current_limit.amperes = Half::from_bits(0x5100);
    let mut c = Connection::new(1);
    assert_eq!(
        write(&mut c, &mut d, &settings),
        Progress::Failed(Error::Transport(Operation::WriteSetting(Field::LvdWarningTimeout)))
    );
    assert!(c.is_idle());
    assert_eq!(
        d.seen,
        vec![
            Request::ReadRegisters { address: 0xE000, count: 57 },
            Request::WriteRegister { address: 0xE000, value: f16::from_f32(14.0).to_bits() },
            Request::WriteRegister { address: 0xE00D, value: 1 },
            Request::WriteRegister { address: 0xE027, value: 10 },
        ]
    );
    let first = c.read_settings();
    let read = drive(&mut c, &mut d, first);
    let mut expected = before;
    expected.regulation_voltage = settings.regulation_voltage;
    expected.alarm_on_setting_change = true;
    assert_eq!(read, Progress::Finished(Outcome::Settings(expected)));
    assert_eq!(expected.lvd_warning_timeout, before.lvd_warning_timeout);
    assert_eq!(expected.modbus_id, before.modbus_id);
    assert_eq!(expected.charge_current_limit, before.charge_current_limit);
}

#[test]
fn a_failure_is_not_tried_again() {
    let mut d = device(base().encode(), 1);
    let mut settings = base();
    settings.float_voltage = volts(13.5);
    settings.equalize_voltage = volts(15.0);
    let mut c = Connection::new(1);
    assert_eq!(
        write(&mut c, &mut d, &settings),
        Progress::Failed(Error::Transport(Operation::WriteSetting(Field::FloatVoltage)))
    );
    assert_eq!(d.seen.len(), 2);
    assert_eq!(d.block, base().encode());
}

#[test]
fn a_configuration_read_and_written_back_writes_nothing() {
    let mut block = vec![0u16; 57];
    for offset in 0..57 {
        block[offset] = 0x3000 + offset as u16;
    }
    block[0x0D] = 1;
    block[0x34] = 17;
    block[0x35] = 3;
    let settings = Settings::decode(&block).unwrap();
    assert_eq!(settings.pending_writes(&block), Ok(vec![]));
}

#[test]
fn beginning_an_operation_abandons_the_one_in_progress() {
    let mut c = Connection::new(1);
    let _ = c.write_settings(&base()).unwrap();
    let _ = c.read_coil(Coil::ClearAlarms);
    assert!(c.awaits(&Response::Coils(vec![true])));
    assert!(!c.awaits(&Response::Registers(vec![])));
    assert_eq!(c.receive(Response::Coils(vec![true])), Progress::Finished(Outcome::Coil(true)));
}
