use embassy_imxrt::flexspi::nor_storage_bus::{
    AhbConfig, AhbRxBufferSetting, AhbSequence, Blocking, CommandAction, CommandEvent, CommandStage, DataTransfer, DllSetting, ErrorNote, FlashDeviceSlot, FlexSpiError,
    FlexSpiFlashPort, FlexSpiFlashPortDeviceInstance, FlexspiAhbBufferConfig, FlexspiAhbWriteWaitUnit,
    FlexspiConfig, FlexspiConfigPortData, FlexspiCsIntervalCycleUnit, FlexspiDeviceConfig,
    FlexspiNorStorageBus, FlexspiRxClockSource, FifoChunk, CmdResult, LutInstrCookie, LutInstrNum,
    NorStorageBusError, NorStorageBusWidth, NorStorageCmd, NorStorageCmdMode, NorStorageCmdType,
    NorStorageDummyCycles, check_command_size, check_transfer_status, copy_rx_words, data_phase, dll_setting,
    fifo_chunks, flash_port_settings, lut_instructions, pack_tx_words, program_lut,
};
use mimxrt600_fcb::{FlexSpiLutOpcode, FlexSpiNumPads, flexspi_lut_seq};

fn quad_read(len: u32) -> NorStorageCmd {
    NorStorageCmd {
        cmd_lb: 0xEB,
        cmd_ub: None,
        addr: Some(0x1000),
        addr_width: Some(24),
        mode: NorStorageCmdMode::SDR,
        dummy: NorStorageDummyCycles::Clocks(6),
        cmdtype: Some(NorStorageCmdType::Read),
        bus_width: NorStorageBusWidth::Quad,
        data_bytes: Some(len),
    }
}

#[test]
fn lut_for_quad_read() {
    let words = program_lut(&quad_read(4), 14);
    let w0 = flexspi_lut_seq(FlexSpiLutOpcode::CMD_SDR, FlexSpiNumPads::Quad, 0xEB, FlexSpiLutOpcode::RADDR_SDR, FlexSpiNumPads::Quad, 24);
    let w1 = flexspi_lut_seq(FlexSpiLutOpcode::DUMMY_SDR, FlexSpiNumPads::Quad, 6, FlexSpiLutOpcode::READ_SDR, FlexSpiNumPads::Quad, 4);
    let w2 = flexspi_lut_seq(FlexSpiLutOpcode::STOP, FlexSpiNumPads::Single, 0, FlexSpiLutOpcode::STOP, FlexSpiNumPads::Single, 0);
    assert_eq!(words, vec![w0, w1, w2, 0]);
    assert_eq!(words, vec![0x0A18_06EB, 0x2604_3206, 0, 0]);
}

#[test]
fn lut_for_ddr_write_with_two_byte_command() {
    let cmd = NorStorageCmd {
        cmd_lb: 0x12,
        cmd_ub: Some(0xED),
        addr: Some(0),
        addr_width: Some(32),
        mode: NorStorageCmdMode::DDR,
        dummy: NorStorageDummyCycles::Bytes(0),
        cmdtype: Some(NorStorageCmdType::Write),
        bus_width: NorStorageBusWidth::Octal,
        data_bytes: Some(256),
    };
    let words = program_lut(&cmd, 0);
    let w0 = flexspi_lut_seq(FlexSpiLutOpcode::CMD_DDR, FlexSpiNumPads::Octal, 0x12, FlexSpiLutOpcode::CMD_DDR, FlexSpiNumPads::Octal, 0xED);
    // the data length is truncated to the 8-bit operand
    let w1 = flexspi_lut_seq(FlexSpiLutOpcode::RADDR_DDR, FlexSpiNumPads::Octal, 32, FlexSpiLutOpcode::WRITE_DDR, FlexSpiNumPads::Octal, 0);
    let w2 = flexspi_lut_seq(FlexSpiLutOpcode::STOP, FlexSpiNumPads::Single, 0, FlexSpiLutOpcode::STOP, FlexSpiNumPads::Single, 0);
    assert_eq!(words, vec![w0, w1, w2, 0]);
    assert_eq!(lut_instructions(&cmd).len(), 5);
}

#[test]
fn lut_for_plain_command() {
    let cmd = NorStorageCmd {
        cmd_lb: 0x06,
        cmd_ub: None,
        addr: None,
        addr_width: None,
        mode: NorStorageCmdMode::SDR,
        dummy: NorStorageDummyCycles::Clocks(0),
        cmdtype: None,
        bus_width: NorStorageBusWidth::Single,
        data_bytes: None,
    };
    let w0 = flexspi_lut_seq(FlexSpiLutOpcode::CMD_SDR, FlexSpiNumPads::Single, 0x06, FlexSpiLutOpcode::STOP, FlexSpiNumPads::Single, 0);
    assert_eq!(program_lut(&cmd, 15), vec![w0, 0, 0, 0]);
}

#[test]
fn cookie_walks_two_instructions_per_word() {
    let mut cookie = LutInstrCookie { seq_num: 56, instr_num: LutInstrNum::First };
    cookie.next_instruction();
    assert_eq!((cookie.seq_num, cookie.instr_num), (56, LutInstrNum::Second));
    cookie.next_instruction();
    assert_eq!((cookie.seq_num, cookie.instr_num), (57, LutInstrNum::First));
}

#[test]
fn transfer_status_decoding() {
    let ip = CmdResult { AhbReadCmdErr: false, AhbWriteCmdErr: false, IpCmdErr: true };
    let ahb = CmdResult { AhbReadCmdErr: true, AhbWriteCmdErr: true, IpCmdErr: false };
    let s = check_transfer_status(0);
    assert_eq!((s.result, s.clear), (Ok(()), 0));
    // IPCMDDONE alone is no error
    let s = check_transfer_status(1);
    assert_eq!((s.result, s.clear), (Ok(()), 0));
    let s = check_transfer_status((1 << 3) | (1 << 11));
    assert_eq!((s.result, s.clear), (Err(FlexSpiError::CmdExecErr { result: ip }), 0x808));
    let s = check_transfer_status((1 << 3) | (1 << 2));
    assert_eq!((s.result, s.clear), (Err(FlexSpiError::CmdCheckErr { result: ip }), 0x8));
    let s = check_transfer_status((1 << 4) | (1 << 11));
    assert_eq!((s.result, s.clear), (Err(FlexSpiError::CmdExecErr { result: ahb }), 0x810));
    let s = check_transfer_status(1 << 4);
    assert_eq!((s.result, s.clear), (Err(FlexSpiError::CmdCheckErr { result: ahb }), 0x10));
    let s = check_transfer_status((1 << 10) | (1 << 7));
    assert_eq!((s.result, s.clear), (Err(FlexSpiError::AhbBusTimeout { result: ahb }), 0x400));
    let s = check_transfer_status((1 << 7) | (1 << 1));
    assert_eq!((s.result, s.clear), (Err(FlexSpiError::DataLearningFailed), 0x80));
    let s = check_transfer_status((1 << 1) | (1 << 2));
    assert_eq!((s.result, s.clear), (Err(FlexSpiError::CmdGrantErr { result: ip }), 0x2));
    let s = check_transfer_status(1 << 2);
    assert_eq!((s.result, s.clear), (Err(FlexSpiError::CmdGrantErr { result: ahb }), 0x4));
}

#[test]
fn errors_map_to_storage_bus_errors() {
    let ip = CmdResult { AhbReadCmdErr: false, AhbWriteCmdErr: false, IpCmdErr: true };
    assert_eq!(NorStorageBusError::from(FlexSpiError::CmdGrantErr { result: ip }), NorStorageBusError::StorageBusNotAvailable);
    assert_eq!(NorStorageBusError::from(FlexSpiError::CmdCheckErr { result: ip }), NorStorageBusError::StorageBusIoError);
    assert_eq!(NorStorageBusError::from(FlexSpiError::CmdExecErr { result: ip }), NorStorageBusError::StorageBusIoError);
    assert_eq!(NorStorageBusError::from(FlexSpiError::AhbBusTimeout { result: ip }), NorStorageBusError::StorageBusIoError);
    assert_eq!(NorStorageBusError::from(FlexSpiError::DataLearningFailed), NorStorageBusError::StorageBusInternalError);
}

#[test]
fn error_descriptions() {
    let ahb = CmdResult { AhbReadCmdErr: true, AhbWriteCmdErr: true, IpCmdErr: false };
    let ip = CmdResult { AhbReadCmdErr: false, AhbWriteCmdErr: false, IpCmdErr: true };
    let none = CmdResult { AhbReadCmdErr: false, AhbWriteCmdErr: false, IpCmdErr: false };
    assert_eq!(
        FlexSpiError::CmdCheckErr { result: ahb }.describe(),
        vec![ErrorNote::AhbErrorSequence, ErrorNote::AhbWriteCheckFailed, ErrorNote::AhbErrorSequence, ErrorNote::AhbReadCheckFailed]
    );
    assert_eq!(FlexSpiError::CmdExecErr { result: ip }.describe(), vec![ErrorNote::IpErrorSequence, ErrorNote::IpExecFailed]);
    assert_eq!(
        FlexSpiError::CmdGrantErr { result: ahb }.describe(),
        vec![ErrorNote::AhbReadGrantTimeout, ErrorNote::AhbWriteGrantTimeout]
    );
    assert_eq!(FlexSpiError::AhbBusTimeout { result: none }.describe(), vec![ErrorNote::UnknownAhbBusTimeout]);
    assert_eq!(FlexSpiError::AhbBusTimeout { result: ahb }.describe(), vec![ErrorNote::AhbBusTimeout]);
    assert_eq!(FlexSpiError::DataLearningFailed.describe(), vec![ErrorNote::DataLearningFailed]);
}

#[test]
fn command_checks() {
    assert_eq!(check_command_size(&quad_read(65535)), Ok(()));
    assert_eq!(check_command_size(&quad_read(65536)), Err(NorStorageBusError::StorageBusInternalError));
    let cmd = quad_read(16);
    assert_eq!(data_phase(&cmd, Some(16), None), Ok(Some(DataTransfer::Read(16))));
    assert_eq!(data_phase(&cmd, None, Some(16)), Err(NorStorageBusError::StorageBusInternalError));
    assert_eq!(data_phase(&cmd, Some(15), None), Err(NorStorageBusError::StorageBusInternalError));
    let mut w = cmd;
    w.cmdtype = Some(NorStorageCmdType::Write);
    assert_eq!(data_phase(&w, None, Some(16)), Ok(Some(DataTransfer::Write(16))));
    w.data_bytes = None;
    assert_eq!(data_phase(&w, None, Some(16)), Err(NorStorageBusError::StorageBusInternalError));
    w.cmdtype = None;
    assert_eq!(data_phase(&w, None, None), Ok(None));
}

#[test]
fn fifo_words_round_trip() {
    let data = [1u8, 2, 3, 4, 5, 6];
    let words = pack_tx_words(&data, 2);
    assert_eq!(words, vec![0x0403_0201, 0x0605]);
    let mut back = [0u8; 6];
    copy_rx_words(&mut back, &words);
    assert_eq!(back, data);
    // a chunk larger than the watermark's slots: the excess is not moved
    assert_eq!(pack_tx_words(&data, 1), vec![0x0403_0201]);
    let mut partial = [9u8; 6];
    copy_rx_words(&mut partial, &[0xDDCC_BBAA]);
    assert_eq!(partial, [0xAA, 0xBB, 0xCC, 0xDD, 9, 9]);
}

#[test]
fn fifo_chunking() {
    assert_eq!(
        fifo_chunks(10, 8),
        vec![
            FifoChunk { offset: 0, len: 8, slots: 2, remaining: 10 },
            FifoChunk { offset: 8, len: 2, slots: 1, remaining: 2 },
        ]
    );
    assert!(fifo_chunks(0, 8).is_empty());
    // a watermark that is not a whole number of slots moves only the whole slots
    assert_eq!(
        fifo_chunks(13, 6),
        vec![
            FifoChunk { offset: 0, len: 6, slots: 1, remaining: 13 },
            FifoChunk { offset: 6, len: 6, slots: 1, remaining: 9 },
            FifoChunk { offset: 12, len: 1, slots: 1, remaining: 5 },
        ]
    );
}

#[test]
fn dll_settings() {
    let unified = DllSetting { dll_enable: false, slave_delay_target: 0, override_enable: true, override_value: 0 };
    assert_eq!(dll_setting(FlexspiRxClockSource::Rxclksrc0, false, 50_000_000, 5), unified);
    assert_eq!(dll_setting(FlexspiRxClockSource::Rxclksrc3, true, 50_000_000, 5), unified);
    assert_eq!(
        dll_setting(FlexspiRxClockSource::Rxclksrc3, false, 100_000_000, 5),
        DllSetting { dll_enable: true, slave_delay_target: 0xF, override_enable: false, override_value: 0 }
    );
    // 5 ns = 5000 ps, 67 cells of 75 ps
    assert_eq!(
        dll_setting(FlexspiRxClockSource::Rxclksrc3, false, 99_999_999, 5),
        DllSetting { dll_enable: false, slave_delay_target: 0, override_enable: true, override_value: 67 }
    );
    assert_eq!(dll_setting(FlexspiRxClockSource::Rxclksrc3, false, 0, 3).override_value, 40);
    assert_eq!(dll_setting(FlexspiRxClockSource::Rxclksrc3, false, 0, 0).override_value, 0);
}

fn device() -> FlexspiDeviceConfig {
    FlexspiDeviceConfig {
        flexspi_root_clk: 48_000_000,
        is_sck2_enabled: false,
        flash_size_kb: 0x4000,
        cs_interval_unit: FlexspiCsIntervalCycleUnit::Cycle1,
        cs_interval: 2,
        cs_hold_time: 3,
        cs_setup_time: 3,
        data_valid_time: 2,
        columnspace: 0,
        enable_word_address: false,
        awr_seq_index: 0,
        awr_seq_number: 0,
        ard_seq_index: 0,
        ard_seq_number: 0,
        ahb_write_wait_unit: FlexspiAhbWriteWaitUnit::AhbCycle2,
        ahb_write_wait_interval: 0,
        enable_write_mask_port_a: false,
        enable_write_mask_port_b: true,
    }
}

fn controller() -> FlexspiConfig {
    let buf = FlexspiAhbBufferConfig { priority: 3, master_index: 5, buffer_size: 64, enable_prefetch: false };
    FlexspiConfig {
        rx_sample_clock: FlexspiRxClockSource::Rxclksrc1,
        enable_sck_free_running: false,
        enable_combination: false,
        enable_doze: true,
        enable_half_speed_access: false,
        enable_sck_b_diff_opt: false,
        enable_same_config_for_all: false,
        seq_timeout_cycle: 0xFFFF,
        ip_grant_timeout_cycle: 0xFF,
        ahb_config: AhbConfig {
            enable_ahb_write_ip_tx_fifo: false,
            enable_ahb_write_ip_rx_fifo: false,
            ahb_grant_timeout_cycle: 0xFF,
            ahb_bus_timeout_cycle: 0xFFFF,
            resume_wait_cycle: 0x20,
            buffer: [buf; 8],
            enable_clear_ahb_buffer_opt: false,
            enable_read_address_opt: true,
            enable_ahb_prefetch: true,
            enable_ahb_bufferable: true,
            enable_ahb_cachable: true,
        },
    }
}

#[test]
fn flash_port_and_module_settings() {
    let mut d = device();
    assert_eq!(flash_port_settings(&d).ahb_read_sequence, None);
    d.ard_seq_number = 1;
    d.ard_seq_index = 9;
    let f = flash_port_settings(&d);
    assert_eq!(f.ahb_read_sequence, Some(AhbSequence { seq_num: 0, seq_id: 9 }));
    assert_eq!((f.flash_size, f.cs_interval, f.cs_hold_time), (0x4000, 2, 3));

    let bus = FlexspiNorStorageBus::<Blocking>::from_port_data(FlexspiConfigPortData {
        port: FlexSpiFlashPort::PortB,
        dev_instance: FlexSpiFlashPortDeviceInstance::DeviceInstance1,
        rx_watermark: 16,
        tx_watermark: 8,
    });
    let m = bus.configport.module_settings(&controller());
    assert_eq!(m.flash_slot, FlashDeviceSlot::B2);
    assert_eq!(m.flash_slot.index(), 3);
    // each AHB RX buffer takes the configured buffer, its size in 64-bit units
    assert_eq!(m.rx_buffers.len(), 8);
    for b in &m.rx_buffers {
        assert_eq!(*b, AhbRxBufferSetting { priority: 3, master_id: 5, size: 8, prefetch: false });
    }
    assert_eq!((m.combination, m.ip_grant_wait, m.ahb_grant_wait), (false, 0xFF, 0xFF));
    assert_eq!((m.flash_size, m.ip_rx_watermark, m.ip_tx_watermark), (0, 0, 0));
    let mut c = controller();
    c.enable_combination = true;
    c.ip_grant_timeout_cycle = 0x10;
    c.ahb_config.ahb_grant_timeout_cycle = 0x20;
    c.ahb_config.buffer[6] = FlexspiAhbBufferConfig { priority: 1, master_index: 2, buffer_size: 1024, enable_prefetch: true };
    let m = bus.configport.module_settings(&c);
    assert_eq!((m.combination, m.ip_grant_wait, m.ahb_grant_wait), (true, 0x10, 0x20));
    assert_eq!(m.rx_buffers[6], AhbRxBufferSetting { priority: 1, master_id: 2, size: 128, prefetch: true });
    assert_eq!(m.rx_buffers[5], AhbRxBufferSetting { priority: 3, master_id: 5, size: 8, prefetch: false });
    assert_eq!((m.doze, m.resume_wait, m.seq_wait, m.prefetch), (true, 0x20, 0xFFFF, true));
    let p = bus.configport.device_port_settings(&d, &controller());
    assert_eq!(p.dll_index, 1);
    assert_eq!(p.slot, FlashDeviceSlot::B2);
    assert_eq!((p.write_mask_port, p.write_mask), (FlexSpiFlashPort::PortB, true));
    assert_eq!(p.dll.override_value, 0);
}

#[test]
fn ahb_write_sequence_settings() {
    let mut d = device();
    let f = flash_port_settings(&d);
    assert_eq!((f.ahb_write_seq_id, f.ahb_write_seq_num, f.ahb_write_wait), (0, None, 0));
    d.awr_seq_index = 12;
    d.awr_seq_number = 2;
    d.ahb_write_wait_interval = 0x123;
    let f = flash_port_settings(&d);
    assert_eq!((f.ahb_write_seq_id, f.ahb_write_seq_num, f.ahb_write_wait), (12, Some(1), 0x123));
}

#[test]
fn high_lut_sequences_are_usable() {
    let cmd = quad_read(4);
    assert_eq!(program_lut(&cmd, 20), program_lut(&cmd, 14));
    assert_eq!(program_lut(&cmd, 31), program_lut(&cmd, 14));
    let mut bus = blocking_bus();
    bus.set_command_sequence_number(20);
    let (_, action) = bus.command_step(&cmd, CommandStage::Ready, CommandEvent::Send { read_len: Some(4), write_len: None });
    match action {
        CommandAction::Issue(setup, lut) => {
            assert_eq!(setup.seq_id, 20);
            assert_eq!(lut, program_lut(&cmd, 20));
        }
        other => panic!("unexpected action {:?}", other),
    }
}

#[test]
fn oversized_command_refused_on_any_bus() {
    let bus = FlexspiNorStorageBus::<Blocking>::from_port_data(FlexspiConfigPortData {
        port: FlexSpiFlashPort::PortA,
        dev_instance: FlexSpiFlashPortDeviceInstance::DeviceInstance0,
        rx_watermark: 0,
        tx_watermark: 0,
    });
    let mut cmd = quad_read(70_000);
    cmd.cmdtype = Some(NorStorageCmdType::Write);
    let (stage, action) = bus.command_step(&cmd, CommandStage::Ready, CommandEvent::Send { read_len: None, write_len: Some(70_000) });
    assert_eq!(stage, CommandStage::Finished);
    assert!(matches!(action, CommandAction::Finish { clear: 0, result: Err(NorStorageBusError::StorageBusInternalError) }));
}

#[test]
fn read_assembles_the_fifo_words() {
    let bus = FlexspiNorStorageBus::<Blocking>::from_port_data(FlexspiConfigPortData {
        port: FlexSpiFlashPort::PortA,
        dev_instance: FlexSpiFlashPortDeviceInstance::DeviceInstance0,
        rx_watermark: 8,
        tx_watermark: 8,
    });
    // 11 bytes: a chunk of 8 bytes (two words) and one of 3 bytes (one word)
    let words = vec![vec![0x0403_0201, 0x0807_0605], vec![0xFF0B_0A09]];
    let mut buf = [0u8; 11];
    assert_eq!(bus.read_cmd_data(&mut buf, 0, &words), Ok(()));
    assert_eq!(buf, [1, 2, 3, 4, 5, 6, 7, 8, 9, 10, 11]);

    // an error in the status fails the read and leaves the buffer alone
    let mut buf = [0xAAu8; 11];
    assert_eq!(bus.read_cmd_data(&mut buf, 1 << 3, &words), Err(NorStorageBusError::StorageBusIoError));
    assert_eq!(buf, [0xAA; 11]);

    // a chunk that never arrived: the first one is in, the rest untouched
    let mut buf = [0xAAu8; 11];
    assert_eq!(bus.read_cmd_data(&mut buf, 0, &words[..1].to_vec()), Err(NorStorageBusError::StorageBusInternalError));
    assert_eq!(buf, [1, 2, 3, 4, 5, 6, 7, 8, 0xAA, 0xAA, 0xAA]);
}

#[test]
fn bus_state() {
    let mut bus = FlexspiNorStorageBus::<Blocking>::from_port_data(FlexspiConfigPortData {
        port: FlexSpiFlashPort::PortA,
        dev_instance: FlexSpiFlashPortDeviceInstance::DeviceInstance0,
        rx_watermark: 16,
        tx_watermark: 8,
    });
    assert_eq!(bus.command_sequence_number(), 14);
    bus.set_command_sequence_number(3);
    assert_eq!(bus.command_sequence_number(), 3);
    assert_eq!((bus.rx_watermark(), bus.tx_watermark()), (16, 8));
    assert_eq!(bus.configport.flash_port(), FlexSpiFlashPort::PortA);
    assert_eq!(bus.configport.device_instance(), FlexSpiFlashPortDeviceInstance::DeviceInstance0);
    let s = bus.setup_ip_transfer(None, Some(70_000));
    assert_eq!((s.address, s.seq_id, s.rx_watermark_level, s.data_size), (0, 3, 1, Some(4464)));
    let s = bus.setup_ip_transfer(Some(0x2000), None);
    assert_eq!((s.address, s.data_size), (0x2000, None));
    assert_eq!(bus.program_lut(&quad_read(4))[0], 0x0A18_06EB);
    assert_eq!(bus.rx_chunks(20).len(), 2);
    assert_eq!(bus.tx_chunks(20).len(), 3);
}

#[test]
fn transfer_round_trip_through_fifo() {
    let data: Vec<u8> = (0u8..21).map(|b| b.wrapping_mul(37)).collect();
    let mut back = vec![0u8; data.len()];
    for chunk in fifo_chunks(data.len() as u32, 8) {
        let words = pack_tx_words(&data[chunk.offset..chunk.offset + chunk.len], 2);
        assert_eq!(words.len(), chunk.slots);
        copy_rx_words(&mut back[chunk.offset..chunk.offset + chunk.len], &words);
    }
    assert_eq!(back, data);
}

fn blocking_bus() -> FlexspiNorStorageBus<Blocking> {
    FlexspiNorStorageBus::<Blocking>::from_port_data(FlexspiConfigPortData {
        port: FlexSpiFlashPort::PortA,
        dev_instance: FlexSpiFlashPortDeviceInstance::DeviceInstance0,
        rx_watermark: 16,
        tx_watermark: 16,
    })
}

#[test]
fn command_steps_of_a_read() {
    let bus = blocking_bus();
    let cmd = quad_read(4);
    let (stage, action) = bus.command_step(&cmd, CommandStage::Ready, CommandEvent::Send { read_len: Some(4), write_len: None });
    assert_eq!(stage, CommandStage::Issued { read_len: Some(4), write_len: None });
    match action {
        CommandAction::Issue(setup, lut) => {
            assert_eq!((setup.address, setup.seq_id, setup.data_size), (0x1000, 14, Some(4)));
            assert_eq!(lut, program_lut(&cmd, 14));
        }
        other => panic!("unexpected action {:?}", other),
    }
    let (stage, action) = bus.command_step(&cmd, stage, CommandEvent::Status(0));
    assert_eq!(stage, CommandStage::MovingData);
    assert!(matches!(action, CommandAction::Read { clear: 0, len: 4 }));
    let (stage, action) = bus.command_step(&cmd, stage, CommandEvent::DataMoved(Ok(())));
    assert_eq!(stage, CommandStage::Completing);
    assert!(matches!(action, CommandAction::AwaitCompletion { clear: 0 }));
    let (stage, action) = bus.command_step(&cmd, stage, CommandEvent::CompletionPolled { done: false, expired: false });
    assert_eq!(stage, CommandStage::Completing);
    assert!(matches!(action, CommandAction::AwaitCompletion { clear: 0 }));
    let (stage, action) = bus.command_step(&cmd, stage, CommandEvent::CompletionPolled { done: true, expired: true });
    assert_eq!(stage, CommandStage::Finished);
    assert!(matches!(action, CommandAction::Finish { clear: 1, result: Ok(()) }));
}

#[test]
fn command_steps_that_fail() {
    let bus = blocking_bus();
    let cmd = quad_read(4);
    let issued = CommandStage::Issued { read_len: Some(4), write_len: None };
    let (stage, action) = bus.command_step(&quad_read(70_000), CommandStage::Ready, CommandEvent::Send { read_len: None, write_len: None });
    assert_eq!(stage, CommandStage::Finished);
    assert!(matches!(action, CommandAction::Finish { clear: 0, result: Err(NorStorageBusError::StorageBusInternalError) }));
    let (stage, action) = bus.command_step(&cmd, issued, CommandEvent::Status(1 << 3));
    assert_eq!(stage, CommandStage::Finished);
    assert!(matches!(action, CommandAction::Finish { clear: 8, result: Err(NorStorageBusError::StorageBusIoError) }));
    let (_, action) = bus.command_step(&cmd, issued, CommandEvent::Status(1 << 1));
    assert!(matches!(action, CommandAction::Finish { clear: 2, result: Err(NorStorageBusError::StorageBusNotAvailable) }));
    let wrong_len = CommandStage::Issued { read_len: Some(3), write_len: None };
    let (_, action) = bus.command_step(&cmd, wrong_len, CommandEvent::Status(0));
    assert!(matches!(action, CommandAction::Finish { clear: 0, result: Err(NorStorageBusError::StorageBusInternalError) }));
    let (_, action) = bus.command_step(&cmd, CommandStage::MovingData, CommandEvent::DataMoved(Err(NorStorageBusError::StorageBusIoError)));
    assert!(matches!(action, CommandAction::Finish { clear: 0, result: Err(NorStorageBusError::StorageBusIoError) }));
    let (_, action) = bus.command_step(&cmd, CommandStage::Completing, CommandEvent::CompletionPolled { done: false, expired: true });
    assert!(matches!(action, CommandAction::Finish { clear: 0, result: Err(NorStorageBusError::StorageBusIoError) }));
    let (stage, action) = bus.command_step(&cmd, CommandStage::Finished, CommandEvent::Status(0));
    assert_eq!(stage, CommandStage::Finished);
    assert!(matches!(action, CommandAction::Ignore));
}

#[test]
fn command_without_data_goes_to_completion() {
    let bus = blocking_bus();
    let mut cmd = quad_read(0);
    cmd.cmdtype = None;
    cmd.data_bytes = None;
    let (stage, action) = bus.command_step(&cmd, CommandStage::Issued { read_len: None, write_len: None }, CommandEvent::Status(1));
    assert_eq!(stage, CommandStage::Completing);
    assert!(matches!(action, CommandAction::AwaitCompletion { clear: 0 }));
}

#[test]
fn read_of_written_words_returns_the_data() {
    let bus = blocking_bus();
    let data: Vec<u8> = (0u8..37).map(|b| b.wrapping_mul(53).wrapping_add(7)).collect();
    let words: Vec<Vec<u32>> = fifo_chunks(data.len() as u32, 16)
        .iter()
        .map(|c| pack_tx_words(&data[c.offset..c.offset + c.len], 4))
        .collect();
    let mut back = vec![0x5Au8; data.len()];
    assert_eq!(bus.read_cmd_data(&mut back, 0, &words), Ok(()));
    assert_eq!(back, data);
}

#[test]
fn write_words_follow_the_status() {
    let bus = FlexspiNorStorageBus::<Blocking>::from_port_data(FlexspiConfigPortData {
        port: FlexSpiFlashPort::PortA,
        dev_instance: FlexSpiFlashPortDeviceInstance::DeviceInstance0,
        rx_watermark: 8,
        tx_watermark: 8,
    });
    let data = [0x11u8, 0x22, 0x33, 0x44, 0x55];
    assert_eq!(bus.write_cmd_words(&data, 0), Ok(vec![vec![0x4433_2211, 0x0000_0055]]));
    // an error in the status: nothing is to be written
    assert_eq!(bus.write_cmd_words(&data, 1 << 3), Err(NorStorageBusError::StorageBusIoError));
    assert_eq!(bus.write_cmd_words(&data, 1 << 1), Err(NorStorageBusError::StorageBusIoError));
    // 11 bytes: a full chunk of two words, then three bytes in one word
    let data: Vec<u8> = (1u8..=11).collect();
    assert_eq!(
        bus.write_cmd_words(&data, 0),
        Ok(vec![vec![0x0403_0201, 0x0807_0605], vec![0x000B_0A09]])
    );
    assert_eq!(bus.write_cmd_words(&[], 0), Ok(vec![]));
}

#[test]
fn written_words_read_back() {
    let bus = blocking_bus();
    let data: Vec<u8> = (0u8..45).map(|b| b.wrapping_mul(29).wrapping_add(3)).collect();
    let words = bus.write_cmd_words(&data, 0).unwrap();
    let mut back = vec![0u8; data.len()];
    assert_eq!(bus.read_cmd_data(&mut back, 0, &words), Ok(()));
    assert_eq!(back, data);
}
