use toupcam::sensor;
use toupcam::usb::Cmd;

#[test]
fn exposure_block_is_the_atomic_four_call_sequence() {
    let cmds = sensor::set_exposure_commands(0x1234, 0x5678);
    let expect = vec![
        Cmd::SensorWrite { addr: 0x1063, val: 0x0000 },
        Cmd::SensorWrite { addr: 0x1064, val: 0x1234 },
        Cmd::SysWrite { addr: 0x4000, val: 0x0000 },
        Cmd::SysWrite { addr: 0x5000, val: 0x5678 },
    ];
    assert_eq!(cmds, expect);
}

#[test]
fn analog_gain_is_one_sensor_write() {
    assert_eq!(
        sensor::set_analog_gain_command(0x610c),
        Cmd::SensorWrite { addr: 0x1061, val: 0x610c }
    );
}

#[test]
fn sensor_init_shape_and_order() {
    let cmds = sensor::sensor_init_commands();
    assert_eq!(cmds.len(), 75);

    // Global enable and initial exposure profile.
    assert_eq!(cmds[0], Cmd::SysWrite { addr: 0x0200, val: 0x0001 });
    assert_eq!(cmds[1], Cmd::SysWrite { addr: 0x8000, val: 0x09b0 });
    assert_eq!(cmds[2..6].to_vec(), sensor::set_exposure_commands(0x0637, 0x0e24));

    // First register block: 18 writes, settle, 2 writes, settle.
    assert_eq!(cmds[6], Cmd::SensorWrite { addr: 0x1008, val: 0x4299 });
    assert_eq!(cmds[24], Cmd::Sleep { ms: 5 });
    assert_eq!(cmds[25], Cmd::SensorWrite { addr: 0x1000, val: 0x0053 });
    assert_eq!(cmds[26], Cmd::SensorWrite { addr: 0x1008, val: 0x0298 });
    assert_eq!(cmds[27], Cmd::Sleep { ms: 5 });

    // Mode transition block with its mandatory 20 ms delays.
    assert_eq!(cmds[28], Cmd::SysWrite { addr: 0x1200, val: 0x0001 });
    assert_eq!(cmds[29], Cmd::Sleep { ms: 20 });
    assert_eq!(cmds[30], Cmd::SysWrite { addr: 0x2000, val: 0x0000 });
    assert_eq!(cmds[31], Cmd::SysWrite { addr: 0x1200, val: 0x0002 });
    assert_eq!(cmds[32], Cmd::Sleep { ms: 20 });
    assert_eq!(cmds[35], Cmd::Sleep { ms: 20 });
    assert_eq!(cmds[37], Cmd::Sleep { ms: 20 });

    // The two register blocks differ exactly in the two mode-dependent
    // fields.
    assert_eq!(cmds[12], Cmd::SensorWrite { addr: 0x1004, val: 0x0087 });
    assert_eq!(cmds[13], Cmd::SensorWrite { addr: 0x1006, val: 0x1104 });
    assert_eq!(cmds[44], Cmd::SensorWrite { addr: 0x1004, val: 0x0083 });
    assert_eq!(cmds[45], Cmd::SensorWrite { addr: 0x1006, val: 0x11dc });
    for i in 0..22 {
        if i == 6 || i == 7 {
            assert_ne!(cmds[6 + i], cmds[38 + i]);
        } else {
            assert_eq!(cmds[6 + i], cmds[38 + i]);
        }
    }

    // Final commit: resolution, exposure twice, analog gain last.
    assert_eq!(cmds[60], Cmd::SysWrite { addr: 0x103b, val: 0x0000 });
    assert_eq!(cmds[63], Cmd::Sleep { ms: 10 });
    assert_eq!(cmds[64], Cmd::SysWrite { addr: 0x8000, val: 0x060c });
    assert_eq!(cmds[65..69].to_vec(), sensor::set_exposure_commands(0x000a, 0x0cbd));
    assert_eq!(cmds[69], Cmd::SysWrite { addr: 0x0a00, val: 0x0001 });
    assert_eq!(cmds[70..74].to_vec(), sensor::set_exposure_commands(0x000a, 0x0cbd));
    assert_eq!(cmds[74], Cmd::SensorWrite { addr: 0x1061, val: 0x610c });
}

#[test]
fn eeprom_windows() {
    let cmds = sensor::eeprom_read_commands();
    let expect = vec![
        Cmd::VendorIn { req: 0x20, val: 0x0000, idx: 0x0000, read_len: 0x1000 },
        Cmd::VendorIn { req: 0x20, val: 0x1000, idx: 0x0000, read_len: 0x0cbb },
    ];
    assert_eq!(cmds, expect);
}

#[test]
fn eeprom_digest_is_sha1_of_concatenation() {
    // SHA-1 of "abc", a published reference value; the digest must cover
    // the concatenation of both windows, wherever the split falls.
    let expect = "a9993e364706816aba3e25717850c26c9cd0d89d";
    let d1 = sensor::eeprom_digest(&b"abc".to_vec(), &Vec::new());
    assert_eq!(d1, expect);
    let d2 = sensor::eeprom_digest(&b"a".to_vec(), &b"bc".to_vec());
    assert_eq!(d2, expect);
    let empty = sensor::eeprom_digest(&Vec::new(), &Vec::new());
    assert_eq!(empty, "da39a3ee5e6b4b0d3255bfef95601890afd80709");
}
