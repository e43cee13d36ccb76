use battery_deck::smc::{
    disable_adapter, disable_charging, enable_adapter, enable_charging, key_code, key_info_from_reply,
    key_info_request, probe_supported, read_data_from_reply, read_request, set_magsafe_led,
    verify_written, write_reply_ok, write_request, ProbeStep, SMCKeyInfoData, SmcError,
    SmcErrorKind, SmcHandle, SmcParams, WriteStep, ACLC, CH0C, CH0J, CHIE, CHTE, K_SMC_GET_KEY_INFO,
    K_SMC_READ_KEY, K_SMC_WRITE_KEY, KeyStep, KeyWriter, WriteStage,
};

fn info(size: u32) -> SMCKeyInfoData {
    SMCKeyInfoData { data_size: size, data_type: 0x75693332, data_attributes: 0xd4 }
}

fn reply(result: u8, bytes: Vec<u8>, key_info: SMCKeyInfoData) -> SmcParams {
    let mut b = bytes;
    b.resize(32, 0);
    SmcParams { key: 0, data8: 0, key_info, result, bytes: b }
}

fn err(msg: &str) -> Result<(), SmcError> {
    Err(SmcError { kind: SmcErrorKind::Other, message: msg.to_string() })
}

#[test]
fn keys_are_big_endian_codes() {
    assert_eq!(key_code(&CHTE), u32::from_be_bytes(*b"CHTE"));
    assert_eq!(key_code(&CH0C), u32::from_be_bytes(*b"CH0C"));
    assert_eq!(&CHIE, b"CHIE");
    assert_eq!(&CH0J, b"CH0J");
    assert_eq!(&ACLC, b"ACLC");
}

#[test]
fn builds_requests() {
    let p = key_info_request(&CHTE);
    assert_eq!(p.key, 0x43485445);
    assert_eq!(p.data8, K_SMC_GET_KEY_INFO);
    assert_eq!(p.bytes, vec![0u8; 32]);
    let r = read_request(&CHTE, &info(4));
    assert_eq!(r.data8, K_SMC_READ_KEY);
    assert_eq!(r.key_info.data_size, 4);
    let w = write_request(&CH0C, &info(1), &vec![1]).unwrap();
    assert_eq!(w.data8, K_SMC_WRITE_KEY);
    assert_eq!(w.bytes[0], 1);
    assert_eq!(&w.bytes[1..], &[0u8; 31]);
    let too_big = write_request(&CH0C, &info(1), &vec![0; 33]).unwrap_err();
    assert_eq!(too_big.kind, SmcErrorKind::InvalidInput);
    assert_eq!(too_big.message, "Data exceeds 32-byte SMC buffer");
}

#[test]
fn checks_replies() {
    assert_eq!(key_info_from_reply(&CHTE, &reply(0, vec![], info(4))).unwrap().data_size, 4);
    let e = key_info_from_reply(&CHTE, &reply(132, vec![], info(4))).unwrap_err();
    assert_eq!(e.message, "SMC GetKeyInfo for [67, 72, 84, 69] returned error: 132");
    let data = read_data_from_reply(&CHTE, &info(4), &reply(0, vec![1, 2, 3, 4, 5], info(0))).unwrap();
    assert_eq!(data, vec![1, 2, 3, 4]);
    let e = read_data_from_reply(&CHTE, &info(4), &reply(1, vec![], info(0))).unwrap_err();
    assert_eq!(e.message, "SMC ReadKey [67, 72, 84, 69] returned error: 1");
    let e = read_data_from_reply(&CHTE, &info(33), &reply(0, vec![], info(0))).unwrap_err();
    assert_eq!(e.kind, SmcErrorKind::InvalidData);
    assert_eq!(e.message, "SMC key data size 33 exceeds buffer");
    assert!(write_reply_ok(&ACLC, &reply(0, vec![], info(1))).is_ok());
    assert_eq!(
        write_reply_ok(&ACLC, &reply(7, vec![], info(1))).unwrap_err().message,
        "SMC WriteKey [65, 67, 76, 67] returned error: 7"
    );
}

#[test]
fn verifies_writes_by_reading_back() {
    assert!(verify_written(&CHTE, &vec![1, 0, 0, 0], &vec![1, 0, 0, 0]).is_ok());
    let e = verify_written(&CHTE, &vec![1, 0, 0, 0], &vec![0, 0, 0, 0]).unwrap_err();
    assert_eq!(
        e.message,
        "SMC WriteKey [67, 72, 84, 69] verification failed: wrote [1, 0, 0, 0], read [0, 0, 0, 0]"
    );
    assert!(verify_written(&CH0C, &vec![1], &vec![1, 0]).is_err());
    assert_eq!(format!("{:?}", vec![1u8, 0]), "[1, 0]");
}

fn run_probe(available: &[bool; 4]) -> Result<(&'static str, &'static str), String> {
    let mut answers = Vec::new();
    loop {
        match probe_supported(&answers) {
            ProbeStep::Ask(k) => {
                let idx = [CHTE, CH0C, CHIE, CH0J].iter().position(|x| *x == k).unwrap();
                answers.push(available[idx]);
            }
            ProbeStep::Done(r) => return r.map(|k| (k.charge_key, k.adapter_key)).map_err(|e| e.message),
        }
    }
}

#[test]
fn probes_keys_in_order() {
    assert_eq!(run_probe(&[true, true, true, true]), Ok(("CHTE", "CHIE")));
    assert_eq!(run_probe(&[false, true, false, true]), Ok(("CH0C", "CH0J")));
    assert_eq!(run_probe(&[false, false, true, true]), Err("No supported charging key found".to_string()));
    assert_eq!(run_probe(&[true, false, false, false]), Err("No supported adapter key found".to_string()));
}

fn run_write(f: fn(&Vec<Result<(), SmcError>>) -> WriteStep, results: &[bool]) -> (Vec<([u8; 4], Vec<u8>)>, bool) {
    let mut outcomes = Vec::new();
    let mut writes = Vec::new();
    loop {
        match f(&outcomes) {
            WriteStep::Write(w) => {
                let ok = results[writes.len()];
                writes.push((w.key, w.data));
                outcomes.push(if ok { Ok(()) } else { err("busy") });
            }
            WriteStep::Done(r) => return (writes, r.is_ok()),
        }
    }
}

#[test]
fn charging_writes_fall_back() {
    assert_eq!(run_write(disable_charging, &[true]), (vec![(CHTE, vec![1, 0, 0, 0])], true));
    assert_eq!(
        run_write(disable_charging, &[false, true]),
        (vec![(CHTE, vec![1, 0, 0, 0]), (CH0C, vec![1])], true)
    );
    assert_eq!(
        run_write(enable_charging, &[false, false]),
        (vec![(CHTE, vec![0, 0, 0, 0]), (CH0C, vec![0])], false)
    );
    assert_eq!(run_write(disable_adapter, &[false, true]), (vec![(CHIE, vec![8]), (CH0J, vec![0x20])], true));
    assert_eq!(run_write(enable_adapter, &[true]), (vec![(CHIE, vec![0])], true));
    let led = set_magsafe_led(3);
    assert_eq!((led.key, led.data), (ACLC, vec![3]));
}

#[test]
fn fallback_failure_keeps_error() {
    let outcomes = vec![err("first"), err("second")];
    match disable_charging(&outcomes) {
        WriteStep::Done(Err(e)) => assert_eq!(e.message, "second"),
        _ => panic!("expected the fallback's error"),
    }
}

#[test]
fn opens_only_on_macos() {
    let e = SmcHandle::open(None).err().unwrap();
    assert_eq!(e.kind, SmcErrorKind::Unsupported);
    assert_eq!(e.message, "SMC is only available on macOS");
    assert_eq!(SmcHandle::open(Some(Ok(7))).ok().unwrap().connect, 7);
    let h = SmcHandle { connect: 1 };
    assert_eq!(h.get_key_info(&CHTE).data8, K_SMC_GET_KEY_INFO);
    assert_eq!(h.read_key(&CHTE, &info(4)).data8, K_SMC_READ_KEY);
    let (w, first) = h.write_key(&CHTE, &vec![0; 4]);
    assert_eq!(first.data8, K_SMC_GET_KEY_INFO);
    assert_eq!(w.stage, WriteStage::AwaitInfo);
}

fn call_of(step: KeyStep) -> SmcParams {
    match step {
        KeyStep::Call(p) => p,
        KeyStep::Done(r) => panic!("finished early: {:?}", r),
    }
}

#[test]
fn key_writer_checks_by_reading_back() {
    let (mut w, first) = KeyWriter::start(CH0C, vec![0x02]);
    assert_eq!(first.data8, K_SMC_GET_KEY_INFO);
    assert_eq!(first.key, key_code(&CH0C));
    let write = call_of(w.resume(Ok(reply(0, vec![], info(1)))));
    assert_eq!(write.data8, K_SMC_WRITE_KEY);
    assert_eq!(write.bytes[0], 0x02);
    assert_eq!(w.stage, WriteStage::AwaitWrite);
    let read_info = call_of(w.resume(Ok(reply(0, vec![], info(1)))));
    assert_eq!(read_info.data8, K_SMC_GET_KEY_INFO);
    let read = call_of(w.resume(Ok(reply(0, vec![], info(1)))));
    assert_eq!(read.data8, K_SMC_READ_KEY);
    assert!(matches!(w.resume(Ok(reply(0, vec![0x02], info(1)))), KeyStep::Done(Ok(()))));
    assert_eq!(w.stage, WriteStage::Finished);
}

#[test]
fn key_writer_reports_failures() {
    let (mut w, _) = KeyWriter::start(CH0C, vec![0x02]);
    call_of(w.resume(Ok(reply(0, vec![], info(1)))));
    call_of(w.resume(Ok(reply(0, vec![], info(1)))));
    call_of(w.resume(Ok(reply(0, vec![], info(1)))));
    match w.resume(Ok(reply(0, vec![0x00], info(1)))) {
        KeyStep::Done(Err(e)) => assert_eq!(
            e.message,
            "SMC WriteKey [67, 72, 48, 67] verification failed: wrote [2], read [0]"
        ),
        other => panic!("unexpected {:?}", other),
    }
    let (mut w, _) = KeyWriter::start(CHTE, vec![0; 33]);
    match w.resume(Ok(reply(0, vec![], info(4)))) {
        KeyStep::Done(Err(e)) => {
            assert_eq!(e.kind, SmcErrorKind::InvalidInput);
            assert_eq!(e.message, "Data exceeds 32-byte SMC buffer");
        }
        other => panic!("unexpected {:?}", other),
    }
    let (mut w, _) = KeyWriter::start(CHTE, vec![0; 4]);
    call_of(w.resume(Ok(reply(0, vec![], info(4)))));
    match w.resume(Ok(reply(0x84, vec![], info(4)))) {
        KeyStep::Done(Err(e)) => assert_eq!(e.message, "SMC WriteKey [67, 72, 84, 69] returned error: 132"),
        other => panic!("unexpected {:?}", other),
    }
    let (mut w, _) = KeyWriter::start(CHTE, vec![0; 4]);
    let failed = Err(SmcError { kind: SmcErrorKind::Other, message: "IOConnectCallStructMethod failed: 0x1".to_string() });
    match w.resume(failed) {
        KeyStep::Done(Err(e)) => assert_eq!(e.message, "IOConnectCallStructMethod failed: 0x1"),
        other => panic!("unexpected {:?}", other),
    }
}
