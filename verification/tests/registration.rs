use com_calculator::error::{ErrorKind, E_FAIL, S_OK};
use com_calculator::export::{DllRegisterServer, DllUnregisterServer};
use com_calculator::registration::RegistryKey::{
    ClassId, ClassIdProgram, InprocServer, ProgramId, ProgramIdClass,
};
use com_calculator::registration::{
    JobKind, KeyParent, RegistryAction, RegistryEvent, RegistryJob, RegistryKey, ValueContent,
    ValueData, ValueName, DESCRIPTION, ERROR_SUCCESS, THREADING_MODEL,
};

fn module_units() -> Vec<u16> {
    let mut units: Vec<u16> = "C:\\srv\\calc.dll".encode_utf16().collect();
    units.push(0);
    units
}

fn register_script() -> Vec<RegistryAction> {
    vec![
        RegistryAction::CreateKey { parent: KeyParent::ClassesRoot, key: RegistryKey::ProgramId },
        RegistryAction::SetValue {
            key: RegistryKey::ProgramId,
            name: ValueName::Default,
            data: ValueData::Description,
        },
        RegistryAction::CreateKey {
            parent: KeyParent::Key(RegistryKey::ProgramId),
            key: RegistryKey::ProgramIdClass,
        },
        RegistryAction::SetValue {
            key: RegistryKey::ProgramIdClass,
            name: ValueName::Default,
            data: ValueData::ClassId,
        },
        RegistryAction::CloseKey { key: RegistryKey::ProgramIdClass },
        RegistryAction::CloseKey { key: RegistryKey::ProgramId },
        RegistryAction::CreateKey { parent: KeyParent::ClassesRoot, key: RegistryKey::ClassId },
        RegistryAction::SetValue {
            key: RegistryKey::ClassId,
            name: ValueName::Default,
            data: ValueData::Description,
        },
        RegistryAction::CreateKey {
            parent: KeyParent::Key(RegistryKey::ClassId),
            key: RegistryKey::ClassIdProgram,
        },
        RegistryAction::SetValue {
            key: RegistryKey::ClassIdProgram,
            name: ValueName::Default,
            data: ValueData::ProgramId,
        },
        RegistryAction::CreateKey {
            parent: KeyParent::Key(RegistryKey::ClassId),
            key: RegistryKey::InprocServer,
        },
        RegistryAction::ResolveModulePath,
        RegistryAction::SetValue {
            key: RegistryKey::InprocServer,
            name: ValueName::Default,
            data: ValueData::ModulePath,
        },
        RegistryAction::SetValue {
            key: RegistryKey::InprocServer,
            name: ValueName::ThreadingModel,
            data: ValueData::ThreadingModel,
        },
        RegistryAction::CloseKey { key: RegistryKey::InprocServer },
        RegistryAction::CloseKey { key: RegistryKey::ClassIdProgram },
        RegistryAction::CloseKey { key: RegistryKey::ClassId },
    ]
}

/// The report that answers a request with success.
fn success_for(action: RegistryAction) -> RegistryEvent {
    match action {
        RegistryAction::ResolveModulePath => RegistryEvent::ModulePath(module_units()),
        _ => RegistryEvent::Status(ERROR_SUCCESS),
    }
}

/// The report that answers a request with failure.
fn failure_for(action: RegistryAction) -> RegistryEvent {
    match action {
        RegistryAction::ResolveModulePath => RegistryEvent::ModulePathUnavailable,
        _ => RegistryEvent::Status(5),
    }
}

/// Runs a job, failing the request at `fail_at` if there is one, and returns
/// every request issued, the closing one included.
fn drive(mut job: RegistryJob, fail_at: Option<usize>) -> Vec<RegistryAction> {
    let mut issued = vec![job.pending()];
    let mut place = 0;
    while !matches!(issued[issued.len() - 1], RegistryAction::Return { .. }) {
        let action = issued[issued.len() - 1];
        let event = if fail_at == Some(place) { failure_for(action) } else { success_for(action) };
        issued.push(job.advance(event));
        place += 1;
        assert!(place <= 40);
    }
    issued
}

#[test]
fn registration_follows_the_script() {
    let issued = drive(DllRegisterServer(), None);
    let mut expected = register_script();
    expected.push(RegistryAction::Return { status: S_OK });
    assert_eq!(issued, expected);
}

#[test]
fn registration_starts_with_the_program_id_key() {
    let job = DllRegisterServer();
    assert_eq!(
        job.pending(),
        RegistryAction::CreateKey { parent: KeyParent::ClassesRoot, key: RegistryKey::ProgramId }
    );
    let same = RegistryJob::begin(JobKind::Register);
    assert_eq!(same.pending(), job.pending());
}

#[test]
fn failure_closes_the_open_keys_and_fails() {
    let closed: [(usize, Vec<RegistryKey>); 12] = [
        (0, vec![]),
        (1, vec![ProgramId]),
        (2, vec![ProgramId]),
        (3, vec![ProgramIdClass, ProgramId]),
        (6, vec![]),
        (7, vec![ClassId]),
        (8, vec![ClassId]),
        (9, vec![ClassIdProgram, ClassId]),
        (10, vec![ClassIdProgram, ClassId]),
        (11, vec![InprocServer, ClassIdProgram, ClassId]),
        (12, vec![InprocServer, ClassIdProgram, ClassId]),
        (13, vec![InprocServer, ClassIdProgram, ClassId]),
    ];
    let script = register_script();
    for (place, keys) in closed {
        let issued = drive(DllRegisterServer(), Some(place));
        let mut expected: Vec<RegistryAction> = script[..=place].to_vec();
        for key in keys {
            expected.push(RegistryAction::CloseKey { key });
        }
        expected.push(RegistryAction::Return { status: E_FAIL });
        assert_eq!(issued, expected, "failure at {}", place);
    }
}

#[test]
fn a_failed_close_does_not_fail_the_run() {
    for place in [4usize, 5, 14, 15, 16] {
        let mut job = DllRegisterServer();
        let mut issued = vec![job.pending()];
        for step in 0..17 {
            let action = issued[issued.len() - 1];
            let event = if step == place { RegistryEvent::Status(6) } else { success_for(action) };
            issued.push(job.advance(event));
        }
        let mut expected = register_script();
        expected.push(RegistryAction::Return { status: S_OK });
        assert_eq!(issued, expected);
    }
}

#[test]
fn any_nonzero_status_is_a_failure() {
    for status in [1u32, 2, 5, 87, 0x8000_0000, u32::MAX] {
        let mut job = DllRegisterServer();
        assert_eq!(
            job.advance(RegistryEvent::Status(status)),
            RegistryAction::Return { status: E_FAIL }
        );
    }
}

#[test]
fn a_report_of_the_wrong_sort_is_a_failure() {
    let mut job = DllRegisterServer();
    assert_eq!(
        job.advance(RegistryEvent::ModulePath(module_units())),
        RegistryAction::Return { status: E_FAIL }
    );
    let mut job = DllRegisterServer();
    assert_eq!(
        job.advance(RegistryEvent::ModulePathUnavailable),
        RegistryAction::Return { status: E_FAIL }
    );
    let mut job = DllRegisterServer();
    for _ in 0..11 {
        let action = job.pending();
        job.advance(success_for(action));
    }
    assert_eq!(job.pending(), RegistryAction::ResolveModulePath);
    assert_eq!(
        job.advance(RegistryEvent::Status(ERROR_SUCCESS)),
        RegistryAction::CloseKey { key: RegistryKey::InprocServer }
    );
}

#[test]
fn a_finished_run_stays_finished() {
    let mut job = DllRegisterServer();
    let issued = drive(DllRegisterServer(), None);
    for action in &issued[..issued.len() - 1] {
        job.advance(success_for(*action));
    }
    let done = RegistryAction::Return { status: S_OK };
    assert_eq!(job.pending(), done);
    assert_eq!(job.advance(RegistryEvent::Status(5)), done);
    assert_eq!(job.advance(RegistryEvent::ModulePathUnavailable), done);
    assert_eq!(job.pending(), done);

    let mut failed = DllUnregisterServer();
    let over = RegistryAction::Return { status: E_FAIL };
    failed.advance(RegistryEvent::Status(2));
    assert_eq!(failed.advance(RegistryEvent::Status(ERROR_SUCCESS)), over);
    assert_eq!(failed.advance(RegistryEvent::Status(ERROR_SUCCESS)), over);
    assert_eq!(failed.pending(), over);
}

#[test]
fn unregistration_deletes_both_keys() {
    let issued = drive(DllUnregisterServer(), None);
    assert_eq!(
        issued,
        vec![
            RegistryAction::DeleteKey { key: RegistryKey::ProgramId },
            RegistryAction::DeleteKey { key: RegistryKey::ClassId },
            RegistryAction::Return { status: S_OK },
        ]
    );
}

#[test]
fn unregistration_carries_out_both_deletions_whatever_fails() {
    let both = [
        RegistryAction::DeleteKey { key: RegistryKey::ProgramId },
        RegistryAction::DeleteKey { key: RegistryKey::ClassId },
    ];
    let absent = 2;
    for (first, second, status) in [
        (ERROR_SUCCESS, ERROR_SUCCESS, S_OK),
        (absent, ERROR_SUCCESS, E_FAIL),
        (ERROR_SUCCESS, absent, E_FAIL),
        (absent, absent, E_FAIL),
        (5, 87, E_FAIL),
    ] {
        let mut job = DllUnregisterServer();
        assert_eq!(job.pending(), both[0]);
        assert_eq!(job.outcome(), None);
        assert_eq!(job.advance(RegistryEvent::Status(first)), both[1]);
        assert_eq!(job.outcome(), None);
        assert_eq!(
            job.advance(RegistryEvent::Status(second)),
            RegistryAction::Return { status }
        );
        let expected = if status == S_OK {
            Ok(())
        } else {
            Err(ErrorKind::RegistryOperationFailed)
        };
        assert_eq!(job.outcome(), Some(expected));
    }
    assert_eq!(
        drive(DllUnregisterServer(), Some(0)),
        vec![both[0], both[1], RegistryAction::Return { status: E_FAIL }]
    );
    assert_eq!(
        drive(DllUnregisterServer(), Some(1)),
        vec![both[0], both[1], RegistryAction::Return { status: E_FAIL }]
    );
}

#[test]
fn a_run_ends_as_a_failed_registry_operation_or_in_success() {
    let mut job = DllRegisterServer();
    assert_eq!(job.outcome(), None);
    job.advance(RegistryEvent::Status(ERROR_SUCCESS));
    assert_eq!(job.outcome(), None);
    job.advance(RegistryEvent::Status(5));
    assert_eq!(job.pending(), RegistryAction::CloseKey { key: RegistryKey::ProgramId });
    assert_eq!(job.outcome(), None);
    assert_eq!(
        job.advance(RegistryEvent::Status(ERROR_SUCCESS)),
        RegistryAction::Return { status: ErrorKind::RegistryOperationFailed.status() }
    );
    assert_eq!(job.outcome(), Some(Err(ErrorKind::RegistryOperationFailed)));

    let mut job = DllRegisterServer();
    while !matches!(job.pending(), RegistryAction::Return { .. }) {
        let action = job.pending();
        job.advance(success_for(action));
    }
    assert_eq!(job.outcome(), Some(Ok(())));
}

#[test]
fn key_paths() {
    assert_eq!(RegistryKey::ProgramId.subkey(), "Calculator.Basic");
    assert_eq!(RegistryKey::ProgramIdClass.subkey(), "CLSID");
    assert_eq!(
        RegistryKey::ClassId.subkey(),
        "CLSID\\{8E7E4B8A-E909-4A03-ACDC-4FB03C8C2182}"
    );
    assert_eq!(RegistryKey::ClassIdProgram.subkey(), "ProgID");
    assert_eq!(RegistryKey::InprocServer.subkey(), "InprocServer32");
}

#[test]
fn value_names() {
    assert_eq!(ValueName::Default.text(), None);
    assert_eq!(ValueName::ThreadingModel.text(), Some("ThreadingModel".to_string()));
}

#[test]
fn content_of_the_fixed_values() {
    let job = DllRegisterServer();
    assert_eq!(DESCRIPTION, "Rust Calculator COM Object");
    assert_eq!(THREADING_MODEL, "Both");
    assert_eq!(
        job.value_content(ValueData::Description),
        ValueContent::Bytes(b"Rust Calculator COM Object".to_vec())
    );
    assert_eq!(
        job.value_content(ValueData::ClassId),
        ValueContent::Bytes(b"{8E7E4B8A-E909-4A03-ACDC-4FB03C8C2182}".to_vec())
    );
    assert_eq!(
        job.value_content(ValueData::ProgramId),
        ValueContent::Bytes(b"Calculator.Basic".to_vec())
    );
    assert_eq!(job.value_content(ValueData::ThreadingModel), ValueContent::Bytes(b"Both".to_vec()));
    assert_eq!(job.value_content(ValueData::ModulePath), ValueContent::Units(vec![]));
}

/// A registration that has just been told the module's path.
fn job_with_path(units: Vec<u16>) -> RegistryJob {
    let mut job = DllRegisterServer();
    for _ in 0..11 {
        let action = job.pending();
        job.advance(success_for(action));
    }
    assert_eq!(job.pending(), RegistryAction::ResolveModulePath);
    let next = job.advance(RegistryEvent::ModulePath(units));
    assert_eq!(
        next,
        RegistryAction::SetValue {
            key: RegistryKey::InprocServer,
            name: ValueName::Default,
            data: ValueData::ModulePath,
        }
    );
    job
}

#[test]
fn module_path_value_is_the_path_unit_for_unit() {
    let units = vec![0x43, 0x3a, 0x5c, 0x0141, 0x20ac, 0xd83d, 0xde00, 0];
    let job = job_with_path(units.clone());
    assert_eq!(job.value_content(ValueData::ModulePath), ValueContent::Units(units));
    let job = job_with_path(module_units());
    assert_eq!(job.value_content(ValueData::ModulePath), ValueContent::Units(module_units()));
}

#[test]
fn paths_that_differ_above_the_low_byte_are_stored_apart() {
    let wide = job_with_path(vec![0x43, 0x3a, 0x5c, 0x0141, 0]);
    let plain = job_with_path(vec![0x43, 0x3a, 0x5c, 0x41, 0]);
    assert_ne!(
        wide.value_content(ValueData::ModulePath),
        plain.value_content(ValueData::ModulePath)
    );
}

#[test]
fn module_path_is_kept_to_the_end_of_the_run() {
    let mut job = job_with_path(module_units());
    while !matches!(job.pending(), RegistryAction::Return { .. }) {
        let action = job.pending();
        job.advance(success_for(action));
    }
    assert_eq!(job.pending(), RegistryAction::Return { status: S_OK });
    assert_eq!(job.value_content(ValueData::ModulePath), ValueContent::Units(module_units()));
}
