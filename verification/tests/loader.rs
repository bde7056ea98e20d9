use com_calculator::loader::{
    get_module_path, module_path_buffer, ModulePathStep, INITIAL_PATH_UNITS,
};

#[test]
fn first_buffer_is_1024_zeros() {
    let buffer = module_path_buffer();
    assert_eq!(INITIAL_PATH_UNITS, 1024);
    assert_eq!(buffer.len(), 1024);
    assert!(buffer.iter().all(|unit| *unit == 0));
}

#[test]
fn zero_units_written_is_failure() {
    assert_eq!(get_module_path(vec![7, 7, 7, 7], 0), ModulePathStep::Failed);
    assert_eq!(get_module_path(vec![], 0), ModulePathStep::Failed);
    assert_eq!(get_module_path(module_path_buffer(), 0), ModulePathStep::Failed);
}

#[test]
fn path_is_cut_behind_its_terminator() {
    let buffer = vec![67, 58, 92, 97, 0, 0, 0, 0];
    assert_eq!(
        get_module_path(buffer, 4),
        ModulePathStep::Resolved(vec![67, 58, 92, 97, 0])
    );
    assert_eq!(
        get_module_path(vec![1, 2, 3, 4], 3),
        ModulePathStep::Resolved(vec![1, 2, 3, 4])
    );
    assert_eq!(get_module_path(vec![1, 2, 3, 4], 1), ModulePathStep::Resolved(vec![1, 2]));
}

#[test]
fn full_buffer_is_doubled() {
    assert_eq!(
        get_module_path(vec![1, 2, 3, 4], 4),
        ModulePathStep::Retry(vec![1, 2, 3, 4, 0, 0, 0, 0])
    );
    match get_module_path(module_path_buffer(), 1024) {
        ModulePathStep::Retry(larger) => assert_eq!(larger, vec![0u16; 2048]),
        other => panic!("{:?}", other),
    }
}

#[test]
fn more_written_than_offered_keeps_the_buffer() {
    assert_eq!(
        get_module_path(vec![1, 2, 3, 4], 9),
        ModulePathStep::Resolved(vec![1, 2, 3, 4])
    );
    assert_eq!(get_module_path(vec![], 3), ModulePathStep::Resolved(vec![]));
    assert_eq!(
        get_module_path(vec![5], u32::MAX),
        ModulePathStep::Resolved(vec![5])
    );
}

#[test]
fn growth_ends_once_the_path_fits() {
    let path: Vec<u16> = (0..3000).map(|i| 65 + (i % 26) as u16).collect();
    let mut buffer = module_path_buffer();
    let mut calls = 0;
    let resolved = loop {
        calls += 1;
        let written = path.len().min(buffer.len());
        buffer[..written].copy_from_slice(&path[..written]);
        match get_module_path(buffer, written as u32) {
            ModulePathStep::Resolved(found) => break found,
            ModulePathStep::Retry(larger) => buffer = larger,
            ModulePathStep::Failed => panic!("failed"),
        }
    };
    assert_eq!(calls, 3);
    assert_eq!(resolved.len(), 3001);
    assert_eq!(&resolved[..3000], &path[..]);
    assert_eq!(resolved[3000], 0);
}
