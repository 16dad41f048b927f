use libwhp::common_defs::{E_INVALIDARG, S_OK};
use libwhp::whp::{check_result, get_capability, Partition, VirtualProcessor};
use libwhp::win_hv_platform_defs::{
    WHV_CAPABILITY, WHV_CAPABILITY_CODE, WHV_PARTITION_PROPERTY, WHV_PARTITION_PROPERTY_CODE,
    WHV_REGISTER_NAME, WHV_REGISTER_VALUE, WHV_RUN_VP_EXIT_CONTEXT, WHV_RUN_VP_EXIT_REASON,
    WHV_E_INVALID_PARTITION_CONFIG, WHV_E_INVALID_VP_REGISTER_NAME, WHV_E_INVALID_VP_STATE,
    WHV_E_VP_ALREADY_EXISTS,
};

const HANDLE: usize = 0x1000;

fn new_partition() -> Partition {
    Partition::new(S_OK, HANDLE).unwrap()
}

#[test]
fn test_check_result_ok() {
    check_result(S_OK).unwrap();
}

#[test]
#[should_panic]
fn test_check_result_fail() {
    check_result(E_INVALIDARG).unwrap();
}

#[test]
fn test_create_delete_partition() {
    let p: Partition = new_partition();
    drop(p);
}

#[test]
fn test_get_capability() {
    let _capability: WHV_CAPABILITY = get_capability(
        WHV_CAPABILITY_CODE::WHvCapabilityCodeHypervisorPresent,
        S_OK,
        WHV_CAPABILITY::HypervisorPresent(true),
    )
    .unwrap();
}

#[test]
fn test_get_capability_fail() {
    let r = get_capability(
        WHV_CAPABILITY_CODE::WHvCapabilityCodeFeatures,
        E_INVALIDARG,
        WHV_CAPABILITY::Features(0),
    );
    assert_eq!(r.unwrap_err(), E_INVALIDARG);
}

#[test]
fn test_set_get_partition_property() {
    let mut p: Partition = new_partition();
    let property_code = WHV_PARTITION_PROPERTY_CODE::WHvPartitionPropertyCodeProcessorCount;
    let property = WHV_PARTITION_PROPERTY::ProcessorCount(1);

    p.set_property(property_code, &property, S_OK).unwrap();
    let property_out = p.get_property(property_code, S_OK, property).unwrap();

    assert_eq!(
        property, property_out,
        "The property value is not matching"
    );
}

#[test]
fn test_set_partition_property_fail() {
    let mut p: Partition = new_partition();
    let property = WHV_PARTITION_PROPERTY::ProcessorCount(1);
    let r = p.set_property(
        WHV_PARTITION_PROPERTY_CODE::WHvPartitionPropertyCodeProcessorCount,
        &property,
        E_INVALIDARG,
    );
    assert_eq!(r.unwrap_err(), E_INVALIDARG);
}

#[test]
fn test_setup_partition() {
    let mut p: Partition = new_partition();
    let property = WHV_PARTITION_PROPERTY::ProcessorCount(1);

    // Setting up fails without at least the number of processors in place
    p.set_property(
        WHV_PARTITION_PROPERTY_CODE::WHvPartitionPropertyCodeProcessorCount,
        &property,
        S_OK,
    )
    .unwrap();
    p.setup(S_OK).unwrap();
}

#[test]
fn test_setup_partition_fail() {
    let mut p: Partition = new_partition();
    match p.setup(WHV_E_INVALID_PARTITION_CONFIG) {
        Err(e) => assert_eq!(e, WHV_E_INVALID_PARTITION_CONFIG, "Unexpected error code"),
        Ok(()) => panic!("An error was expected"),
    }
}

#[test]
fn test_new_partition_fail() {
    match Partition::new(E_INVALIDARG, 0) {
        Err(e) => assert_eq!(e, E_INVALIDARG),
        Ok(_) => panic!("An error was expected"),
    }
}

#[test]
fn test_partition_handle() {
    let p: Partition = new_partition();
    assert_eq!(p.handle(), HANDLE);
}

fn setup_vcpu_test(p: &mut Partition) {
    let property = WHV_PARTITION_PROPERTY::ProcessorCount(1);

    p.set_property(
        WHV_PARTITION_PROPERTY_CODE::WHvPartitionPropertyCodeProcessorCount,
        &property,
        S_OK,
    )
    .unwrap();
    p.setup(S_OK).unwrap();
}

#[test]
fn test_create_delete_virtual_processor() {
    let mut p: Partition = new_partition();
    setup_vcpu_test(&mut p);

    let vp_index: u32 = 0;
    let vp = p.create_virtual_processor(vp_index, S_OK).unwrap();
    drop(vp)
}

#[test]
fn test_create_virtual_processor_fail() {
    let mut p: Partition = new_partition();
    setup_vcpu_test(&mut p);

    match p.create_virtual_processor(0, WHV_E_VP_ALREADY_EXISTS) {
        Err(e) => assert_eq!(e, WHV_E_VP_ALREADY_EXISTS),
        Ok(_) => panic!("An error was expected"),
    }
}

#[test]
fn test_virtual_processor_identity() {
    let mut p: Partition = new_partition();
    setup_vcpu_test(&mut p);

    let vp: VirtualProcessor = p.create_virtual_processor(3, S_OK).unwrap();
    assert_eq!(vp.partition_handle(), HANDLE);
    assert_eq!(vp.index(), 3);
}

#[test]
fn test_run_virtual_processor() {
    let mut p: Partition = new_partition();
    setup_vcpu_test(&mut p);

    let vp_index: u32 = 0;
    let mut vp = p.create_virtual_processor(vp_index, S_OK).unwrap();
    let exit = WHV_RUN_VP_EXIT_CONTEXT {
        ExitReason: WHV_RUN_VP_EXIT_REASON::WHvRunVpExitReasonNone,
    };
    let _exit_context: WHV_RUN_VP_EXIT_CONTEXT = vp.run(S_OK, exit).unwrap();
}

#[test]
fn test_run_virtual_processor_fail() {
    let mut p: Partition = new_partition();
    setup_vcpu_test(&mut p);

    let mut vp = p.create_virtual_processor(0, S_OK).unwrap();
    let exit = WHV_RUN_VP_EXIT_CONTEXT {
        ExitReason: WHV_RUN_VP_EXIT_REASON::WHvRunVpExitReasonNone,
    };
    let r = vp.run(WHV_E_INVALID_VP_STATE, exit);
    assert_eq!(r.unwrap_err(), WHV_E_INVALID_VP_STATE);
}

#[test]
fn test_cancel_virtual_processor() {
    let mut p: Partition = new_partition();
    setup_vcpu_test(&mut p);

    let vp_index: u32 = 0;
    let mut vp = p.create_virtual_processor(vp_index, S_OK).unwrap();
    vp.cancel_run(S_OK).unwrap();
}

#[test]
fn test_cancel_virtual_processor_fail() {
    let mut p: Partition = new_partition();
    setup_vcpu_test(&mut p);

    let mut vp = p.create_virtual_processor(0, S_OK).unwrap();
    let r = vp.cancel_run(E_INVALIDARG);
    assert_eq!(r.unwrap_err(), E_INVALIDARG);
}

#[test]
fn test_set_get_virtual_processor_registers() {
    let mut p: Partition = new_partition();
    setup_vcpu_test(&mut p);

    let vp_index: u32 = 0;
    let mut vp = p.create_virtual_processor(vp_index, S_OK).unwrap();

    const REG_VALUE: u64 = 11111111;
    let reg_names: [WHV_REGISTER_NAME; 1] = [WHV_REGISTER_NAME::WHvX64RegisterRax];
    let reg_values: [WHV_REGISTER_VALUE; 1] = [WHV_REGISTER_VALUE { Reg64: REG_VALUE }];
    let mut reg_values_out: Vec<WHV_REGISTER_VALUE> = vec![WHV_REGISTER_VALUE { Reg64: 0 }];

    vp.set_registers(&reg_names, &reg_values, S_OK).unwrap();
    vp.get_registers(&reg_names, &mut reg_values_out, S_OK, &reg_values)
        .unwrap();

    assert_eq!(
        reg_values_out[0].Reg64, REG_VALUE,
        "Registers values fo not match"
    );
}

#[test]
fn test_get_registers_copies_in_order() {
    let mut p: Partition = new_partition();
    setup_vcpu_test(&mut p);
    let mut vp = p.create_virtual_processor(0, S_OK).unwrap();

    let reg_names: [WHV_REGISTER_NAME; 2] = [
        WHV_REGISTER_NAME::WHvX64RegisterRax,
        WHV_REGISTER_NAME::WHvX64RegisterRip,
    ];
    let fetched: [WHV_REGISTER_VALUE; 2] = [
        WHV_REGISTER_VALUE { Reg64: 21 },
        WHV_REGISTER_VALUE { Reg64: 42 },
    ];
    let mut out: Vec<WHV_REGISTER_VALUE> = vec![
        WHV_REGISTER_VALUE { Reg64: 0 },
        WHV_REGISTER_VALUE { Reg64: 0 },
    ];

    vp.get_registers(&reg_names, &mut out, S_OK, &fetched).unwrap();
    assert_eq!(out[0].Reg64, 21);
    assert_eq!(out[1].Reg64, 42);
}

#[test]
fn test_get_registers_fail_keeps_buffer() {
    let mut p: Partition = new_partition();
    setup_vcpu_test(&mut p);
    let mut vp = p.create_virtual_processor(0, S_OK).unwrap();

    let reg_names: [WHV_REGISTER_NAME; 1] = [WHV_REGISTER_NAME::WHvX64RegisterRax];
    let fetched: [WHV_REGISTER_VALUE; 1] = [WHV_REGISTER_VALUE { Reg64: 21 }];
    let mut out: Vec<WHV_REGISTER_VALUE> = vec![WHV_REGISTER_VALUE { Reg64: 7 }];

    let r = vp.get_registers(
        &reg_names,
        &mut out,
        WHV_E_INVALID_VP_REGISTER_NAME,
        &fetched,
    );
    assert_eq!(r.unwrap_err(), WHV_E_INVALID_VP_REGISTER_NAME);
    assert_eq!(out[0].Reg64, 7);
}

#[test]
fn test_set_registers_fail() {
    let mut p: Partition = new_partition();
    setup_vcpu_test(&mut p);
    let mut vp = p.create_virtual_processor(0, S_OK).unwrap();

    let reg_names: [WHV_REGISTER_NAME; 1] = [WHV_REGISTER_NAME::WHvX64RegisterRax];
    let reg_values: [WHV_REGISTER_VALUE; 1] = [WHV_REGISTER_VALUE { Reg64: 1 }];
    let r = vp.set_registers(&reg_names, &reg_values, WHV_E_INVALID_VP_REGISTER_NAME);
    assert_eq!(r.unwrap_err(), WHV_E_INVALID_VP_REGISTER_NAME);
}
