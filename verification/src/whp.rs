//! The partition and virtual-processor lifecycle.
//!
//! Every operation of the platform answers with a status code. The
//! functions here take that answer as a plain value, translate it into a
//! typed result exactly as the platform defined it, and keep a ghost
//! record of what the platform has acknowledged so far.

use vstd::prelude::*;
use crate::common_defs::{HRESULT, S_OK, UINT32};
use crate::win_hv_platform_defs::{
    WHV_CAPABILITY, WHV_CAPABILITY_CODE, WHV_PARTITION_HANDLE, WHV_PARTITION_PROPERTY,
    WHV_PARTITION_PROPERTY_CODE, WHV_REGISTER_NAME, WHV_REGISTER_VALUE,
    WHV_RUN_VP_EXIT_CONTEXT,
};

verus! {

/// Translates a platform status code into a typed result: `S_OK` is
/// success, and any other code is handed back unchanged as the error.
pub fn check_result(res: HRESULT) -> (r: Result<(), HRESULT>)
    ensures
        r is Ok <==> res == S_OK,
        r matches Err(e) ==> e == res,
{
    if res == S_OK {
        Ok(())
    } else {
        Err(res)
    }
}

/// Answers a capability query: on `S_OK` the capability value the
/// platform wrote is handed to the caller, and any other status comes
/// back as the error. The capability code names what was asked; the
/// platform alone decides the answer.
pub fn get_capability(
    capability_code: WHV_CAPABILITY_CODE,
    status: HRESULT,
    capability: WHV_CAPABILITY,
) -> (r: Result<WHV_CAPABILITY, HRESULT>)
    ensures
        r is Ok <==> status == S_OK,
        r matches Ok(c) ==> c == capability,
        r matches Err(e) ==> e == status,
{
    let _ = capability_code;
    check_result(status)?;
    Ok(capability)
}

/// What a partition looks like in contracts: the platform's token for it,
/// and the requests the platform has acknowledged through this handle.
pub struct PartitionView {
    /// The platform's token for the partition.
    pub handle: WHV_PARTITION_HANDLE,
    /// For each property code, the last value whose setting the platform
    /// acknowledged with `S_OK`.
    pub properties: Map<WHV_PARTITION_PROPERTY_CODE, WHV_PARTITION_PROPERTY>,
    /// Whether the platform has acknowledged moving the partition out of
    /// its configuration stage.
    pub set_up: bool,
    /// The indices whose virtual-processor creation the platform has
    /// acknowledged through this handle.
    pub created_vps: Set<UINT32>,
}

/// A partition of the host platform, held by the token the platform
/// handed out when it was created.
pub struct Partition {
    partition: WHV_PARTITION_HANDLE,
    properties: Ghost<Map<WHV_PARTITION_PROPERTY_CODE, WHV_PARTITION_PROPERTY>>,
    set_up: Ghost<bool>,
    created_vps: Ghost<Set<UINT32>>,
}

impl View for Partition {
    type V = PartitionView;

    closed spec fn view(&self) -> PartitionView {
        PartitionView {
            handle: self.partition,
            properties: self.properties@,
            set_up: self.set_up@,
            created_vps: self.created_vps@,
        }
    }
}

impl Partition {
    /// Takes the platform's answer to a creation request: on `S_OK` the
    /// token the platform wrote becomes a fresh partition with nothing
    /// acknowledged yet, and any other status comes back as the error.
    pub fn new(status: HRESULT, partition: WHV_PARTITION_HANDLE) -> (r: Result<
        Partition,
        HRESULT,
    >)
        ensures
            r is Ok <==> status == S_OK,
            r matches Ok(p) ==> p@ == (PartitionView {
                handle: partition,
                properties: Map::<WHV_PARTITION_PROPERTY_CODE, WHV_PARTITION_PROPERTY>::empty(),
                set_up: false,
                created_vps: Set::<UINT32>::empty(),
            }),
            r matches Err(e) ==> e == status,
    {
        check_result(status)?;
        Ok(
            Partition {
                partition,
                properties: Ghost(Map::empty()),
                set_up: Ghost(false),
                created_vps: Ghost(Set::empty()),
            },
        )
    }

    /// The platform's token for this partition, for placing requests.
    pub fn handle(&self) -> (h: WHV_PARTITION_HANDLE)
        ensures
            h == self@.handle,
    {
        self.partition
    }

    /// Takes the platform's answer to setting one property: on `S_OK` the
    /// value is recorded as the acknowledged one for its code, and any
    /// other status comes back as the error with nothing recorded.
    pub fn set_property(
        &mut self,
        property_code: WHV_PARTITION_PROPERTY_CODE,
        property: &WHV_PARTITION_PROPERTY,
        status: HRESULT,
    ) -> (r: Result<(), HRESULT>)
        ensures
            r is Ok <==> status == S_OK,
            r matches Err(e) ==> e == status,
            r is Ok ==> final(self)@ == (PartitionView {
                properties: old(self)@.properties.insert(property_code, *property),
                ..old(self)@
            }),
            r is Err ==> final(self)@ == old(self)@,
    {
        check_result(status)?;
        self.properties = Ghost(self.properties@.insert(property_code, *property));
        Ok(())
    }

    /// Answers a property query: on `S_OK` the value the platform wrote
    /// for the queried code is handed to the caller, and any other status
    /// comes back as the error. The platform alone decides the answer;
    /// the partition itself is left as it was.
    pub fn get_property(
        &mut self,
        property_code: WHV_PARTITION_PROPERTY_CODE,
        status: HRESULT,
        property: WHV_PARTITION_PROPERTY,
    ) -> (r: Result<WHV_PARTITION_PROPERTY, HRESULT>)
        ensures
            final(self)@ == old(self)@,
            r is Ok <==> status == S_OK,
            r matches Ok(p) ==> p == property,
            r matches Err(e) ==> e == status,
    {
        let _ = property_code;
        check_result(status)?;
        Ok(property)
    }

    /// Takes the platform's answer to a set-up request: on `S_OK` the
    /// partition is recorded as set up, with its acknowledged properties
    /// kept, and any other status comes back as the error with nothing
    /// recorded.
    pub fn setup(&mut self, status: HRESULT) -> (r: Result<(), HRESULT>)
        ensures
            r is Ok <==> status == S_OK,
            r matches Err(e) ==> e == status,
            r is Ok ==> final(self)@ == (PartitionView { set_up: true, ..old(self)@ }),
            r is Err ==> final(self)@ == old(self)@,
    {
        check_result(status)?;
        self.set_up = Ghost(true);
        Ok(())
    }

    /// Takes the platform's answer to creating a virtual processor with
    /// the given index: on `S_OK` the index is recorded as created and a
    /// processor bound to this partition's token is handed out, with no
    /// register write acknowledged yet; any other status comes back as
    /// the error with nothing recorded.
    pub fn create_virtual_processor(&mut self, index: UINT32, status: HRESULT) -> (r: Result<
        VirtualProcessor,
        HRESULT,
    >)
        ensures
            r is Ok <==> status == S_OK,
            r matches Err(e) ==> e == status,
            r is Ok ==> final(self)@ == (PartitionView {
                created_vps: old(self)@.created_vps.insert(index),
                ..old(self)@
            }),
            r matches Ok(vp) ==> vp@ == (VirtualProcessorView {
                partition: old(self)@.handle,
                index: index,
                registers_set: Map::<WHV_REGISTER_NAME, WHV_REGISTER_VALUE>::empty(),
            }),
            r is Err ==> final(self)@ == old(self)@,
    {
        check_result(status)?;
        self.created_vps = Ghost(self.created_vps@.insert(index));
        Ok(
            VirtualProcessor {
                partition: self.partition,
                index,
                registers_set: Ghost(Map::empty()),
            },
        )
    }
}

/// What a virtual processor looks like in contracts: which partition it
/// belongs to, its index, and the register writes the platform has
/// acknowledged through it.
pub struct VirtualProcessorView {
    /// The token of the partition the processor was created in.
    pub partition: WHV_PARTITION_HANDLE,
    /// The index the processor was created with.
    pub index: UINT32,
    /// For each register name, the last value whose setting the platform
    /// acknowledged with `S_OK`.
    pub registers_set: Map<WHV_REGISTER_NAME, WHV_REGISTER_VALUE>,
}

/// A virtual processor of one partition, named towards the platform by
/// the partition's token and the processor's index.
pub struct VirtualProcessor {
    partition: WHV_PARTITION_HANDLE,
    index: UINT32,
    registers_set: Ghost<Map<WHV_REGISTER_NAME, WHV_REGISTER_VALUE>>,
}

impl View for VirtualProcessor {
    type V = VirtualProcessorView;

    closed spec fn view(&self) -> VirtualProcessorView {
        VirtualProcessorView {
            partition: self.partition,
            index: self.index,
            registers_set: self.registers_set@,
        }
    }
}

/// Records a batch of register writes in order: each name is mapped to
/// its value, and a name written twice keeps the later value.
pub open spec fn write_registers(
    regs: Map<WHV_REGISTER_NAME, WHV_REGISTER_VALUE>,
    names: Seq<WHV_REGISTER_NAME>,
    values: Seq<WHV_REGISTER_VALUE>,
) -> Map<WHV_REGISTER_NAME, WHV_REGISTER_VALUE>
    recommends
        names.len() == values.len(),
    decreases names.len(),
{
    if names.len() == 0 {
        regs
    } else {
        write_registers(regs.insert(names[0], values[0]), names.skip(1), values.skip(1))
    }
}

impl VirtualProcessor {
    /// The token of the partition this processor was created in, for
    /// placing requests.
    pub fn partition_handle(&self) -> (h: WHV_PARTITION_HANDLE)
        ensures
            h == self@.partition,
    {
        self.partition
    }

    /// The index this processor was created with, for placing requests.
    pub fn index(&self) -> (i: UINT32)
        ensures
            i == self@.index,
    {
        self.index
    }

    /// Takes the platform's answer to running this processor: on `S_OK`
    /// the exit context the platform wrote is handed to the caller, and
    /// any other status comes back as the error. The processor itself is
    /// left as it was.
    pub fn run(&mut self, status: HRESULT, exit_context: WHV_RUN_VP_EXIT_CONTEXT) -> (r: Result<
        WHV_RUN_VP_EXIT_CONTEXT,
        HRESULT,
    >)
        ensures
            final(self)@ == old(self)@,
            r is Ok <==> status == S_OK,
            r matches Ok(c) ==> c == exit_context,
            r matches Err(e) ==> e == status,
    {
        check_result(status)?;
        Ok(exit_context)
    }

    /// Takes the platform's answer to cancelling a run of this processor:
    /// `S_OK` is success, and any other status comes back as the error.
    /// The processor itself is left as it was.
    pub fn cancel_run(&mut self, status: HRESULT) -> (r: Result<(), HRESULT>)
        ensures
            final(self)@ == old(self)@,
            r is Ok <==> status == S_OK,
            r matches Err(e) ==> e == status,
    {
        check_result(status)?;
        Ok(())
    }

    /// Takes the platform's answer to writing a batch of registers, one
    /// value for each name in order: on `S_OK` every pair is recorded as
    /// acknowledged, a repeated name keeping the later value; any other
    /// status comes back as the error with nothing recorded.
    pub fn set_registers(
        &mut self,
        reg_names: &[WHV_REGISTER_NAME],
        reg_values: &[WHV_REGISTER_VALUE],
        status: HRESULT,
    ) -> (r: Result<(), HRESULT>)
        requires
            reg_names@.len() == reg_values@.len(),
        ensures
            r is Ok <==> status == S_OK,
            r matches Err(e) ==> e == status,
            r is Ok ==> final(self)@ == (VirtualProcessorView {
                registers_set: write_registers(
                    old(self)@.registers_set,
                    reg_names@,
                    reg_values@,
                ),
                ..old(self)@
            }),
            r is Err ==> final(self)@ == old(self)@,
    {
        check_result(status)?;
        self.registers_set = Ghost(
            write_registers(self.registers_set@, reg_names@, reg_values@),
        );
        Ok(())
    }

    /// Takes the platform's answer to reading a batch of registers: on
    /// `S_OK` the values the platform wrote, one for each requested name
    /// in order, are copied into the caller's buffer; any other status
    /// comes back as the error with the buffer left as it was. The
    /// processor itself is left as it was.
    pub fn get_registers(
        &mut self,
        reg_names: &[WHV_REGISTER_NAME],
        reg_values: &mut Vec<WHV_REGISTER_VALUE>,
        status: HRESULT,
        fetched: &[WHV_REGISTER_VALUE],
    ) -> (r: Result<(), HRESULT>)
        requires
            old(reg_values)@.len() == reg_names@.len(),
            fetched@.len() == reg_names@.len(),
        ensures
            final(self)@ == old(self)@,
            r is Ok <==> status == S_OK,
            r matches Err(e) ==> e == status,
            r is Ok ==> final(reg_values)@ == fetched@,
            r is Err ==> final(reg_values)@ == old(reg_values)@,
    {
        check_result(status)?;
        let n: usize = fetched.len();
        let mut i: usize = 0;
        while i < n
            invariant
                i <= n,
                n == fetched@.len(),
                reg_values@.len() == n,
                forall|j: int| 0 <= j < i ==> reg_values@[j] == fetched@[j],
            decreases n - i,
        {
            let v: WHV_REGISTER_VALUE = fetched[i];
            reg_values.set(i, v);
            i = i + 1;
        }
        proof {
            assert(reg_values@ =~= fetched@);
        }
        Ok(())
    }
}

} // verus!
