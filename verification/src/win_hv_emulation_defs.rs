//! Typed models of the instruction-emulator exchange records, and the
//! layout arithmetic that pins down their size on the platform's side.

use vstd::prelude::*;
use crate::common_defs::{UINT8, UINT16, UINT32};
use crate::win_hv_platform_defs::WHV_GUEST_PHYSICAL_ADDRESS;

verus! {

pub type WHV_EMULATOR_STATUS = UINT32;

/// One emulated access to guest-physical memory, as the emulator reports
/// it to the memory callback.
#[derive(Copy, Clone)]
pub struct WHV_EMULATOR_MEMORY_ACCESS_INFO {
    pub GpaAddress: WHV_GUEST_PHYSICAL_ADDRESS,
    pub Direction: UINT8,
    pub AccessSize: UINT8,
    pub Data: [UINT8; 8],
}

/// One emulated port access, as the emulator reports it to the
/// input/output callback.
#[derive(Copy, Clone)]
pub struct WHV_EMULATOR_IO_ACCESS_INFO {
    pub Direction: UINT8,
    pub Port: UINT16,
    pub AccessSize: UINT16,
    pub Data: UINT32,
}

/// Rounds `n` up to the next multiple of `a`.
pub open spec fn spec_align_up(n: nat, a: nat) -> nat
    recommends
        a > 0,
{
    if n % a == 0 {
        n
    } else {
        (n + (a - n % a)) as nat
    }
}

/// The offset just past the last field when fields, given as
/// (size, alignment) pairs, are laid out in order by the platform's
/// rules: each field starts at its offset rounded up to its alignment.
pub open spec fn spec_fields_end(fields: Seq<(u32, u32)>) -> nat
    decreases fields.len(),
{
    if fields.len() == 0 {
        0
    } else {
        spec_align_up(spec_fields_end(fields.drop_last()), fields.last().1 as nat)
            + fields.last().0 as nat
    }
}

/// The alignment of a record with the given fields: the largest field
/// alignment, and one for a record without fields.
pub open spec fn spec_record_align(fields: Seq<(u32, u32)>) -> nat
    decreases fields.len(),
{
    if fields.len() == 0 {
        1
    } else {
        let rest = spec_record_align(fields.drop_last());
        if fields.last().1 as nat > rest {
            fields.last().1 as nat
        } else {
            rest
        }
    }
}

/// The size of a record with the given fields: the end of its last field,
/// rounded up to the record's alignment.
pub open spec fn spec_record_size(fields: Seq<(u32, u32)>) -> nat {
    spec_align_up(spec_fields_end(fields), spec_record_align(fields))
}

/// Rounds `n` up to the next multiple of `a`.
pub fn align_up(n: u32, a: u32) -> (r: u32)
    requires
        a > 0,
        n + a <= u32::MAX,
    ensures
        r as nat == spec_align_up(n as nat, a as nat),
{
    let rem: u32 = n % a;
    if rem == 0 {
        n
    } else {
        n + (a - rem)
    }
}

/// Lays the fields, given as (size, alignment) pairs, out in order and
/// returns the size of the resulting record.
pub fn record_size(fields: &Vec<(u32, u32)>) -> (r: u32)
    requires
        fields@.len() <= 64,
        forall|i: int|
            0 <= i < fields@.len() ==> 0 < (#[trigger] fields@[i]).1 <= 4096 && fields@[i].0
                <= 4096,
    ensures
        r as nat == spec_record_size(fields@),
{
    let mut end: u32 = 0;
    let mut align: u32 = 1;
    let mut i: usize = 0;
    while i < fields.len()
        invariant
            i <= fields@.len(),
            fields@.len() <= 64,
            forall|k: int|
                0 <= k < fields@.len() ==> 0 < (#[trigger] fields@[k]).1 <= 4096 && fields@[k].0
                    <= 4096,
            end as nat == spec_fields_end(fields@.subrange(0, i as int)),
            align as nat == spec_record_align(fields@.subrange(0, i as int)),
            1 <= align <= 4096,
            end <= i * 8192,
        decreases fields@.len() - i,
    {
        let f: (u32, u32) = fields[i];
        let stepped: u32 = align_up(end, f.1) + f.0;
        proof {
            assert(fields@.subrange(0, i + 1 as int).drop_last() =~= fields@.subrange(0, i as int));
            assert(fields@.subrange(0, i + 1 as int).last() == fields@[i as int]);
        }
        end = stepped;
        if f.1 > align {
            align = f.1;
        }
        i = i + 1;
    }
    proof {
        assert(fields@.subrange(0, fields@.len() as int) =~= fields@);
    }
    align_up(end, align)
}

/// The fields of the memory-access record on the platform's side: the
/// guest-physical address, the direction, the access size, and eight
/// data bytes, each given as (size, alignment).
pub open spec fn memory_access_info_fields() -> Seq<(u32, u32)> {
    seq![(8u32, 8u32), (1u32, 1u32), (1u32, 1u32), (8u32, 1u32)]
}

/// The fields of the port-access record on the platform's side: the
/// direction, the port, the access size, and four data bytes, each given
/// as (size, alignment).
pub open spec fn io_access_info_fields() -> Seq<(u32, u32)> {
    seq![(1u32, 1u32), (2u32, 2u32), (2u32, 2u32), (4u32, 4u32)]
}

/// The fields of the emulator's callback table on the platform's side:
/// its size, a reserved word, and five pointers to callbacks, each given
/// as (size, alignment).
pub open spec fn emulator_callbacks_fields() -> Seq<(u32, u32)> {
    seq![(4u32, 4u32), (4u32, 4u32), (8u32, 8u32), (8u32, 8u32), (8u32, 8u32), (8u32, 8u32), (8u32, 8u32)]
}

proof fn lemma_memory_access_info_size()
    ensures
        spec_record_size(memory_access_info_fields()) == 24,
{
    let f4 = memory_access_info_fields();
    let f3 = seq![(8u32, 8u32), (1u32, 1u32), (1u32, 1u32)];
    let f2 = seq![(8u32, 8u32), (1u32, 1u32)];
    let f1 = seq![(8u32, 8u32)];
    let f0 = Seq::<(u32, u32)>::empty();
    assert(f4.drop_last() =~= f3);
    assert(f3.drop_last() =~= f2);
    assert(f2.drop_last() =~= f1);
    assert(f1.drop_last() =~= f0);
    assert(spec_fields_end(f0) == 0);
    assert(spec_fields_end(f1) == 8);
    assert(spec_fields_end(f2) == 9);
    assert(spec_fields_end(f3) == 10);
    assert(spec_fields_end(f4) == 18);
    assert(spec_record_align(f0) == 1);
    assert(spec_record_align(f1) == 8);
    assert(spec_record_align(f2) == 8);
    assert(spec_record_align(f3) == 8);
    assert(spec_record_align(f4) == 8);
}

proof fn lemma_io_access_info_size()
    ensures
        spec_record_size(io_access_info_fields()) == 12,
{
    let f4 = io_access_info_fields();
    let f3 = seq![(1u32, 1u32), (2u32, 2u32), (2u32, 2u32)];
    let f2 = seq![(1u32, 1u32), (2u32, 2u32)];
    let f1 = seq![(1u32, 1u32)];
    let f0 = Seq::<(u32, u32)>::empty();
    assert(f4.drop_last() =~= f3);
    assert(f3.drop_last() =~= f2);
    assert(f2.drop_last() =~= f1);
    assert(f1.drop_last() =~= f0);
    assert(spec_fields_end(f0) == 0);
    assert(spec_fields_end(f1) == 1);
    assert(spec_fields_end(f2) == 4);
    assert(spec_fields_end(f3) == 6);
    assert(spec_fields_end(f4) == 12);
    assert(spec_record_align(f0) == 1);
    assert(spec_record_align(f1) == 1);
    assert(spec_record_align(f2) == 2);
    assert(spec_record_align(f3) == 2);
    assert(spec_record_align(f4) == 4);
}

proof fn lemma_emulator_callbacks_size()
    ensures
        spec_record_size(emulator_callbacks_fields()) == 48,
{
    let f7 = emulator_callbacks_fields();
    let f6 = seq![(4u32, 4u32), (4u32, 4u32), (8u32, 8u32), (8u32, 8u32), (8u32, 8u32), (8u32, 8u32)];
    let f5 = seq![(4u32, 4u32), (4u32, 4u32), (8u32, 8u32), (8u32, 8u32), (8u32, 8u32)];
    let f4 = seq![(4u32, 4u32), (4u32, 4u32), (8u32, 8u32), (8u32, 8u32)];
    let f3 = seq![(4u32, 4u32), (4u32, 4u32), (8u32, 8u32)];
    let f2 = seq![(4u32, 4u32), (4u32, 4u32)];
    let f1 = seq![(4u32, 4u32)];
    let f0 = Seq::<(u32, u32)>::empty();
    assert(f7.drop_last() =~= f6);
    assert(f6.drop_last() =~= f5);
    assert(f5.drop_last() =~= f4);
    assert(f4.drop_last() =~= f3);
    assert(f3.drop_last() =~= f2);
    assert(f2.drop_last() =~= f1);
    assert(f1.drop_last() =~= f0);
    assert(spec_fields_end(f0) == 0);
    assert(spec_fields_end(f1) == 4);
    assert(spec_fields_end(f2) == 8);
    assert(spec_fields_end(f3) == 16);
    assert(spec_fields_end(f4) == 24);
    assert(spec_fields_end(f5) == 32);
    assert(spec_fields_end(f6) == 40);
    assert(spec_fields_end(f7) == 48);
    assert(spec_record_align(f0) == 1);
    assert(spec_record_align(f1) == 4);
    assert(spec_record_align(f2) == 4);
    assert(spec_record_align(f3) == 8);
    assert(spec_record_align(f4) == 8);
    assert(spec_record_align(f5) == 8);
    assert(spec_record_align(f6) == 8);
    assert(spec_record_align(f7) == 8);
}

/// The size in bytes of the memory-access record at the platform
/// boundary.
pub fn memory_access_info_size() -> (n: u32)
    ensures
        n as nat == spec_record_size(memory_access_info_fields()),
        n == 24,
{
    let mut fields: Vec<(u32, u32)> = Vec::new();
    fields.push((8, 8));
    fields.push((1, 1));
    fields.push((1, 1));
    fields.push((8, 1));
    proof {
        assert(fields@ =~= memory_access_info_fields());
        lemma_memory_access_info_size();
    }
    record_size(&fields)
}

/// The size in bytes of the port-access record at the platform boundary.
pub fn io_access_info_size() -> (n: u32)
    ensures
        n as nat == spec_record_size(io_access_info_fields()),
        n == 12,
{
    let mut fields: Vec<(u32, u32)> = Vec::new();
    fields.push((1, 1));
    fields.push((2, 2));
    fields.push((2, 2));
    fields.push((4, 4));
    proof {
        assert(fields@ =~= io_access_info_fields());
        lemma_io_access_info_size();
    }
    record_size(&fields)
}

/// The size in bytes of the emulator's callback table at the platform
/// boundary.
pub fn emulator_callbacks_size() -> (n: u32)
    ensures
        n as nat == spec_record_size(emulator_callbacks_fields()),
        n == 48,
{
    let mut fields: Vec<(u32, u32)> = Vec::new();
    fields.push((4, 4));
    fields.push((4, 4));
    fields.push((8, 8));
    fields.push((8, 8));
    fields.push((8, 8));
    fields.push((8, 8));
    fields.push((8, 8));
    proof {
        assert(fields@ =~= emulator_callbacks_fields());
        lemma_emulator_callbacks_size();
    }
    record_size(&fields)
}

} // verus!
