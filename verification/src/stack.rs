//! The stack discipline over many pushes and pulls.
//!
//! The stack is last-in, first-out: bytes pushed one after another come
//! back in reverse order. The page holds 256 slots, so this holds for up to
//! 256 bytes at a time; a 257th push would overwrite the first.

use vstd::prelude::*;
use crate::cpu::{spec_stack_slot, CPU};

verus! {

impl CPU {
    /// The state after the bytes of `values` have been pushed, the first
    /// byte first.
    pub open spec fn spec_push_all(self, mem: Seq<u8>, values: Seq<u8>) -> (CPU, Seq<u8>)
        decreases values.len(),
    {
        if values.len() == 0 {
            (self, mem)
        } else {
            let (cpu, pushed) = self.spec_push_all(mem, values.drop_last());
            cpu.spec_push(pushed, values.last())
        }
    }

    /// The state after `count` pulls and the bytes pulled, the first pulled
    /// first.
    pub open spec fn spec_pull_many(self, mem: Seq<u8>, count: nat) -> (CPU, Seq<u8>)
        decreases count,
    {
        if count == 0 {
            (self, Seq::<u8>::empty())
        } else {
            let (cpu, data) = self.spec_pull(mem);
            let (last, rest) = cpu.spec_pull_many(mem, (count - 1) as nat);
            (last, seq![data].add(rest))
        }
    }
}

/// A pull after a push returns the pushed byte and leaves the stack pointer
/// at the slot it designated before the push.
pub proof fn lemma_pull_of_push(cpu: CPU, mem: Seq<u8>, data: u8)
    requires
        mem.len() == 65536,
    ensures
        cpu.spec_push(mem, data).0.spec_pull(cpu.spec_push(mem, data).1).1 == data,
        cpu.spec_push(mem, data).0.spec_pull(cpu.spec_push(mem, data).1).0.stkptr
            == cpu.spec_stack_address(),
{
}

/// Pushes and pulls address the stack page alone: a push writes one cell
/// between 0x0100 and 0x01FF and leaves every other cell as it was, and
/// after a push or a pull the stack pointer lies in that range.
pub proof fn lemma_stack_stays_in_page(cpu: CPU, mem: Seq<u8>, data: u8, address: u16)
    requires
        mem.len() == 65536,
    ensures
        0x0100 <= cpu.spec_stack_address() <= 0x01FF,
        0x0100 <= cpu.spec_push(mem, data).0.stkptr <= 0x01FF,
        0x0100 <= cpu.spec_pull(mem).0.stkptr <= 0x01FF,
        !(0x0100 <= address <= 0x01FF) ==> cpu.spec_push(mem, data).1[address as int]
            == mem[address as int],
{
}

/// The slot of the stack page that lies `k` slots above the one that
/// `pointer` designates, round the page.
pub open spec fn spec_slot_above(pointer: u16, k: int) -> u16 {
    spec_stack_slot(pointer + k)
}

/// Slots are counted round the page: the slot `k` above the slot of `p` is
/// the slot of `p + k`, and every slot lies in the stack page.
proof fn lemma_slot_sum(p: int, k: int)
    ensures
        spec_stack_slot(spec_stack_slot(p) + k) == spec_stack_slot(p + k),
        0x0100 <= spec_stack_slot(p) <= 0x01FF,
{
}

/// The page has 256 slots: going up by 1 to 255 slots never comes back to
/// the slot one started from.
proof fn lemma_slots_differ(p: int, k: int)
    requires
        1 <= k <= 255,
    ensures
        spec_stack_slot(p + k) != spec_stack_slot(p),
{
}

/// Pushing moves the stack pointer down by one slot for each byte, round
/// the stack page, changes nothing else in the register file, and keeps
/// the memory whole.
proof fn lemma_push_all_pointer(cpu: CPU, mem: Seq<u8>, values: Seq<u8>)
    requires
        mem.len() == 65536,
    ensures
        cpu.spec_push_all(mem, values).1.len() == 65536,
        values.len() > 0 ==> cpu.spec_push_all(mem, values).0.stkptr == spec_stack_slot(
            cpu.stkptr - values.len(),
        ),
        cpu.spec_push_all(mem, values).0.spec_stack_address() == spec_stack_slot(
            cpu.stkptr - values.len(),
        ),
    decreases values.len(),
{
    if values.len() > 0 {
        let front = values.drop_last();
        lemma_push_all_pointer(cpu, mem, front);
        lemma_slot_sum(cpu.stkptr - front.len(), -1);
        lemma_slot_sum(cpu.stkptr - values.len(), 0);
    }
}

/// What pulls return depends on the slot that the stack pointer designates
/// and on the slots they read, and on nothing else: from two states whose
/// stack pointers designate the same slot, over memories that agree on the
/// `count` slots above it, `count` pulls return the same bytes and end at
/// the same stack pointer.
proof fn lemma_pull_many_reads_slots(a: CPU, mem_a: Seq<u8>, b: CPU, mem_b: Seq<u8>, count: nat)
    requires
        a.spec_stack_address() == b.spec_stack_address(),
        forall|k: int|
            1 <= k <= count ==> mem_a[#[trigger] spec_slot_above(a.stkptr, k) as int]
                == mem_b[spec_slot_above(a.stkptr, k) as int],
    ensures
        a.spec_pull_many(mem_a, count).1 == b.spec_pull_many(mem_b, count).1,
        count > 0 ==> a.spec_pull_many(mem_a, count).0.stkptr == b.spec_pull_many(
            mem_b,
            count,
        ).0.stkptr,
    decreases count,
{
    if count > 0 {
        let (next_a, data_a) = a.spec_pull(mem_a);
        let (next_b, data_b) = b.spec_pull(mem_b);
        lemma_slot_sum(a.stkptr as int, 1);
        lemma_slot_sum(b.stkptr as int, 1);
        assert(next_a.stkptr == spec_slot_above(a.stkptr, 1));
        assert(next_a.stkptr == next_b.stkptr);
        assert(data_a == data_b);
        assert forall|k: int| 1 <= k <= count - 1 implies mem_a[#[trigger] spec_slot_above(
            next_a.stkptr,
            k,
        ) as int] == mem_b[spec_slot_above(next_a.stkptr, k) as int] by {
            lemma_slot_sum(a.stkptr + 1, k);
            assert(spec_slot_above(next_a.stkptr, k) == spec_slot_above(a.stkptr, k + 1));
        }
        lemma_pull_many_reads_slots(next_a, mem_a, next_b, mem_b, (count - 1) as nat);
    }
}

/// The stack is last-in, first-out. After up to 256 bytes have been pushed
/// one after another, as many pulls return them in reverse order, the byte
/// pushed last first, and leave the stack pointer at the slot it designated
/// before the first push.
pub proof fn lemma_stack_is_lifo(cpu: CPU, mem: Seq<u8>, values: Seq<u8>)
    requires
        mem.len() == 65536,
        values.len() <= 256,
    ensures
        ({
            let (pushed_cpu, pushed_mem) = cpu.spec_push_all(mem, values);
            let (pulled_cpu, pulled) = pushed_cpu.spec_pull_many(pushed_mem, values.len());
            &&& pulled == values.reverse()
            &&& values.len() > 0 ==> pulled_cpu.stkptr == cpu.spec_stack_address()
        }),
    decreases values.len(),
{
    let count = values.len();
    if count == 0 {
        assert(Seq::<u8>::empty() =~= values.reverse());
    } else {
        let front = values.drop_last();
        let (front_cpu, front_mem) = cpu.spec_push_all(mem, front);
        let (pushed_cpu, pushed_mem) = front_cpu.spec_push(front_mem, values.last());
        lemma_push_all_pointer(cpu, mem, front);
        lemma_stack_is_lifo(cpu, mem, front);
        let slot = front_cpu.spec_stack_address();
        let (next, data) = pushed_cpu.spec_pull(pushed_mem);
        lemma_slot_sum(front_cpu.stkptr - 1, 1);
        lemma_slot_sum(front_cpu.stkptr as int, 0);
        assert(next.stkptr == slot);
        assert(pushed_mem == front_mem.update(slot as int, values.last()));
        assert(data == values.last());
        assert forall|k: int| 1 <= k <= count - 1 implies pushed_mem[#[trigger] spec_slot_above(
            next.stkptr,
            k,
        ) as int] == front_mem[spec_slot_above(next.stkptr, k) as int] by {
            lemma_slot_sum(front_cpu.stkptr as int, k);
            lemma_slots_differ(front_cpu.stkptr as int, k);
            assert(spec_slot_above(next.stkptr, k) != slot);
        }
        lemma_pull_many_reads_slots(next, pushed_mem, front_cpu, front_mem, (count - 1) as nat);
        let rest = next.spec_pull_many(pushed_mem, (count - 1) as nat).1;
        assert(rest == front.reverse());
        assert(seq![data].add(rest) =~= values.reverse());
    }
}

} // verus!
