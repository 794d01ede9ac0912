use vstd::prelude::*;
use crate::bits::{bit, bits, get_bit, get_bits};
use super::common::{condition_of, Condition};

verus! {

/// The registers whose bits are set among the lowest `n` bits of an
/// instruction word, in increasing order.
pub open spec fn register_list_below(value: u32, n: nat) -> Seq<u8>
    decreases n,
{
    if n == 0 {
        Seq::empty()
    } else {
        let earlier = register_list_below(value, (n - 1) as nat);
        if bit(value, (n - 1) as u32) { earlier.push((n - 1) as u8) } else { earlier }
    }
}

/// A block data transfer (LDM/STM) instruction.
#[derive(Clone, Debug)]
pub struct BlockDataTransfer {
    pub register_list: Vec<u8>,
    pub base_register: u8,
    pub load: bool,
    pub write_back: bool,
    pub psr_force_user: bool,
    pub up: bool,
    pub pre_indexing: bool,
    pub condition: Condition,
}

impl BlockDataTransfer {
    /// Whether the fields are those that an instruction word holds: the register
    /// list names the registers whose bits 15..0 are set, lowest first.
    pub open spec fn decodes(&self, value: u32) -> bool {
        &&& self.register_list@ == register_list_below(value, 16)
        &&& self.base_register == bits(value, 16, 4) as u8
        &&& self.load == bit(value, 20)
        &&& self.write_back == bit(value, 21)
        &&& self.psr_force_user == bit(value, 22)
        &&& self.up == bit(value, 23)
        &&& self.pre_indexing == bit(value, 24)
        &&& self.condition == condition_of(bits(value, 28, 4))
    }

    /// Decodes an instruction word.
    pub fn from(value: u32) -> (b: BlockDataTransfer)
        ensures
            b.decodes(value),
    {
        let mut temp_reg_list: Vec<u8> = Vec::new();
        let mut i: u32 = 0;
        while i < 16
            invariant
                i <= 16,
                temp_reg_list@ == register_list_below(value, i as nat),
            decreases 16 - i,
        {
            if get_bit(value, i) {
                temp_reg_list.push(i as u8);
            }
            i = i + 1;
        }
        BlockDataTransfer {
            register_list: temp_reg_list,
            base_register: get_bits(value, 16, 4) as u8,
            load: get_bit(value, 20),
            write_back: get_bit(value, 21),
            psr_force_user: get_bit(value, 22),
            up: get_bit(value, 23),
            pre_indexing: get_bit(value, 24),
            condition: Condition::from(get_bits(value, 28, 4)),
        }
    }

    /// The lowest address of the block, given the base address: one word above
    /// the base for pre-increment, the base for post-increment, and for the
    /// decrementing forms the address that leaves room for every listed register.
    fn get_start_address(&mut self, current_address: i64) -> (start: i64)
        requires
            0 <= current_address <= u32::MAX,
            old(self).register_list.len() <= 16,
        ensures
            *final(self) == *old(self),
            start == if old(self).pre_indexing && old(self).up {
                current_address + 4
            } else if old(self).up {
                current_address as int
            } else if old(self).pre_indexing {
                current_address - 4 * (old(self).register_list.len() - 1) - 4
            } else {
                current_address - 4 * (old(self).register_list.len() - 1)
            },
    {
        let count = self.register_list.len() as i64;
        if self.pre_indexing && self.up {
            current_address + 4
        } else if !self.pre_indexing && self.up {
            current_address
        } else if self.pre_indexing && !self.up {
            current_address - (4 * (count - 1)) - 4
        } else {
            current_address - (4 * (count - 1))
        }
    }
}

/// The register list holds exactly the registers whose bits are set, each once,
/// in increasing order.
pub proof fn lemma_register_list_contents(value: u32, n: nat)
    requires
        n <= 16,
    ensures
        register_list_below(value, n).len() <= n,
        forall|i: int| 0 <= i < register_list_below(value, n).len()
            ==> (#[trigger] register_list_below(value, n)[i] as nat) < n
                && bit(value, register_list_below(value, n)[i] as u32),
        forall|i: int, j: int| 0 <= i < j < register_list_below(value, n).len()
            ==> register_list_below(value, n)[i] < register_list_below(value, n)[j],
        forall|r: u8| (r as nat) < n && bit(value, r as u32)
            ==> register_list_below(value, n).contains(r),
    decreases n,
{
    if n > 0 {
        lemma_register_list_contents(value, (n - 1) as nat);
        let earlier = register_list_below(value, (n - 1) as nat);
        assert forall|r: u8| (r as nat) < n && bit(value, r as u32)
            implies register_list_below(value, n).contains(r) by {
            if (r as nat) < n - 1 {
                assert(earlier.contains(r));
                let k = choose|k: int| 0 <= k < earlier.len() && earlier[k] == r;
                if bit(value, (n - 1) as u32) {
                    assert(register_list_below(value, n)[k] == r);
                }
            } else {
                assert(register_list_below(value, n).last() == r);
            }
        }
    }
}

} // verus!
