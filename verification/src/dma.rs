//! Items related to the DMA (Direct Memory Access) controller of the PSX.
use crate::bits::{bits_of, field};
use arrayvec::ArrayVec;
use vstd::prelude::*;

pub mod executor;

verus! {

/// A DMA channel.
#[derive(Debug, Clone, Copy, PartialEq, Eq, Structural)]
pub enum Channel {
    MdecIn,
    MdecOut,
    GPU,
    CDROM,
    SPU,
    PIO,
    OTC,
}

impl Channel {
    /// How many cycles it takes to transfer a single word in this DMA channel.
    pub open spec fn spec_cycles_per_word(self) -> u64 {
        match self {
            Channel::MdecIn => 1,
            Channel::MdecOut => 1,
            Channel::GPU => 1,
            Channel::CDROM => 24,
            Channel::SPU => 4,
            Channel::PIO => 20,
            Channel::OTC => 1,
        }
    }

    /// Returns how many cycles it takes to transfer a single word in this DMA channel.
    pub fn cycles_per_word(&self) -> (r: u64)
        ensures
            r == self.spec_cycles_per_word(),
    {
        match self {
            Channel::MdecIn => 1,
            Channel::MdecOut => 1,
            Channel::GPU => 1,
            Channel::CDROM => 24,
            Channel::SPU => 4,
            Channel::PIO => 20,
            Channel::OTC => 1,
        }
    }

    /// The number of this channel (`0..7`).
    pub open spec fn spec_index(self) -> u32 {
        match self {
            Channel::MdecIn => 0,
            Channel::MdecOut => 1,
            Channel::GPU => 2,
            Channel::CDROM => 3,
            Channel::SPU => 4,
            Channel::PIO => 5,
            Channel::OTC => 6,
        }
    }

    /// Returns the number of this channel (`0..7`).
    pub fn index(&self) -> (r: u32)
        ensures
            r == self.spec_index(),
            r < 7,
    {
        match self {
            Channel::MdecIn => 0,
            Channel::MdecOut => 1,
            Channel::GPU => 2,
            Channel::CDROM => 3,
            Channel::SPU => 4,
            Channel::PIO => 5,
            Channel::OTC => 6,
        }
    }

    /// The channel with the given number (`0..7`).
    pub open spec fn spec_from_index(i: u32) -> Channel {
        if i == 0 {
            Channel::MdecIn
        } else if i == 1 {
            Channel::MdecOut
        } else if i == 2 {
            Channel::GPU
        } else if i == 3 {
            Channel::CDROM
        } else if i == 4 {
            Channel::SPU
        } else if i == 5 {
            Channel::PIO
        } else {
            Channel::OTC
        }
    }

    /// Returns the channel with the given number (`0..7`).
    pub fn from_index(i: u32) -> (r: Channel)
        requires
            i < 7,
        ensures
            r == Self::spec_from_index(i),
    {
        if i == 0 {
            Channel::MdecIn
        } else if i == 1 {
            Channel::MdecOut
        } else if i == 2 {
            Channel::GPU
        } else if i == 3 {
            Channel::CDROM
        } else if i == 4 {
            Channel::SPU
        } else if i == 5 {
            Channel::PIO
        } else {
            Channel::OTC
        }
    }
}

/// The direction of a DMA transfer.
#[derive(Debug, Clone, Copy, PartialEq, Eq, Structural)]
pub enum TransferDirection {
    /// Copying from some source in the device to a destination address in RAM (the channel base).
    DeviceToRam,
    /// Copying from a source address in RAM (the channel base) to some destination in the device.
    RamToDevice,
}

impl TransferDirection {
    /// The code of this value.
    pub open spec fn spec_code(self) -> u32 {
        match self {
            TransferDirection::DeviceToRam => 0,
            TransferDirection::RamToDevice => 1,
        }
    }

    /// The value with the given code, if any.
    pub open spec fn spec_from_code(code: u32) -> Option<TransferDirection> {
        if code == 0 { Some(TransferDirection::DeviceToRam) } else if code == 1 { Some(TransferDirection::RamToDevice) } else { None }
    }

    /// Returns the value with the given code, if any.
    pub fn from_code(code: u32) -> (r: Option<TransferDirection>)
        ensures
            r == Self::spec_from_code(code),
    {
        match code {
            0 => Some(TransferDirection::DeviceToRam),
            1 => Some(TransferDirection::RamToDevice),
            _ => None,
        }
    }
}

/// The direction of data in a DMA transfer.
#[derive(Debug, Clone, Copy, PartialEq, Eq, Structural)]
pub enum DataDirection {
    /// The address of the data to be transferred increases.
    Forward,
    /// The address of the data to be transferred decreases.
    Backward,
}

impl DataDirection {
    /// The code of this value.
    pub open spec fn spec_code(self) -> u32 {
        match self {
            DataDirection::Forward => 0,
            DataDirection::Backward => 1,
        }
    }

    /// The value with the given code, if any.
    pub open spec fn spec_from_code(code: u32) -> Option<DataDirection> {
        if code == 0 { Some(DataDirection::Forward) } else if code == 1 { Some(DataDirection::Backward) } else { None }
    }

    /// Returns the value with the given code, if any.
    pub fn from_code(code: u32) -> (r: Option<DataDirection>)
        ensures
            r == Self::spec_from_code(code),
    {
        match code {
            0 => Some(DataDirection::Forward),
            1 => Some(DataDirection::Backward),
            _ => None,
        }
    }
}

/// Modes a transfer can be executed in.
#[derive(Debug, Clone, Copy, PartialEq, Eq, Structural)]
pub enum TransferMode {
    /// Data is transferred all at once.
    Burst,
    /// Data is transferred block by block.
    Slice,
    /// Data is transferred through a linked list of data nodes.
    LinkedList,
}

impl TransferMode {
    /// The code of this value.
    pub open spec fn spec_code(self) -> u32 {
        match self {
            TransferMode::Burst => 0,
            TransferMode::Slice => 1,
            TransferMode::LinkedList => 2,
        }
    }

    /// The value with the given code, if any.
    pub open spec fn spec_from_code(code: u32) -> Option<TransferMode> {
        if code == 0 { Some(TransferMode::Burst) } else if code == 1 { Some(TransferMode::Slice) } else if code == 2 { Some(TransferMode::LinkedList) } else { None }
    }

    /// Returns the value with the given code, if any.
    pub fn from_code(code: u32) -> (r: Option<TransferMode>)
        ensures
            r == Self::spec_from_code(code),
    {
        match code {
            0 => Some(TransferMode::Burst),
            1 => Some(TransferMode::Slice),
            2 => Some(TransferMode::LinkedList),
            _ => None,
        }
    }
}

/// Contains the base memory address of a DMA channel.
#[derive(Debug, Clone, Copy, PartialEq, Eq, Structural, Default)]
pub struct ChannelBase(pub u32);

impl ChannelBase {
    /// The base address. (bits 0..24)
    pub fn addr(&self) -> (r: u32)
        ensures
            r == bits_of(self.0, 0, 24),
    {
        field(self.0, 0, 24)
    }

    /// Sets the base address to the low 24 bits of `addr`.
    pub fn set_addr(&mut self, addr: u32)
        ensures
            final(self).0 == (old(self).0 & 0xFF00_0000) | (addr & 0x00FF_FFFF),
    {
        self.0 = (self.0 & 0xFF00_0000) | (addr & 0x00FF_FFFF);
    }
}

/// Configuration of the blocks transferred through a DMA channel.
#[derive(Debug, Clone, Copy, PartialEq, Eq, Structural, Default)]
pub struct ChannelBlockControl(pub u32);

impl ChannelBlockControl {
    /// The size of a single block in words. (bits 0..16)
    pub fn len(&self) -> (r: u32)
        ensures
            r == bits_of(self.0, 0, 16),
    {
        field(self.0, 0, 16)
    }

    /// The amount of blocks to transfer. (bits 16..32)
    pub fn count(&self) -> (r: u32)
        ensures
            r == bits_of(self.0, 16, 16),
    {
        field(self.0, 16, 16)
    }

    /// Sets the size of a block, in words.
    pub fn set_len(&mut self, len: u16)
        ensures
            final(self).0 == (old(self).0 & 0xFFFF_0000) | len as u32,
    {
        self.0 = (self.0 & 0xFFFF_0000) | len as u32;
    }

    /// Sets the amount of blocks to transfer.
    pub fn set_count(&mut self, count: u16)
        ensures
            final(self).0 == (old(self).0 & 0x0000_FFFF) | ((count as u32) << 16u32),
    {
        self.0 = (self.0 & 0x0000_FFFF) | ((count as u32) << 16u32);
    }
}

/// Configuration of a DMA channel.
#[derive(Debug, Clone, Copy, PartialEq, Eq, Structural, Default)]
pub struct ChannelControl(pub u32);

impl ChannelControl {
    /// The bits of the OTC channel control register that writes reach: start, trigger and the
    /// unknown bit 30. The others are fixed.
    pub const DMA6_WRITE_MASK: u32 = 0x5100_0000;

    /// Direction of the DMA transfer. (bit 0)
    pub open spec fn spec_transfer_direction(self) -> TransferDirection {
        TransferDirection::spec_from_code(bits_of(self.0, 0, 1)).unwrap()
    }

    /// Returns: direction of the DMA transfer.
    pub fn transfer_direction(&self) -> (r: TransferDirection)
        ensures
            r == self.spec_transfer_direction(),
    {
        proof {
            vstd::arithmetic::power2::lemma2_to64();
        }
        TransferDirection::from_code(field(self.0, 0, 1)).unwrap()
    }

    /// Direction of the data to be transferred. (bit 1)
    pub open spec fn spec_data_direction(self) -> DataDirection {
        DataDirection::spec_from_code(bits_of(self.0, 1, 1)).unwrap()
    }

    /// Returns: direction of the data to be transferred.
    pub fn data_direction(&self) -> (r: DataDirection)
        ensures
            r == self.spec_data_direction(),
    {
        proof {
            vstd::arithmetic::power2::lemma2_to64();
        }
        DataDirection::from_code(field(self.0, 1, 1)).unwrap()
    }

    /// Whether the transfer mode behaves alternatively. (bit 8)
    pub fn alternative_behaviour(&self) -> (r: bool)
        ensures
            r == (bits_of(self.0, 8, 1) == 1),
    {
        field(self.0, 8, 1) == 1
    }

    /// The mode of operation for the transfer. (bits 9..11)
    pub open spec fn spec_transfer_mode(self) -> Option<TransferMode> {
        TransferMode::spec_from_code(bits_of(self.0, 9, 2))
    }

    /// Returns: the mode of operation for the transfer.
    pub fn transfer_mode(&self) -> (r: Option<TransferMode>)
        ensures
            r == self.spec_transfer_mode(),
    {
        TransferMode::from_code(field(self.0, 9, 2))
    }

    /// The chopping DMA window size. (bits 16..19)
    pub fn chopping_dma_window_size(&self) -> (r: u32)
        ensures
            r == bits_of(self.0, 16, 3),
    {
        field(self.0, 16, 3)
    }

    /// The chopping CPU window size. (bits 20..23)
    pub fn chopping_cpu_window_size(&self) -> (r: u32)
        ensures
            r == bits_of(self.0, 20, 3),
    {
        field(self.0, 20, 3)
    }

    /// Whether a transfer is in progress or not. (bit 24)
    pub fn transfer_ongoing(&self) -> (r: bool)
        ensures
            r == (bits_of(self.0, 24, 1) == 1),
    {
        field(self.0, 24, 1) == 1
    }

    /// Forces the transfer to start without waiting for the DREQ. (bit 28)
    pub fn force_transfer(&self) -> (r: bool)
        ensures
            r == (bits_of(self.0, 28, 1) == 1),
    {
        field(self.0, 28, 1) == 1
    }

    /// Whether bus snooping is on. (bit 30)
    pub fn bus_snooping(&self) -> (r: bool)
        ensures
            r == (bits_of(self.0, 30, 1) == 1),
    {
        field(self.0, 30, 1) == 1
    }

    /// Sets whether a transfer is in progress.
    pub fn set_transfer_ongoing(&mut self, value: bool)
        ensures
            final(self).0 == if value { old(self).0 | 0x0100_0000 } else { old(self).0 & 0xFEFF_FFFF },
    {
        self.0 = if value { self.0 | 0x0100_0000 } else { self.0 & 0xFEFF_FFFF };
    }

    /// Sets whether the transfer starts without waiting for the DREQ.
    pub fn set_force_transfer(&mut self, value: bool)
        ensures
            final(self).0 == if value { old(self).0 | 0x1000_0000 } else { old(self).0 & 0xEFFF_FFFF },
    {
        self.0 = if value { self.0 | 0x1000_0000 } else { self.0 & 0xEFFF_FFFF };
    }
}

/// The state of a DMA channel.
#[derive(Debug, Clone, Copy, Default, PartialEq, Eq, Structural)]
pub struct ChannelState {
    pub base: ChannelBase,
    pub block_control: ChannelBlockControl,
    pub control: ChannelControl,
}

/// An outside growable array with a fixed capacity.
#[verifier::external_type_specification]
#[verifier::external_body]
#[verifier::reject_recursive_types(T)]
pub struct ExArrayVec<T, const CAP: usize>(ArrayVec<T, CAP>);

/// The items of a list of enabled channels, in order.
pub uninterp spec fn channel_list(list: ArrayVec<(Channel, u8), 7>) -> Seq<(Channel, u8)>;

/// `ArrayVec::new_const`: an array holding no item.
#[verifier::external_body]
fn channel_list_new() -> (r: ArrayVec<(Channel, u8), 7>)
    ensures
        channel_list(r) == Seq::<(Channel, u8)>::empty(),
{
    ArrayVec::new_const()
}

/// `ArrayVec::push`: appends `item` after the items held; it panics when the array is full, so
/// the array must hold fewer than seven items.
#[verifier::external_body]
fn channel_list_push(list: &mut ArrayVec<(Channel, u8), 7>, item: (Channel, u8))
    requires
        channel_list(*old(list)).len() < 7,
    ensures
        channel_list(*final(list)) == channel_list(*old(list)).push(item),
{
    list.push(item);
}

/// `ArrayVec::len`: the number of items held.
#[verifier::external_body]
pub(crate) fn channel_list_len(list: &ArrayVec<(Channel, u8), 7>) -> (r: usize)
    ensures
        r == channel_list(*list).len(),
{
    list.len()
}

/// Indexing through `Deref` to a slice: the item at position `i`, which must be held (the index
/// panics past the length).
#[verifier::external_body]
pub(crate) fn channel_list_get(list: &ArrayVec<(Channel, u8), 7>, i: usize) -> (r: (Channel, u8))
    requires
        i < channel_list(*list).len(),
    ensures
        r == channel_list(*list)[i as int],
{
    list[i]
}

/// Whether the priorities of `list` never increase along it.
pub open spec fn by_priority(list: Seq<(Channel, u8)>) -> bool {
    forall|i: int, j: int| 0 <= i < j < list.len() ==> list[i].1 >= list[j].1
}

/// `<[T]>::sort_unstable_by_key` on the items of the array, keyed by the priority in reverse:
/// the items come out as a permutation of those that went in, highest priority first. The order
/// among items of equal priority is left open, as the documentation of the sort leaves it.
#[verifier::external_body]
pub(crate) fn channel_list_sort_by_priority(list: &mut ArrayVec<(Channel, u8), 7>)
    ensures
        channel_list(*final(list)).to_multiset() == channel_list(*old(list)).to_multiset(),
        by_priority(channel_list(*final(list))),
{
    list.sort_unstable_by_key(|item| std::cmp::Reverse(item.1));
}

/// Whether channel `i` is enabled in the control register `bits` (bit `4 * i + 3`).
pub open spec fn channel_enabled(bits: u32, i: u32) -> bool {
    bits_of(bits, (4 * i + 3) as u32, 1) == 1
}

/// The priority of channel `i` in the control register `bits` (bits `4 * i..4 * i + 3`).
pub open spec fn channel_priority(bits: u32, i: u32) -> u8 {
    bits_of(bits, (4 * i) as u32, 3) as u8
}

/// The enabled channels among the first `n`, in order, with their priority.
pub open spec fn enabled_among(bits: u32, n: u32) -> Seq<(Channel, u8)>
    decreases n,
{
    if n == 0 {
        Seq::empty()
    } else {
        let i = (n - 1) as u32;
        let prev = enabled_among(bits, i);
        if channel_enabled(bits, i) {
            prev.push((Channel::spec_from_index(i), channel_priority(bits, i)))
        } else {
            prev
        }
    }
}

/// Configuration of the DMA controller regarding channels: for each channel its priority and
/// whether it is enabled, then the priority of the CPU.
#[derive(Debug, Clone, Copy, Default, PartialEq, Eq, Structural)]
pub struct Control(pub u32);

impl Control {
    /// The priority of the CPU for memory accesses (bits 28..31).
    pub fn cpu_priority(&self) -> (r: u32)
        ensures
            r == bits_of(self.0, 28, 3),
    {
        field(self.0, 28, 3)
    }

    /// Returns the enabled channels, in order of their number, with their priority.
    pub fn enabled_channels(&self) -> (r: ArrayVec<(Channel, u8), 7>)
        ensures
            channel_list(r) == enabled_among(self.0, 7),
    {
        let mut result = channel_list_new();
        let mut i: u32 = 0;
        while i < 7
            invariant
                i <= 7,
                channel_list(result) == enabled_among(self.0, i),
                enabled_among(self.0, i).len() <= i,
            decreases 7 - i,
        {
            let enabled = field(self.0, 4 * i + 3, 1) == 1;
            if enabled {
                let priority = field(self.0, 4 * i, 3) as u8;
                channel_list_push(&mut result, (Channel::from_index(i), priority));
            }
            i += 1;
        }
        result
    }
}

/// How interrupts should be raised for a given channel.
#[derive(Debug, Clone, Copy, PartialEq, Eq, Structural)]
pub enum ChannelInterruptMode {
    /// The interrupt occurs only when the entire transfer completes.
    OnCompletion,
    /// The interrupt occurs for every slice and linked-list transfer.
    OnBlock,
}

impl ChannelInterruptMode {
    /// The code of this value.
    pub open spec fn spec_code(self) -> u32 {
        match self {
            ChannelInterruptMode::OnCompletion => 0,
            ChannelInterruptMode::OnBlock => 1,
        }
    }

    /// The value with the given code, if any.
    pub open spec fn spec_from_code(code: u32) -> Option<ChannelInterruptMode> {
        if code == 0 { Some(ChannelInterruptMode::OnCompletion) } else if code == 1 { Some(ChannelInterruptMode::OnBlock) } else { None }
    }

    /// Returns the value with the given code, if any.
    pub fn from_code(code: u32) -> (r: Option<ChannelInterruptMode>)
        ensures
            r == Self::spec_from_code(code),
    {
        match code {
            0 => Some(ChannelInterruptMode::OnCompletion),
            1 => Some(ChannelInterruptMode::OnBlock),
            _ => None,
        }
    }
}

/// Configuration of the DMA controller regarding interrupts.
#[derive(Debug, Clone, Copy, PartialEq, Eq, Structural, Default)]
pub struct InterruptControl(pub u32);

impl InterruptControl {
    /// The bits of the interrupt control register that writes reach: all but the master flag.
    /// Of the channel flags, written ones acknowledge (clear) the flag.
    pub const WRITE_MASK: u32 = 0x7FFF_807F;

    /// A flag raised when transferring to or from an address outside of RAM. (bit 15)
    pub fn bus_error(&self) -> (r: bool)
        ensures
            r == (bits_of(self.0, 15, 1) == 1),
    {
        field(self.0, 15, 1) == 1
    }

    /// Which channels may raise an interrupt. (bits 16..23)
    pub fn channel_interrupt_mask_raw(&self) -> (r: u32)
        ensures
            r == bits_of(self.0, 16, 7),
    {
        field(self.0, 16, 7)
    }

    /// Whether channels may raise an interrupt at all. (bit 23)
    pub fn master_channel_interrupt_enable(&self) -> (r: bool)
        ensures
            r == (bits_of(self.0, 23, 1) == 1),
    {
        field(self.0, 23, 1) == 1
    }

    /// The channels whose transfer completed, if allowed to raise an interrupt. (bits 24..31)
    pub fn channel_interrupt_flags_raw(&self) -> (r: u32)
        ensures
            r == bits_of(self.0, 24, 7),
    {
        field(self.0, 24, 7)
    }

    /// Whether any channel that is allowed to raise an interrupt has one pending, or there is a bus error. (bit 31)
    pub fn master_interrupt_flag(&self) -> (r: bool)
        ensures
            r == (bits_of(self.0, 31, 1) == 1),
    {
        field(self.0, 31, 1) == 1
    }

    /// The interrupt mode of channel `i` (bit `i`), if there is such a channel.
    pub fn channel_interrupt_mode_at(&self, i: u32) -> (r: Option<ChannelInterruptMode>)
        ensures
            r == if i < 7 {
                ChannelInterruptMode::spec_from_code(bits_of(self.0, i, 1))
            } else {
                None
            },
    {
        if i < 7 {
            ChannelInterruptMode::from_code(field(self.0, i, 1))
        } else {
            None
        }
    }

    /// Whether channel `i` may raise an interrupt (bit `16 + i`), if there is such a channel.
    pub fn channel_interrupt_mask_at(&self, i: u32) -> (r: Option<bool>)
        ensures
            r == if i < 7 {
                Some(bits_of(self.0, (16 + i) as u32, 1) == 1)
            } else {
                None
            },
    {
        if i < 7 {
            Some(field(self.0, 16 + i, 1) == 1)
        } else {
            None
        }
    }

    /// Sets the interrupt flag of channel `i` (bit `24 + i`).
    pub fn set_channel_interrupt_flags_at(&mut self, i: u32, value: bool)
        requires
            i < 7,
        ensures
            final(self).0 == if value {
                old(self).0 | (1u32 << (24 + i) as u32)
            } else {
                old(self).0 & !(1u32 << (24 + i) as u32)
            },
    {
        let bit: u32 = 1u32 << (24 + i);
        self.0 = if value { self.0 | bit } else { self.0 & !bit };
    }
}

impl InterruptControl {
    /// The master interrupt flag these settings call for: a bus error, or pending channel flags
    /// while channel interrupts are enabled.
    pub open spec fn spec_master_flag(self) -> bool {
        bits_of(self.0, 15, 1) == 1 || (bits_of(self.0, 23, 1) == 1 && bits_of(self.0, 24, 7) != 0)
    }

    /// Updates the master interrupt flag and returns whether it performed a low-to-high
    /// transition.
    pub fn update_master_interrupt_flag(&mut self) -> (r: bool)
        ensures
            final(self).0 == if old(self).spec_master_flag() {
                old(self).0 | 0x8000_0000
            } else {
                old(self).0 & 0x7FFF_FFFF
            },
            r == (bits_of(old(self).0, 31, 1) != 1 && old(self).spec_master_flag()),
    {
        let old = self.master_interrupt_flag();
        let flag = self.bus_error() || (self.master_channel_interrupt_enable()
            && self.channel_interrupt_flags_raw() != 0);
        self.0 = if flag {
            self.0 | 0x8000_0000
        } else {
            self.0 & 0x7FFF_FFFF
        };
        !old && flag
    }
}

/// The state of the DMA controller.
#[derive(Debug)]
pub struct Controller {
    pub control: Control,
    pub interrupt_control: InterruptControl,
    pub channels: [ChannelState; 7],
}

impl Default for Controller {
    /// Every register cleared, except that the data of the OTC channel goes backward.
    fn default() -> (r: Self)
        ensures
            r.control.0 == 0,
            r.interrupt_control.0 == 0,
            forall|i: int|
                0 <= i < 6 ==> #[trigger] r.channels[i] == (ChannelState {
                    base: ChannelBase(0),
                    block_control: ChannelBlockControl(0),
                    control: ChannelControl(0),
                }),
            r.channels[6] == (ChannelState {
                base: ChannelBase(0),
                block_control: ChannelBlockControl(0),
                control: ChannelControl(0x2),
            }),
    {
        let cleared = ChannelState {
            base: ChannelBase(0),
            block_control: ChannelBlockControl(0),
            control: ChannelControl(0),
        };
        let otc = ChannelState {
            base: ChannelBase(0),
            block_control: ChannelBlockControl(0),
            control: ChannelControl(0x2),
        };
        Controller {
            control: Control(0),
            interrupt_control: InterruptControl(0),
            channels: [cleared, cleared, cleared, cleared, cleared, cleared, otc],
        }
    }
}

} // verus!
