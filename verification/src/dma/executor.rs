//! An executor for DMA transfers.
//!
//! The executor starts the transfer of the channel with the highest priority that asks for one,
//! then advances it: a burst transfer word by word, a slice transfer block by block and a linked
//! list transfer node by node.
use crate::bits::bits_of;
use crate::cdrom;
use crate::cpu::Cpu;
use crate::dma::{
    by_priority, channel_list, channel_list_get, channel_list_len, channel_list_sort_by_priority,
    enabled_among, Channel, ChannelBase, ChannelBlockControl, ChannelControl, ChannelState,
    DataDirection, TransferDirection, TransferMode,
};
use crate::gpu::{Gpu, Status as GpuStatus};
use crate::interrupts::{self, Interrupt};
use crate::psx::{
    law_ram_word_read_after_write, mem_of, mem_read, mem_write, spec_access, Access, MemModel, PSX,
};
use crate::scheduler::{Event, ScheduledEvent};
use arrayvec::ArrayVec;
use vstd::prelude::*;

verus! {

/// The progress made by a transfer.
#[derive(Debug, Clone, Copy, PartialEq, Eq, Structural)]
pub enum Progress {
    /// The transfer is still ongoing.
    Ongoing,
    /// The transfer has yielded control of the bus back to the CPU.
    Yielded,
    /// The transfer has finished.
    Finished,
}

/// An ongoing burst transfer.
#[derive(Debug, Clone, Copy, PartialEq, Eq, Structural)]
pub struct BurstTransfer {
    pub channel: Channel,
    pub current_addr: u32,
    pub remaining: u32,
}

/// An ongoing slice transfer.
#[derive(Debug, Clone, Copy, PartialEq, Eq, Structural)]
pub struct SliceTransfer {
    pub channel: Channel,
}

/// An ongoing linked list transfer.
#[derive(Debug, Clone, Copy, PartialEq, Eq, Structural)]
pub struct LinkedTransfer {
    pub channel: Channel,
}

/// The state of the executor.
#[derive(Debug, Clone, Copy, PartialEq, Eq, Structural)]
pub enum State {
    /// No transfer is ongoing.
    Idle,
    /// A burst transfer is ongoing.
    BurstTransfer(BurstTransfer),
    /// A slice transfer is ongoing.
    SliceTransfer(SliceTransfer),
    /// A linked list transfer is ongoing.
    LinkedTransfer(LinkedTransfer),
}

/// What a DMA transfer reads or changes in the PSX: the memory, the DMA registers, the GPU
/// status and queues, the sector data of the CDROM, the pending system interrupts and the
/// scheduled events.
#[verifier::ext_equal]
pub ghost struct DmaModel {
    pub mem: MemModel,
    pub control: u32,
    pub interrupt_control: u32,
    pub channels: Seq<ChannelState>,
    pub gpu_status: u32,
    pub render_queue: Seq<u32>,
    pub response_queue: Seq<u32>,
    pub sector_locked: bool,
    pub sector_data: Seq<u8>,
    pub interrupt_status: u32,
    pub elapsed: u64,
    pub events: Seq<ScheduledEvent>,
    pub last_scheduled: u64,
}

/// The model of `psx`.
pub open spec fn model_of(psx: PSX) -> DmaModel {
    DmaModel {
        mem: mem_of(psx),
        control: psx.dma.control.0,
        interrupt_control: psx.dma.interrupt_control.0,
        channels: psx.dma.channels@,
        gpu_status: psx.gpu.status.0,
        render_queue: psx.gpu.render_queue@,
        response_queue: psx.gpu.response_queue@,
        sector_locked: psx.cdrom.lock_data_queue,
        sector_data: psx.cdrom.sector_data@,
        interrupt_status: psx.interrupts.status.0,
        elapsed: psx.scheduler.spec_elapsed(),
        events: psx.scheduler.events(),
        last_scheduled: psx.scheduler.spec_last_scheduled_time(),
    }
}

/// Everything of the PSX outside the model is the same in `old` and `new`.
pub open spec fn outside_model_same(old: PSX, new: PSX) -> bool {
    &&& new == PSX {
        memory: new.memory,
        cpu: Cpu { cache_control: new.cpu.cache_control, ..old.cpu },
        dma: new.dma,
        gpu: Gpu {
            status: new.gpu.status,
            render_queue: new.gpu.render_queue,
            response_queue: new.gpu.response_queue,
            ..old.gpu
        },
        cdrom: cdrom::Cdrom { sector_data: new.cdrom.sector_data, ..old.cdrom },
        interrupts: interrupts::Controller { status: new.interrupts.status, ..old.interrupts },
        scheduler: new.scheduler,
        ..old
    }
    &&& new.memory.io_stubs == old.memory.io_stubs
}

/// The model with `event` scheduled `after` cycles from now.
pub open spec fn scheduled(m: DmaModel, event: Event, after: u64) -> DmaModel {
    DmaModel {
        events: m.events.push(ScheduledEvent { time: (m.elapsed + after) as u64, event }),
        last_scheduled: (m.elapsed + after) as u64,
        ..m
    }
}

/// The interrupt control register with its master flag updated.
pub open spec fn master_flag_updated(ic: u32) -> u32 {
    if crate::dma::InterruptControl(ic).spec_master_flag() {
        ic | 0x8000_0000
    } else {
        ic & 0x7FFF_FFFF
    }
}

/// Whether updating the master flag of `ic` raises it.
pub open spec fn master_flag_raised(ic: u32) -> bool {
    bits_of(ic, 31, 1) != 1 && crate::dma::InterruptControl(ic).spec_master_flag()
}

/// The model with the master interrupt flag updated, and the DMA interrupt requested if the flag
/// was raised.
pub open spec fn master_updated(m: DmaModel) -> DmaModel {
    DmaModel {
        interrupt_control: master_flag_updated(m.interrupt_control),
        interrupt_status: if master_flag_raised(m.interrupt_control) {
            m.interrupt_status | (1u32 << 3u32)
        } else {
            m.interrupt_status
        },
        ..m
    }
}

/// The model with the interrupt flag of channel `i` set, if the channel may raise an interrupt.
pub open spec fn flagged(m: DmaModel, i: u32) -> DmaModel {
    if bits_of(m.interrupt_control, (16 + i) as u32, 1) == 1 {
        DmaModel { interrupt_control: m.interrupt_control | (1u32 << (24 + i) as u32), ..m }
    } else {
        m
    }
}

/// Whether the data of the channel goes forward.
pub open spec fn forward(c: ChannelState) -> bool {
    c.control.spec_data_direction() == DataDirection::Forward
}

/// Whether the channel copies from its device to RAM.
pub open spec fn to_ram(c: ChannelState) -> bool {
    c.control.spec_transfer_direction() == TransferDirection::DeviceToRam
}

/// The address of the next word: four bytes after or before `a`, wrapping around.
pub open spec fn next_addr(a: u32, forward: bool) -> u32 {
    if forward {
        if a + 4 > u32::MAX {
            (a + 4 - 0x1_0000_0000) as u32
        } else {
            (a + 4) as u32
        }
    } else {
        if a < 4 {
            (a + 0x1_0000_0000 - 4) as u32
        } else {
            (a - 4) as u32
        }
    }
}

/// The position of `a` on a line where addresses from `0x8000_0000` on lie below zero.
pub open spec fn addr_pos(a: u32) -> int {
    if a >= 0x8000_0000 {
        a - 0x1_0000_0000
    } else {
        a as int
    }
}

/// The model with the base of channel `ch` set to `addr` and its block size to zero, if the
/// channel behaves alternatively.
pub open spec fn alt_finished(m: DmaModel, ch: Channel, addr: u32) -> DmaModel {
    let i = ch.spec_index() as int;
    let c = m.channels[i];
    if bits_of(c.control.0, 8, 1) == 1 {
        DmaModel {
            channels: m.channels.update(
                i,
                ChannelState {
                    base: ChannelBase((c.base.0 & 0xFF00_0000) | (addr & 0x00FF_FFFF)),
                    block_control: ChannelBlockControl(c.block_control.0 & 0xFFFF_0000),
                    ..c
                },
            ),
            ..m
        }
    } else {
        m
    }
}

/// The byte at `k` of the sector data, or zero past its end.
pub open spec fn sector_byte(s: Seq<u8>, k: int) -> u8 {
    if k < s.len() {
        s[k]
    } else {
        0
    }
}

/// The word made of the next four bytes of the sector data, the first lowest.
pub open spec fn sector_word(s: Seq<u8>) -> u32 {
    (sector_byte(s, 0) as u32 | ((sector_byte(s, 1) as u32) << 8u32) | ((sector_byte(s, 2) as u32)
        << 16u32) | ((sector_byte(s, 3) as u32) << 24u32))
}

/// The sector data once its next four bytes are read.
pub open spec fn sector_rest(s: Seq<u8>) -> Seq<u8> {
    if s.len() < 4 {
        Seq::empty()
    } else {
        s.skip(4)
    }
}

/// One step of a burst transfer: the transfer, the model and the progress after it.
///
/// The OTC channel writes a word pointing to the next address, or the end marker `0xFF_FFFF` as
/// its last word; the CDROM channel writes the next word of sector data (zero while the data is
/// locked) and, once done, asks the CDROM to update. Other channels finish at once.
pub open spec fn burst_step(t: BurstTransfer, m: DmaModel) -> (BurstTransfer, DmaModel, Progress) {
    let c = m.channels[t.channel.spec_index() as int];
    let next = next_addr(t.current_addr, forward(c));
    match t.channel {
        Channel::OTC => if t.remaining > 1 {
            (
                BurstTransfer { current_addr: next, remaining: (t.remaining - 1) as u32, ..t },
                DmaModel { mem: mem_write(m.mem, t.current_addr, next & 0x00FF_FFFF), ..m },
                Progress::Ongoing,
            )
        } else {
            (
                BurstTransfer { current_addr: next, ..t },
                alt_finished(
                    DmaModel { mem: mem_write(m.mem, t.current_addr, 0x00FF_FFFF), ..m },
                    t.channel,
                    t.current_addr,
                ),
                Progress::Finished,
            )
        },
        Channel::CDROM => {
            let word = if m.sector_locked {
                0
            } else {
                sector_word(m.sector_data)
            };
            let rest = if m.sector_locked {
                m.sector_data
            } else {
                sector_rest(m.sector_data)
            };
            let written = DmaModel {
                mem: mem_write(m.mem, t.current_addr, word),
                sector_data: rest,
                ..m
            };
            let t2 = BurstTransfer { current_addr: next, remaining: (t.remaining - 1) as u32, ..t };
            if t.remaining == 1 {
                (
                    t2,
                    scheduled(
                        alt_finished(written, t.channel, t.current_addr),
                        Event::Cdrom(cdrom::Event::Update),
                        0,
                    ),
                    Progress::Finished,
                )
            } else {
                (t2, written, Progress::Ongoing)
            }
        },
        _ => (BurstTransfer { current_addr: next, ..t }, m, Progress::Finished),
    }
}

/// One word of a slice transfer at `addr`: the GPU channel moves the next word of the GPU
/// response to RAM, or the word at `addr` to the render queue of the GPU. Other channels move
/// nothing.
pub open spec fn slice_word(m: DmaModel, ch: Channel, to_ram: bool, addr: u32) -> DmaModel {
    if ch == Channel::GPU {
        if to_ram {
            DmaModel {
                mem: mem_write(m.mem, addr, m.response_queue[0]),
                response_queue: m.response_queue.drop_first(),
                ..m
            }
        } else {
            DmaModel { render_queue: m.render_queue.push(mem_read(m.mem, addr)), ..m }
        }
    } else {
        m
    }
}

/// The address of word `n` of a slice starting at `start`.
pub open spec fn slice_addr(start: u32, forward: bool, n: nat) -> u32
    decreases n,
{
    if n == 0 {
        start
    } else {
        next_addr(slice_addr(start, forward, (n - 1) as nat), forward)
    }
}

/// The model once the first `n` words of a slice starting at `start` are moved.
pub open spec fn slice_words(
    m: DmaModel,
    ch: Channel,
    to_ram: bool,
    forward: bool,
    start: u32,
    n: nat,
) -> DmaModel
    decreases n,
{
    if n == 0 {
        m
    } else {
        slice_word(
            slice_words(m, ch, to_ram, forward, start, (n - 1) as nat),
            ch,
            to_ram,
            slice_addr(start, forward, (n - 1) as nat),
        )
    }
}

/// One block of a slice transfer: the words of the block are moved from the base address of the
/// channel on, then the base address moves past them and the block count decreases. The
/// transfer yields while blocks are left, and finishes after the last one.
pub open spec fn slice_step(t: SliceTransfer, m: DmaModel) -> (DmaModel, Progress) {
    let i = t.channel.spec_index() as int;
    let c = m.channels[i];
    let count = bits_of(c.block_control.0, 16, 16);
    let len = bits_of(c.block_control.0, 0, 16);
    let start = c.base.0 & 0x00FF_FFFC;
    let done = slice_words(m, t.channel, to_ram(c), forward(c), start, len as nat);
    let end = slice_addr(start, forward(c), len as nat);
    let c2 = ChannelState {
        base: ChannelBase((c.base.0 & 0xFF00_0000) | (end & 0x00FF_FFFF)),
        block_control: ChannelBlockControl(
            (c.block_control.0 & 0x0000_FFFF) | (((count - 1) as u32) << 16u32),
        ),
        ..c
    };
    (
        DmaModel { channels: done.channels.update(i, c2), ..done },
        if count > 1 {
            Progress::Yielded
        } else {
            Progress::Finished
        },
    )
}

/// A slice transfer can move its next block: the channel has a block left, and a GPU transfer
/// to RAM finds a word of response for each word of the block.
pub open spec fn slice_ready(t: SliceTransfer, m: DmaModel) -> bool {
    let c = m.channels[t.channel.spec_index() as int];
    &&& bits_of(c.block_control.0, 16, 16) >= 1
    &&& t.channel == Channel::GPU && to_ram(c) ==> m.response_queue.len() >= bits_of(
        c.block_control.0,
        0,
        16,
    )
}

/// The words of the linked list node at `addr` after its header.
pub open spec fn node_words(mem: MemModel, addr: u32, n: nat) -> Seq<u32> {
    Seq::new(n, |k: int| mem_read(mem, (addr + 4 * (k + 1)) as u32))
}

/// One node of a linked list transfer: the header at the base address of the channel holds the
/// address of the next node (bits 0..24) and the number of words that follow it (bits 24..32).
/// Unless the next address is the end marker `0xFF_FFFF`, the words go to the render queue of
/// the GPU, the base moves to the next node and the transfer yields; at the end marker it
/// finishes.
pub open spec fn linked_step(t: LinkedTransfer, m: DmaModel) -> (DmaModel, Progress) {
    let i = t.channel.spec_index() as int;
    let c = m.channels[i];
    let addr = c.base.0 & 0x00FF_FFFC;
    let node = mem_read(m.mem, addr);
    let next = node & 0x00FF_FFFF;
    if next == 0x00FF_FFFF {
        (m, Progress::Finished)
    } else {
        (
            DmaModel {
                render_queue: m.render_queue + node_words(m.mem, addr, (node >> 24u32) as nat),
                channels: m.channels.update(
                    i,
                    ChannelState {
                        base: ChannelBase((c.base.0 & 0xFF00_0000) | (next & 0x00FF_FFFC)),
                        ..c
                    },
                ),
                ..m
            },
            Progress::Yielded,
        )
    }
}

/// A burst transfer has words left, and its address stays, over all the words it may still
/// write, in the first `0x0110_0000` bytes or in the last `0x40000` bytes of the address space,
/// where no access reaches the IO ports.
pub open spec fn burst_wf(t: BurstTransfer) -> bool {
    &&& 1 <= t.remaining <= 0x10000
    &&& t.current_addr % 4 == 0
    &&& -4 * (0x10000 - t.remaining) <= addr_pos(t.current_addr) <= 0x00FF_FFFC + 4 * (0x10000
        - t.remaining)
}

/// Whether a transfer in state `s` keeps to its bounds.
pub open spec fn state_wf(s: State) -> bool {
    match s {
        State::BurstTransfer(t) => burst_wf(t),
        _ => true,
    }
}

/// One step of the transfer in state `s`: its channel, then the state, the model and the
/// progress after the step.
pub open spec fn transfer_step(s: State, m: DmaModel) -> (Channel, State, DmaModel, Progress) {
    match s {
        State::BurstTransfer(t) => {
            let (t2, m2, p) = burst_step(t, m);
            (t.channel, State::BurstTransfer(t2), m2, p)
        },
        State::SliceTransfer(t) => {
            let (m2, p) = slice_step(t, m);
            (t.channel, s, m2, p)
        },
        State::LinkedTransfer(t) => {
            let (m2, p) = linked_step(t, m);
            (t.channel, s, m2, p)
        },
        State::Idle => (Channel::OTC, s, m, Progress::Finished),
    }
}

/// Whether a transfer in state `s` can advance on the model: one is ongoing, a slice transfer
/// is ready for its next block, and a linked list transfer goes to the GPU.
pub open spec fn advance_ready(s: State, m: DmaModel) -> bool {
    match s {
        State::Idle => false,
        State::BurstTransfer(_) => true,
        State::SliceTransfer(t) => slice_ready(t, m),
        State::LinkedTransfer(t) => t.channel == Channel::GPU,
    }
}

/// The model with the device of channel `ch` asked to update: the GPU or the CDROM.
pub open spec fn device_scheduled(m: DmaModel, ch: Channel) -> DmaModel {
    match ch {
        Channel::GPU => scheduled(m, Event::Gpu, 0),
        Channel::CDROM => scheduled(m, Event::Cdrom(cdrom::Event::Update), 0),
        _ => m,
    }
}

/// The model once the device of channel `ch` is asked to update and the progress of its
/// transfer is handled.
///
/// An ongoing transfer advances again after the time the channel takes for a word. A transfer
/// that yields raises the interrupt flag of its channel (if the channel may raise one) when the
/// channel interrupts on each block, then advances again. A finished transfer clears the
/// transfer flag of its channel and raises its interrupt flag (if the channel may raise one).
pub open spec fn progress_handled(m: DmaModel, ch: Channel, progress: Progress) -> DmaModel {
    let m1 = device_scheduled(m, ch);
    let i = ch.spec_index();
    match progress {
        Progress::Ongoing => scheduled(m1, Event::DmaAdvance, ch.spec_cycles_per_word()),
        Progress::Yielded => {
            let m2 = if bits_of(m1.interrupt_control, i, 1) == 1 {
                master_updated(flagged(m1, i))
            } else {
                m1
            };
            scheduled(m2, Event::DmaAdvance, ch.spec_cycles_per_word())
        },
        Progress::Finished => {
            let c = m1.channels[i as int];
            let m2 = DmaModel {
                channels: m1.channels.update(
                    i as int,
                    ChannelState { control: ChannelControl(c.control.0 & 0xFEFF_FFFF), ..c },
                ),
                ..m1
            };
            master_updated(flagged(m2, i))
        },
    }
}

/// The state and the model after the executor advances the transfer of state `s`: the master
/// interrupt flag is updated, the transfer takes a step and its progress is handled. A finished
/// transfer leaves the executor idle.
pub open spec fn advance_spec(s: State, m: DmaModel) -> (State, DmaModel) {
    let (ch, s2, m2, progress) = transfer_step(s, master_updated(m));
    (
        if progress == Progress::Finished {
            State::Idle
        } else {
            s2
        },
        progress_handled(m2, ch, progress),
    )
}

/// The GPU status with its DMA request flag (bit 25) updated.
pub open spec fn dreq_updated(status: u32) -> u32 {
    if GpuStatus(status).spec_dreq() {
        status | (1u32 << 25u32)
    } else {
        status & !(1u32 << 25u32)
    }
}

/// The transfer a channel in state `c` starts, by its transfer mode: a burst transfer (also for
/// an unknown mode) over the block size, `0x10000` words for a block size of zero, from the base
/// address; a slice transfer; or a linked list transfer.
pub open spec fn started(ch: Channel, c: ChannelState) -> State {
    let len = bits_of(c.block_control.0, 0, 16);
    match c.control.spec_transfer_mode() {
        Some(TransferMode::Slice) => State::SliceTransfer(SliceTransfer { channel: ch }),
        Some(TransferMode::LinkedList) => State::LinkedTransfer(LinkedTransfer { channel: ch }),
        _ => State::BurstTransfer(
            BurstTransfer {
                channel: ch,
                current_addr: c.base.0 & 0x00FF_FFFC,
                remaining: if len == 0 {
                    0x10000
                } else {
                    len
                },
            },
        ),
    }
}

/// The state and the model once the channels of `order` from position `k` on are looked at in
/// turn: the first one whose transfer flag is set and that asks for a transfer, or is forced to
/// start, clears its force flag, starts its transfer and has it advance after the time it
/// takes for a word. The GPU asks by its DMA request flag, updated when it is looked at; the
/// OTC never asks; other channels always do. If no channel starts, the state is idle.
pub open spec fn start_from(order: Seq<(Channel, u8)>, m: DmaModel, k: int) -> (State, DmaModel)
    decreases order.len() - k,
{
    if k < 0 || k >= order.len() {
        (State::Idle, m)
    } else {
        let ch = order[k].0;
        let i = ch.spec_index() as int;
        let c = m.channels[i];
        if bits_of(c.control.0, 24, 1) != 1 {
            start_from(order, m, k + 1)
        } else {
            let m1 = if ch == Channel::GPU {
                DmaModel { gpu_status: dreq_updated(m.gpu_status), ..m }
            } else {
                m
            };
            let dreq = match ch {
                Channel::OTC => false,
                Channel::GPU => bits_of(m1.gpu_status, 25, 1) == 1,
                _ => true,
            };
            if !dreq && bits_of(c.control.0, 28, 1) != 1 {
                start_from(order, m1, k + 1)
            } else {
                let c2 = ChannelState { control: ChannelControl(c.control.0 & 0xEFFF_FFFF), ..c };
                (
                    started(ch, c),
                    scheduled(
                        DmaModel { channels: m1.channels.update(i, c2), ..m1 },
                        Event::DmaAdvance,
                        ch.spec_cycles_per_word(),
                    ),
                )
            }
        }
    }
}

/// Proof that an address low in the address space, or in `KSEG2`, does not reach the IO ports.
proof fn lemma_not_io(a: u32)
    requires
        a < 0x0110_0000 || a >= 0xC000_0000,
    ensures
        spec_access(a) != Access::IoPorts,
{
}

/// Proof that the next address of an aligned address is aligned and one word further.
proof fn lemma_next_addr(a: u32, forward: bool)
    requires
        a % 4 == 0,
    ensures
        next_addr(a, forward) % 4 == 0,
        forward && a != 0x7FFF_FFFC ==> addr_pos(next_addr(a, forward)) == addr_pos(a) + 4,
        !forward && a != 0x8000_0000 ==> addr_pos(next_addr(a, forward)) == addr_pos(a) - 4,
{
}

/// Proof that the words of a slice of at most `0x10000` words from an aligned 24-bit address
/// stay aligned, and within four bytes a word of the start.
proof fn lemma_slice_addr(start: u32, forward: bool, n: nat)
    requires
        start % 4 == 0,
        start <= 0x00FF_FFFC,
        n <= 0x10000,
    ensures
        slice_addr(start, forward, n) % 4 == 0,
        start - 4 * n <= addr_pos(slice_addr(start, forward, n)) <= start + 4 * n,
    decreases n,
{
    if n > 0 {
        lemma_slice_addr(start, forward, (n - 1) as nat);
        lemma_next_addr(slice_addr(start, forward, (n - 1) as nat), forward);
    }
}

/// Proof that an address within `0x40000` bytes of a 24-bit address does not reach the IO
/// ports.
proof fn lemma_near_not_io(a: u32)
    requires
        -0x40000 <= addr_pos(a) <= 0x00FF_FFFC + 0x40000,
    ensures
        spec_access(a) != Access::IoPorts,
{
    lemma_not_io(a);
}

/// Proof that a burst transfer that goes on after a step still keeps to its bounds.
proof fn lemma_burst_step_wf(t: BurstTransfer, m: DmaModel)
    requires
        burst_wf(t),
        burst_step(t, m).2 == Progress::Ongoing,
    ensures
        burst_wf(burst_step(t, m).0),
{
    lemma_next_addr(t.current_addr, forward(m.channels[t.channel.spec_index() as int]));
}

/// Proof that the word address a channel base gives is aligned and within 24 bits.
proof fn lemma_word_addr(base: u32)
    ensures
        (base & 0x00FF_FFFC) % 4 == 0,
        base & 0x00FF_FFFC <= 0x00FF_FFFC,
{
    assert((base & 0x00FF_FFFC) % 4 == 0 && (base & 0x00FF_FFFC) <= 0x00FF_FFFC) by (bit_vector);
}

/// Proof that a started transfer keeps to its bounds.
proof fn lemma_started_wf(ch: Channel, c: ChannelState)
    ensures
        state_wf(started(ch, c)),
{
    lemma_word_addr(c.base.0);
    vstd::arithmetic::power2::lemma2_to64();
}

/// Proof that moving the words of a slice keeps the time and the channel registers.
proof fn lemma_slice_words_frame(
    m: DmaModel,
    ch: Channel,
    to_ram: bool,
    forward: bool,
    start: u32,
    n: nat,
)
    ensures
        slice_words(m, ch, to_ram, forward, start, n).elapsed == m.elapsed,
        slice_words(m, ch, to_ram, forward, start, n).channels == m.channels,
        slice_words(m, ch, to_ram, forward, start, n).interrupt_control == m.interrupt_control,
    decreases n,
{
    if n > 0 {
        lemma_slice_words_frame(m, ch, to_ram, forward, start, (n - 1) as nat);
    }
}

/// Proof that a step of a transfer keeps the time and the interrupt control register.
proof fn lemma_transfer_step_elapsed(s: State, m: DmaModel)
    ensures
        transfer_step(s, m).2.elapsed == m.elapsed,
        transfer_step(s, m).2.interrupt_control == m.interrupt_control,
{
    if let State::SliceTransfer(t) = s {
        let c = m.channels[t.channel.spec_index() as int];
        lemma_slice_words_frame(
            m,
            t.channel,
            to_ram(c),
            forward(c),
            c.base.0 & 0x00FF_FFFC,
            bits_of(c.block_control.0, 0, 16) as nat,
        );
    }
}

/// The master interrupt flag of `ic` (bit 31) is set exactly when a bus error is flagged, or
/// channel interrupts are enabled and some channel has its interrupt flag set.
pub open spec fn master_flag_consistent(ic: u32) -> bool {
    (bits_of(ic, 31, 1) == 1) == crate::dma::InterruptControl(ic).spec_master_flag()
}

/// Proof that updating the master flag makes it consistent.
proof fn lemma_master_flag_updated(ic: u32)
    ensures
        master_flag_consistent(master_flag_updated(ic)),
{
    vstd::arithmetic::power2::lemma2_to64();
    let u = master_flag_updated(ic);
    assert(bits_of(ic, 15, 1) == (ic / 0x8000) % 2);
    assert(bits_of(ic, 23, 1) == (ic / 0x80_0000) % 2);
    assert(bits_of(ic, 24, 7) == (ic / 0x100_0000) % 128);
    assert(bits_of(u, 15, 1) == (u / 0x8000) % 2);
    assert(bits_of(u, 23, 1) == (u / 0x80_0000) % 2);
    assert(bits_of(u, 24, 7) == (u / 0x100_0000) % 128);
    assert(bits_of(u, 31, 1) == (u / 0x8000_0000) % 2);
    let set = ic | 0x8000_0000;
    let clear = ic & 0x7FFF_FFFF;
    assert((set / 0x8000_0000) % 2 == 1 && (clear / 0x8000_0000) % 2 == 0 && (set / 0x8000) % 2
        == (ic / 0x8000) % 2 && (clear / 0x8000) % 2 == (ic / 0x8000) % 2 && (set / 0x80_0000) % 2
        == (ic / 0x80_0000) % 2 && (clear / 0x80_0000) % 2 == (ic / 0x80_0000) % 2 && (set
        / 0x100_0000) % 128 == (ic / 0x100_0000) % 128 && (clear / 0x100_0000) % 128 == (ic
        / 0x100_0000) % 128) by (bit_vector)
        requires
            set == ic | 0x8000_0000,
            clear == ic & 0x7FFF_FFFF,
    ;
}

/// Proof that looking for a channel to start keeps the interrupt control register.
proof fn lemma_start_from_keeps_interrupts(order: Seq<(Channel, u8)>, m: DmaModel, k: int)
    ensures
        start_from(order, m, k).1.interrupt_control == m.interrupt_control,
    decreases order.len() - k,
{
    if 0 <= k < order.len() {
        let ch = order[k].0;
        let m1 = if ch == Channel::GPU {
            DmaModel { gpu_status: dreq_updated(m.gpu_status), ..m }
        } else {
            m
        };
        lemma_start_from_keeps_interrupts(order, m, k + 1);
        lemma_start_from_keeps_interrupts(order, m1, k + 1);
    }
}

/// Law: after the executor advances a transfer, the master interrupt flag of the DMA controller
/// is set exactly when a bus error is flagged, or channel interrupts are enabled and some
/// channel has its interrupt flag set.
pub proof fn law_advance_master_flag(s: State, m: DmaModel)
    ensures
        master_flag_consistent(advance_spec(s, m).1.interrupt_control),
{
    let m1 = master_updated(m);
    let (ch, s2, m2, progress) = transfer_step(s, m1);
    lemma_transfer_step_elapsed(s, m1);
    lemma_master_flag_updated(m.interrupt_control);
    let i = ch.spec_index();
    let m3 = device_scheduled(m2, ch);
    if progress == Progress::Yielded && bits_of(m3.interrupt_control, i, 1) == 1 {
        lemma_master_flag_updated(flagged(m3, i).interrupt_control);
    }
    if progress == Progress::Finished {
        let c = m3.channels[i as int];
        let m4 = DmaModel {
            channels: m3.channels.update(
                i as int,
                ChannelState { control: ChannelControl(c.control.0 & 0xFEFF_FFFF), ..c },
            ),
            ..m3
        };
        lemma_master_flag_updated(flagged(m4, i).interrupt_control);
    }
}

/// Law: after the executor updates, whichever channel it starts, the master interrupt flag of
/// the DMA controller is set exactly when a bus error is flagged, or channel interrupts are
/// enabled and some channel has its interrupt flag set.
pub proof fn law_update_master_flag(m: DmaModel, order: Seq<(Channel, u8)>)
    ensures
        master_flag_consistent(master_updated(m).interrupt_control),
        master_flag_consistent(start_from(order, master_updated(m), 0).1.interrupt_control),
{
    lemma_master_flag_updated(m.interrupt_control);
    lemma_start_from_keeps_interrupts(order, master_updated(m), 0);
}

/// Whether channel `ch` would start on the model: its transfer flag is set, and it asks for a
/// transfer or is forced to start. The GPU asks by its DMA request flag once updated, the OTC
/// never asks, other channels always do.
pub open spec fn eligible(ch: Channel, m: DmaModel) -> bool {
    let c = m.channels[ch.spec_index() as int];
    let dreq = match ch {
        Channel::OTC => false,
        Channel::GPU => bits_of(dreq_updated(m.gpu_status), 25, 1) == 1,
        _ => true,
    };
    bits_of(c.control.0, 24, 1) == 1 && (dreq || bits_of(c.control.0, 28, 1) == 1)
}

/// The channel of the transfer of state `s`, if one is ongoing.
pub open spec fn state_channel(s: State) -> Option<Channel> {
    match s {
        State::Idle => None,
        State::BurstTransfer(t) => Some(t.channel),
        State::SliceTransfer(t) => Some(t.channel),
        State::LinkedTransfer(t) => Some(t.channel),
    }
}

/// Proof that updating the DMA request flag twice gives what updating it once does.
proof fn lemma_dreq_updated_twice(status: u32)
    ensures
        dreq_updated(dreq_updated(status)) == dreq_updated(status),
{
    vstd::arithmetic::power2::lemma2_to64();
    let u = dreq_updated(status);
    assert(bits_of(status, 29, 2) == (status / 0x2000_0000) % 4);
    assert(bits_of(u, 29, 2) == (u / 0x2000_0000) % 4);
    assert(bits_of(status, 28, 1) == (status / 0x1000_0000) % 2);
    assert(bits_of(u, 28, 1) == (u / 0x1000_0000) % 2);
    assert(bits_of(status, 27, 1) == (status / 0x0800_0000) % 2);
    assert(bits_of(u, 27, 1) == (u / 0x0800_0000) % 2);
    let set = status | (1u32 << 25u32);
    let clear = status & !(1u32 << 25u32);
    assert((set / 0x2000_0000) % 4 == (status / 0x2000_0000) % 4 && (clear / 0x2000_0000) % 4
        == (status / 0x2000_0000) % 4 && (set / 0x1000_0000) % 2 == (status / 0x1000_0000) % 2
        && (clear / 0x1000_0000) % 2 == (status / 0x1000_0000) % 2 && (set / 0x0800_0000) % 2
        == (status / 0x0800_0000) % 2 && (clear / 0x0800_0000) % 2 == (status / 0x0800_0000) % 2
        && set | (1u32 << 25u32) == set && set & !(1u32 << 25u32) == clear && clear | (1u32
        << 25u32) == set && clear & !(1u32 << 25u32) == clear) by (bit_vector)
        requires
            set == status | (1u32 << 25u32),
            clear == status & !(1u32 << 25u32),
    ;
}

/// Proof of the law of `start_from`, from position `k` on, on a model that may have had the DMA
/// request of the GPU updated.
proof fn lemma_start_from_priority(order: Seq<(Channel, u8)>, m0: DmaModel, m: DmaModel, k: int)
    requires
        by_priority(order),
        0 <= k <= order.len(),
        m.channels == m0.channels,
        m.gpu_status == m0.gpu_status || m.gpu_status == dreq_updated(m0.gpu_status),
    ensures
        (start_from(order, m, k).0 is Idle) <==> (forall|j: int|
            k <= j < order.len() ==> !eligible(#[trigger] order[j].0, m0)),
        !(start_from(order, m, k).0 is Idle) ==> exists|f: int|
            k <= f < order.len() && eligible(#[trigger] order[f].0, m0) && state_channel(
                start_from(order, m, k).0,
            ) == Some(order[f].0) && forall|j: int|
                k <= j < order.len() && eligible(#[trigger] order[j].0, m0) ==> order[j].1
                    <= order[f].1,
    decreases order.len() - k,
{
    lemma_dreq_updated_twice(m0.gpu_status);
    if k < order.len() {
        let ch = order[k].0;
        let m1 = if ch == Channel::GPU {
            DmaModel { gpu_status: dreq_updated(m.gpu_status), ..m }
        } else {
            m
        };
        assert(eligible(ch, m0) == eligible(ch, m));
        lemma_start_from_priority(order, m0, m, k + 1);
        lemma_start_from_priority(order, m0, m1, k + 1);
        if eligible(ch, m0) {
            let c = m.channels[ch.spec_index() as int];
            assert(state_channel(started(ch, c)) == Some(ch));
            assert forall|j: int|
                k <= j < order.len() && eligible(#[trigger] order[j].0, m0) implies order[j].1
                <= order[k].1 by {}
        } else {
            if !(start_from(order, m, k).0 is Idle) {
                let f = choose|f: int|
                    k + 1 <= f < order.len() && eligible(#[trigger] order[f].0, m0)
                        && state_channel(start_from(order, m1, k + 1).0) == Some(order[f].0)
                        && forall|j: int|
                        k + 1 <= j < order.len() && eligible(#[trigger] order[j].0, m0)
                            ==> order[j].1 <= order[f].1;
                assert forall|j: int|
                    k <= j < order.len() && eligible(#[trigger] order[j].0, m0) implies order[j].1
                    <= order[f].1 by {
                    if j == k {
                    }
                }
            }
        }
    }
}

/// Law: looking at the channels from the highest priority down, the executor starts a transfer
/// exactly when some channel is eligible to start, and then on an eligible channel that no
/// eligible channel outranks.
pub proof fn law_start_highest_priority(order: Seq<(Channel, u8)>, m: DmaModel)
    requires
        by_priority(order),
    ensures
        (start_from(order, m, 0).0 is Idle) <==> (forall|j: int|
            0 <= j < order.len() ==> !eligible(#[trigger] order[j].0, m)),
        !(start_from(order, m, 0).0 is Idle) ==> exists|f: int|
            0 <= f < order.len() && eligible(#[trigger] order[f].0, m) && state_channel(
                start_from(order, m, 0).0,
            ) == Some(order[f].0) && forall|j: int|
                0 <= j < order.len() && eligible(#[trigger] order[j].0, m) ==> order[j].1
                    <= order[f].1,
{
    lemma_start_from_priority(order, m, m, 0);
}

/// The state and the model after the executor advances `n` times from state `s`.
pub open spec fn advance_run(s: State, m: DmaModel, n: nat) -> (State, DmaModel)
    decreases n,
{
    if n == 0 {
        (s, m)
    } else {
        let prev = advance_run(s, m, (n - 1) as nat);
        advance_spec(prev.0, prev.1)
    }
}

/// The burst transfer of the OTC channel over `len` words from `start` on.
pub open spec fn otc_burst(start: u32, len: u32) -> State {
    State::BurstTransfer(BurstTransfer { channel: Channel::OTC, current_addr: start, remaining: len })
}

/// The address of word `k` of an ordering table whose first word is at `start`: the words go
/// down from there.
pub open spec fn otc_entry(start: u32, k: int) -> u32 {
    (start - 4 * k) as u32
}

/// Proof that a word address of RAM masked to 24 bits is itself.
proof fn lemma_ram_addr_24(a: u32)
    requires
        a < 0x20_0000,
    ensures
        a & 0x00FF_FFFF == a,
{
    assert(a < 0x20_0000 ==> a & 0x00FF_FFFF == a) by (bit_vector);
}

/// Proof of the ordering table law for the first `j` advances.
proof fn lemma_otc_run(start: u32, len: u32, m: DmaModel, j: nat)
    requires
        1 <= len <= 0x10000,
        start % 4 == 0,
        start < 0x20_0000,
        4 * (len - 1) <= start,
        m.mem.ram.len() == 0x20_0000,
        !forward(m.channels[6]),
        j <= len - 1,
    ensures
        advance_run(otc_burst(start, len), m, j).0 == otc_burst(
            (start - 4 * j) as u32,
            (len - j) as u32,
        ),
        advance_run(otc_burst(start, len), m, j).1.channels == m.channels,
        advance_run(otc_burst(start, len), m, j).1.mem.ram.len() == 0x20_0000,
        forall|k: int|
            0 <= k < j ==> #[trigger] mem_read(
                advance_run(otc_burst(start, len), m, j).1.mem,
                otc_entry(start, k),
            ) == otc_entry(start, k + 1),
    decreases j,
{
    if j > 0 {
        lemma_otc_run(start, len, m, (j - 1) as nat);
        let prev = advance_run(otc_burst(start, len), m, (j - 1) as nat);
        let cur = (start - 4 * (j - 1)) as u32;
        let next = (start - 4 * j) as u32;
        let m1 = master_updated(prev.1);
        assert(next_addr(cur, forward(m1.channels[6])) == next);
        lemma_ram_addr_24(next);
        let mem = mem_write(m1.mem, cur, next);
        assert(advance_run(otc_burst(start, len), m, j).1.mem == mem);
        assert forall|k: int| 0 <= k < j implies #[trigger] mem_read(
            advance_run(otc_burst(start, len), m, j).1.mem,
            otc_entry(start, k),
        ) == otc_entry(start, k + 1) by {
            law_ram_word_read_after_write(m1.mem, cur, otc_entry(start, k), next);
        }
    }
}

/// Law: once the OTC channel starts a transfer of `len` words from the word at `start` down
/// (its data going backward), within RAM, the executor stays busy for `len` advances and then
/// leaves behind an ordering table: each of the words holds the address of the word below it,
/// and the last one the end marker `0xFF_FFFF`.
pub proof fn law_otc_ordering_table(start: u32, len: u32, m: DmaModel)
    requires
        1 <= len <= 0x10000,
        start % 4 == 0,
        start < 0x20_0000,
        4 * (len - 1) <= start,
        m.mem.ram.len() == 0x20_0000,
        !forward(m.channels[6]),
    ensures
        forall|j: nat| j < len ==> !(#[trigger] advance_run(otc_burst(start, len), m, j).0 is Idle),
        advance_run(otc_burst(start, len), m, len as nat).0 is Idle,
        forall|k: int|
            0 <= k < len - 1 ==> #[trigger] mem_read(
                advance_run(otc_burst(start, len), m, len as nat).1.mem,
                otc_entry(start, k),
            ) == otc_entry(start, k + 1),
        mem_read(
            advance_run(otc_burst(start, len), m, len as nat).1.mem,
            otc_entry(start, len - 1),
        ) == 0x00FF_FFFF,
{
    assert forall|j: nat| j < len implies !(#[trigger] advance_run(
        otc_burst(start, len),
        m,
        j,
    ).0 is Idle) by {
        lemma_otc_run(start, len, m, j);
    }
    let last = (len - 1) as nat;
    lemma_otc_run(start, len, m, last);
    let prev = advance_run(otc_burst(start, len), m, last);
    let cur = (start - 4 * last) as u32;
    let m1 = master_updated(prev.1);
    let mem = mem_write(m1.mem, cur, 0x00FF_FFFF);
    assert(advance_run(otc_burst(start, len), m, len as nat).1.mem == mem);
    law_ram_word_read_after_write(m1.mem, cur, cur, 0x00FF_FFFF);
    assert forall|k: int| 0 <= k < len - 1 implies #[trigger] mem_read(
        advance_run(otc_burst(start, len), m, len as nat).1.mem,
        otc_entry(start, k),
    ) == otc_entry(start, k + 1) by {
        law_ram_word_read_after_write(m1.mem, cur, otc_entry(start, k), 0x00FF_FFFF);
    }
}

/// The address of the next node in the header of the linked list node at `addr`.
pub open spec fn node_next(mem: MemModel, addr: u32) -> u32 {
    mem_read(mem, addr) & 0x00FF_FFFF
}

/// The number of words of the linked list node at `addr`, after its header.
pub open spec fn node_len(mem: MemModel, addr: u32) -> nat {
    (mem_read(mem, addr) >> 24u32) as nat
}

/// Whether `nodes` is a chain of linked list nodes in `mem`, at aligned 24-bit addresses: each
/// node but the last points to the next one, and the last one holds the end marker `0xFF_FFFF`.
pub open spec fn node_chain(mem: MemModel, nodes: Seq<u32>) -> bool {
    &&& nodes.len() >= 1
    &&& forall|i: int| 0 <= i < nodes.len() ==> #[trigger] nodes[i] % 4 == 0 && nodes[i] <= 0x00FF_FFFC
    &&& forall|i: int|
        0 <= i < nodes.len() - 1 ==> node_next(mem, #[trigger] nodes[i]) == nodes[i + 1]
    &&& node_next(mem, nodes.last()) == 0x00FF_FFFF
}

/// The words of the first `n` nodes of the chain, in order.
pub open spec fn chain_words(mem: MemModel, nodes: Seq<u32>, n: nat) -> Seq<u32>
    decreases n,
{
    if n == 0 {
        Seq::empty()
    } else {
        chain_words(mem, nodes, (n - 1) as nat) + node_words(
            mem,
            nodes[n - 1],
            node_len(mem, nodes[n - 1]),
        )
    }
}

/// The linked list transfer of the GPU channel.
pub open spec fn gpu_linked() -> State {
    State::LinkedTransfer(LinkedTransfer { channel: Channel::GPU })
}

/// Proof that an aligned 24-bit address survives the masks of a channel base.
proof fn lemma_node_addr(base: u32, x: u32)
    requires
        x % 4 == 0,
        x <= 0x00FF_FFFC,
    ensures
        x & 0x00FF_FFFC == x,
        ((base & 0xFF00_0000) | x) & 0x00FF_FFFC == x,
{
    assert(x % 4 == 0 && x <= 0x00FF_FFFC ==> x & 0x00FF_FFFC == x && ((base & 0xFF00_0000) | x)
        & 0x00FF_FFFC == x) by (bit_vector);
}

/// Proof that advancing a linked list transfer of the GPU channel at a node that points to
/// another one hands over the words of the node and moves to the next one.
proof fn lemma_linked_advance(m: DmaModel, node: u32, next: u32)
    requires
        m.channels.len() == 7,
        m.channels[2].base.0 & 0x00FF_FFFC == node,
        node_next(m.mem, node) == next,
        next % 4 == 0,
        next <= 0x00FF_FFFC,
    ensures
        advance_spec(gpu_linked(), m).0 == gpu_linked(),
        advance_spec(gpu_linked(), m).1.mem == m.mem,
        advance_spec(gpu_linked(), m).1.channels.len() == 7,
        advance_spec(gpu_linked(), m).1.channels[2].base.0 & 0x00FF_FFFC == next,
        advance_spec(gpu_linked(), m).1.render_queue == m.render_queue + node_words(
            m.mem,
            node,
            node_len(m.mem, node),
        ),
{
    let m1 = master_updated(m);
    lemma_node_addr(m1.channels[2].base.0, next);
    let (ch, s2, m2, progress) = transfer_step(gpu_linked(), m1);
    assert(progress == Progress::Yielded);
    assert(m2.channels[2].base.0 & 0x00FF_FFFC == next);
}

/// Proof that advancing a linked list transfer of the GPU channel at the end node finishes it
/// and hands nothing over.
proof fn lemma_linked_finish(m: DmaModel, node: u32)
    requires
        m.channels.len() == 7,
        m.channels[2].base.0 & 0x00FF_FFFC == node,
        node_next(m.mem, node) == 0x00FF_FFFF,
    ensures
        advance_spec(gpu_linked(), m).0 is Idle,
        advance_spec(gpu_linked(), m).1.render_queue == m.render_queue,
{
}

/// Proof of the linked list law for the first `j` advances.
proof fn lemma_linked_run(nodes: Seq<u32>, m: DmaModel, j: nat)
    requires
        node_chain(m.mem, nodes),
        m.channels.len() == 7,
        m.channels[2].base.0 & 0x00FF_FFFC == nodes[0],
        j < nodes.len(),
    ensures
        advance_run(gpu_linked(), m, j).0 == gpu_linked(),
        advance_run(gpu_linked(), m, j).1.mem == m.mem,
        advance_run(gpu_linked(), m, j).1.channels.len() == 7,
        advance_run(gpu_linked(), m, j).1.channels[2].base.0 & 0x00FF_FFFC == nodes[j as int],
        advance_run(gpu_linked(), m, j).1.render_queue == m.render_queue + chain_words(
            m.mem,
            nodes,
            j,
        ),
    decreases j,
{
    if j > 0 {
        lemma_linked_run(nodes, m, (j - 1) as nat);
        let prev = advance_run(gpu_linked(), m, (j - 1) as nat);
        let node = nodes[j - 1];
        let next = nodes[j as int];
        assert(next % 4 == 0 && next <= 0x00FF_FFFC);
        assert(node_next(m.mem, node) == next);
        lemma_linked_advance(prev.1, node, next);
        assert(prev.1.render_queue + node_words(m.mem, node, node_len(m.mem, node))
            =~= m.render_queue + chain_words(m.mem, nodes, j));
    }
}

/// Law: a linked list transfer of the GPU channel that starts at the first node of a chain
/// hands the GPU, in order, the words of each node but the last, which holds the end marker:
/// the executor stays busy for as many advances as the chain has nodes, then finishes with
/// those words appended to the render queue.
pub proof fn law_linked_list_delivers_chain(nodes: Seq<u32>, m: DmaModel)
    requires
        node_chain(m.mem, nodes),
        m.channels.len() == 7,
        m.channels[2].base.0 & 0x00FF_FFFC == nodes[0],
    ensures
        forall|j: nat| j < nodes.len() ==> #[trigger] advance_run(gpu_linked(), m, j).0 == gpu_linked(),
        advance_run(gpu_linked(), m, nodes.len()).0 is Idle,
        advance_run(gpu_linked(), m, nodes.len()).1.render_queue == m.render_queue + chain_words(
            m.mem,
            nodes,
            (nodes.len() - 1) as nat,
        ),
{
    assert forall|j: nat| j < nodes.len() implies #[trigger] advance_run(gpu_linked(), m, j).0
        == gpu_linked() by {
        lemma_linked_run(nodes, m, j);
    }
    let last = (nodes.len() - 1) as nat;
    lemma_linked_run(nodes, m, last);
    let prev = advance_run(gpu_linked(), m, last);
    assert(node_next(m.mem, nodes[last as int]) == 0x00FF_FFFF);
    lemma_linked_finish(prev.1, nodes[last as int]);
}

/// Updates the master interrupt flag, and requests the DMA interrupt if the flag rises.
fn update_master_interrupt(psx: &mut PSX)
    ensures
        model_of(*final(psx)) == master_updated(model_of(*old(psx))),
        outside_model_same(*old(psx), *final(psx)),
        final(psx).memory == old(psx).memory,
{
    if psx.dma.interrupt_control.update_master_interrupt_flag() {
        psx.interrupts.status.request(Interrupt::DMA);
    }
}

impl BurstTransfer {
    /// Moves one word.
    pub fn advance(&mut self, psx: &mut PSX) -> (r: Progress)
        requires
            burst_wf(*old(self)),
            old(psx).wf(),
        ensures
            (*final(self), model_of(*final(psx)), r) == burst_step(*old(self), model_of(*old(psx))),
            outside_model_same(*old(psx), *final(psx)),
            final(psx).wf(),
    {
        let ghost m = model_of(*psx);
        let index = self.channel.index() as usize;
        let increment: i32 = match psx.dma.channels[index].control.data_direction() {
            DataDirection::Forward => 4,
            DataDirection::Backward => -4,
        };
        proof {
            lemma_not_io(self.current_addr);
        }
        let next = self.current_addr.wrapping_add_signed(increment);
        let progress = match self.channel {
            Channel::OTC => {
                if self.remaining > 1 {
                    psx.write_word(self.current_addr, next & 0x00FF_FFFF);
                    self.remaining = self.remaining - 1;
                    Progress::Ongoing
                } else {
                    psx.write_word(self.current_addr, 0x00FF_FFFF);
                    self.finish_alternatively(psx);
                    Progress::Finished
                }
            },
            Channel::CDROM => {
                let data: u32 = if psx.cdrom.lock_data_queue {
                    0
                } else {
                    let ghost s = psx.cdrom.sector_data@;
                    let b0 = psx.cdrom.read_from_sector();
                    assert(b0 == sector_byte(s, 0));
                    assert(psx.cdrom.sector_data@ =~= s.skip(if s.len() < 1 { s.len() as int } else { 1 }));
                    let b1 = psx.cdrom.read_from_sector();
                    assert(b1 == sector_byte(s, 1));
                    assert(psx.cdrom.sector_data@ =~= s.skip(if s.len() < 2 { s.len() as int } else { 2 }));
                    let b2 = psx.cdrom.read_from_sector();
                    assert(b2 == sector_byte(s, 2));
                    assert(psx.cdrom.sector_data@ =~= s.skip(if s.len() < 3 { s.len() as int } else { 3 }));
                    let b3 = psx.cdrom.read_from_sector();
                    assert(b3 == sector_byte(s, 3));
                    assert(psx.cdrom.sector_data@ =~= sector_rest(s));
                    b0 as u32 | ((b1 as u32) << 8u32) | ((b2 as u32) << 16u32) | ((b3 as u32)
                        << 24u32)
                };
                psx.write_word(self.current_addr, data);
                self.remaining = self.remaining - 1;
                if self.remaining == 0 {
                    self.finish_alternatively(psx);
                    psx.scheduler.schedule(Event::Cdrom(cdrom::Event::Update), 0);
                    Progress::Finished
                } else {
                    Progress::Ongoing
                }
            },
            _ => Progress::Finished,
        };
        self.current_addr = next;
        assert(model_of(*psx) =~= burst_step(*old(self), m).1);
        progress
    }

    /// Once the transfer is done: if the channel behaves alternatively, sets its base to the
    /// current address and its block size to zero.
    fn finish_alternatively(&self, psx: &mut PSX)
        ensures
            model_of(*final(psx)) == alt_finished(
                model_of(*old(psx)),
                self.channel,
                self.current_addr,
            ),
            outside_model_same(*old(psx), *final(psx)),
            final(psx).memory == old(psx).memory,
    {
        let index = self.channel.index() as usize;
        let mut state = psx.dma.channels[index];
        if state.control.alternative_behaviour() {
            state.base.set_addr(self.current_addr);
            let bc = state.block_control.0;
            state.block_control.set_len(0);
            assert((bc & 0xFFFF_0000) | 0u32 == bc & 0xFFFF_0000) by (bit_vector);
            psx.dma.channels[index] = state;
            assert(psx.dma.channels@ =~= old(psx).dma.channels@.update(index as int, state));
        }
        assert(model_of(*psx) =~= alt_finished(
            model_of(*old(psx)),
            self.channel,
            self.current_addr,
        ));
    }
}

impl SliceTransfer {
    /// Moves one block.
    pub fn advance(&self, psx: &mut PSX) -> (r: Progress)
        requires
            old(psx).wf(),
            slice_ready(*self, model_of(*old(psx))),
        ensures
            (model_of(*final(psx)), r) == slice_step(*self, model_of(*old(psx))),
            outside_model_same(*old(psx), *final(psx)),
            final(psx).wf(),
    {
        let ghost m = model_of(*psx);
        let index = self.channel.index() as usize;
        let state = psx.dma.channels[index];
        let count = state.block_control.count();
        let len = state.block_control.len();
        let transfer_direction = state.control.transfer_direction();
        let increment: i32 = match state.control.data_direction() {
            DataDirection::Forward => 4,
            DataDirection::Backward => -4,
        };
        let ghost fwd = forward(state);
        let ghost dir = to_ram(state);
        let base = state.base.0;
        let start = base & 0x00FF_FFFC;
        proof {
            vstd::arithmetic::power2::lemma2_to64();
            lemma_word_addr(base);
        }
        let mut current_addr = start;
        let mut k: u32 = 0;
        while k < len
            invariant
                k <= len,
                len == bits_of(state.block_control.0, 0, 16),
                len < 0x10000,
                start % 4 == 0,
                start <= 0x00FF_FFFC,
                state == m.channels[self.channel.spec_index() as int],
                fwd == forward(state),
                dir == to_ram(state),
                transfer_direction == state.control.spec_transfer_direction(),
                increment == (if fwd { 4i32 } else { -4i32 }),
                current_addr == slice_addr(start, fwd, k as nat),
                model_of(*psx) == slice_words(m, self.channel, dir, fwd, start, k as nat),
                self.channel == Channel::GPU && dir ==> psx.gpu.response_queue@.len()
                    == m.response_queue.len() - k,
                self.channel == Channel::GPU && dir ==> m.response_queue.len() >= len,
                outside_model_same(*old(psx), *psx),
                psx.wf(),
            decreases len - k,
        {
            let ghost before = model_of(*psx);
            proof {
                lemma_slice_addr(start, fwd, k as nat);
                lemma_near_not_io(current_addr);
            }
            match self.channel {
                Channel::GPU => match transfer_direction {
                    TransferDirection::DeviceToRam => {
                        let value = psx.gpu.response_queue.pop_front().unwrap();
                        psx.write_word(current_addr, value);
                    },
                    TransferDirection::RamToDevice => {
                        let word = psx.read_word(current_addr);
                        psx.gpu.render_queue.push_back(word);
                    },
                },
                _ => {},
            }
            assert(model_of(*psx) =~= slice_word(before, self.channel, dir, current_addr));
            current_addr = current_addr.wrapping_add_signed(increment);
            k += 1;
        }
        let mut state2 = state;
        state2.base.set_addr(current_addr);
        state2.block_control.set_count((count - 1) as u16);
        psx.dma.channels[index] = state2;
        assert(model_of(*psx) =~= slice_step(*self, m).0);
        if count > 1 {
            Progress::Yielded
        } else {
            Progress::Finished
        }
    }
}

impl LinkedTransfer {
    /// Moves one node.
    pub fn advance(&self, psx: &mut PSX) -> (r: Progress)
        requires
            self.channel == Channel::GPU,
            old(psx).wf(),
        ensures
            (model_of(*final(psx)), r) == linked_step(*self, model_of(*old(psx))),
            outside_model_same(*old(psx), *final(psx)),
            final(psx).wf(),
    {
        let ghost m = model_of(*psx);
        let index = self.channel.index() as usize;
        let base = psx.dma.channels[index].base.0;
        let current_addr = base & 0x00FF_FFFC;
        proof {
            lemma_word_addr(base);
            lemma_not_io(current_addr);
        }
        let node = psx.read_word(current_addr);
        let next = node & 0x00FF_FFFF;
        let words = node >> 24u32;
        if next == 0x00FF_FFFF {
            Progress::Finished
        } else {
            proof {
                assert(words < 256) by (bit_vector)
                    requires
                        words == node >> 24u32,
                ;
            }
            let mut i: u32 = 0;
            while i < words
                invariant
                    i <= words,
                    words < 256,
                    current_addr <= 0x00FF_FFFC,
                    current_addr % 4 == 0,
                    model_of(*psx) == (DmaModel {
                        render_queue: m.render_queue + node_words(m.mem, current_addr, i as nat),
                        ..m
                    }),
                    outside_model_same(*old(psx), *psx),
                    psx.wf(),
                decreases words - i,
            {
                let addr = current_addr + (i + 1) * 4;
                proof {
                    lemma_not_io(addr);
                }
                let word = psx.read_word(addr);
                psx.gpu.render_queue.push_back(word);
                assert(psx.gpu.render_queue@ =~= m.render_queue + node_words(
                    m.mem,
                    current_addr,
                    (i + 1) as nat,
                ));
                i += 1;
            }
            let mut state = psx.dma.channels[index];
            state.base.set_addr(next & 0xFFFF_FFFC);
            psx.dma.channels[index] = state;
            proof {
                assert((next & 0xFFFF_FFFC) & 0x00FF_FFFF == next & 0x00FF_FFFC) by (bit_vector);
            }
            assert(model_of(*psx) =~= linked_step(*self, m).0);
            Progress::Yielded
        }
    }
}

/// Asks the device of `channel` to update and handles the progress of its transfer.
fn handle_progress(psx: &mut PSX, channel: Channel, progress: Progress)
    requires
        old(psx).scheduler.spec_elapsed() + 24 <= u64::MAX,
    ensures
        model_of(*final(psx)) == progress_handled(model_of(*old(psx)), channel, progress),
        outside_model_same(*old(psx), *final(psx)),
        final(psx).memory == old(psx).memory,
{
    let ghost m = model_of(*psx);
    match channel {
        Channel::GPU => psx.scheduler.schedule(Event::Gpu, 0),
        Channel::CDROM => psx.scheduler.schedule(Event::Cdrom(cdrom::Event::Update), 0),
        _ => {},
    }
    let ghost m1 = model_of(*psx);
    assert(m1 =~= device_scheduled(m, channel));
    let index = channel.index();
    proof {
        vstd::arithmetic::power2::lemma2_to64();
    }
    match progress {
        Progress::Ongoing => {
            psx.scheduler.schedule(Event::DmaAdvance, channel.cycles_per_word());
        },
        Progress::Yielded => {
            if psx.dma.interrupt_control.channel_interrupt_mode_at(index).unwrap()
                == crate::dma::ChannelInterruptMode::OnBlock {
                // set the interrupt flag if enabled
                if psx.dma.interrupt_control.channel_interrupt_mask_at(index).unwrap() {
                    psx.dma.interrupt_control.set_channel_interrupt_flags_at(index, true);
                }
                assert(model_of(*psx) =~= flagged(m1, index));
                update_master_interrupt(psx);
            }
            psx.scheduler.schedule(Event::DmaAdvance, channel.cycles_per_word());
        },
        Progress::Finished => {
            let mut state = psx.dma.channels[index as usize];
            state.control.set_transfer_ongoing(false);
            psx.dma.channels[index as usize] = state;
            let ghost m2 = model_of(*psx);
            assert(m2.channels =~= m1.channels.update(
                index as int,
                ChannelState {
                    control: ChannelControl(m1.channels[index as int].control.0 & 0xFEFF_FFFF),
                    ..m1.channels[index as int]
                },
            ));
            if psx.dma.interrupt_control.channel_interrupt_mask_at(index).unwrap() {
                psx.dma.interrupt_control.set_channel_interrupt_flags_at(index, true);
            }
            assert(model_of(*psx) =~= flagged(m2, index));
            update_master_interrupt(psx);
        },
    }
    assert(model_of(*psx) =~= progress_handled(m, channel, progress));
}

/// Starts the transfer of the first channel of `order` that is ongoing and asks for a transfer
/// or is forced to start, and returns the state of the executor after it: idle if no channel
/// starts.
pub fn start_next(psx: &mut PSX, order: &ArrayVec<(Channel, u8), 7>) -> (r: State)
    requires
        old(psx).scheduler.spec_elapsed() + 24 <= u64::MAX,
    ensures
        (r, model_of(*final(psx))) == start_from(channel_list(*order), model_of(*old(psx)), 0),
        outside_model_same(*old(psx), *final(psx)),
        final(psx).memory == old(psx).memory,
        state_wf(r),
{
    let ghost m = model_of(*psx);
    let ghost o = channel_list(*order);
    let len = channel_list_len(order);
    let mut k: usize = 0;
    while k < len
        invariant
            k <= len,
            len == o.len(),
            o == channel_list(*order),
            m == model_of(*old(psx)),
            start_from(o, model_of(*psx), k as int) == start_from(o, m, 0),
            outside_model_same(*old(psx), *psx),
            psx.memory == old(psx).memory,
            psx.scheduler.spec_elapsed() == old(psx).scheduler.spec_elapsed(),
            old(psx).scheduler.spec_elapsed() + 24 <= u64::MAX,
        decreases len - k,
    {
        let ghost before = model_of(*psx);
        let (channel, _) = channel_list_get(order, k);
        let index = channel.index() as usize;
        let state = psx.dma.channels[index];
        if state.control.transfer_ongoing() {
            let dreq = match channel {
                Channel::OTC => false,
                Channel::GPU => {
                    psx.gpu.status.update_dreq();
                    psx.gpu.status.dma_request()
                },
                _ => true,
            };
            assert(model_of(*psx) =~= (if channel == Channel::GPU {
                DmaModel { gpu_status: dreq_updated(before.gpu_status), ..before }
            } else {
                before
            }));
            if dreq || state.control.force_transfer() {
                let mut state2 = state;
                state2.control.set_force_transfer(false);
                psx.dma.channels[index] = state2;
                let new_state = match state.control.transfer_mode() {
                    Some(TransferMode::Slice) => State::SliceTransfer(SliceTransfer { channel }),
                    Some(TransferMode::LinkedList) => State::LinkedTransfer(
                        LinkedTransfer { channel },
                    ),
                    _ => {
                        let current_addr = state.base.0 & 0x00FF_FFFC;
                        let len = state.block_control.len();
                        let remaining = if len == 0 {
                            0x10000
                        } else {
                            len
                        };
                        State::BurstTransfer(BurstTransfer { channel, current_addr, remaining })
                    },
                };
                psx.scheduler.schedule(Event::DmaAdvance, channel.cycles_per_word());
                proof {
                    lemma_started_wf(channel, state);
                }
                assert(model_of(*psx) =~= start_from(o, before, k as int).1);
                assert(new_state == start_from(o, before, k as int).0);
                assert((new_state, model_of(*psx)) == start_from(o, m, 0));
                return new_state;
            }
        }
        k += 1;
    }
    State::Idle
}

/// A DMA transfer executor.
pub struct Executor(State);

impl Default for Executor {
    /// An idle executor.
    fn default() -> (r: Self)
        ensures
            r.spec_state() == State::Idle,
    {
        Executor(State::Idle)
    }
}

impl Executor {
    /// The state of the executor.
    pub closed spec fn spec_state(&self) -> State {
        self.0
    }

    /// The transfer of the executor keeps to its bounds.
    pub open spec fn wf(&self) -> bool {
        state_wf(self.spec_state())
    }

    /// Returns whether a transfer is ongoing.
    #[inline(always)]
    pub fn ongoing(&self) -> (r: bool)
        ensures
            r == !(self.spec_state() is Idle),
    {
        !matches!(self.0, State::Idle)
    }

    /// Returns whether the executor can advance its transfer: one is ongoing, a slice transfer
    /// has a block left and, to RAM from the GPU, a word of response for each word of the
    /// block, and a linked list transfer goes to the GPU.
    pub fn can_advance(&self, psx: &PSX) -> (r: bool)
        ensures
            r == advance_ready(self.spec_state(), model_of(*psx)),
    {
        match self.0 {
            State::Idle => false,
            State::BurstTransfer(_) => true,
            State::SliceTransfer(transfer) => {
                let state = psx.dma.channels[transfer.channel.index() as usize];
                let to_gpu_ram = transfer.channel == Channel::GPU
                    && state.control.transfer_direction() == TransferDirection::DeviceToRam;
                state.block_control.count() >= 1 && (!to_gpu_ram || psx.gpu.response_queue.len()
                    >= state.block_control.len() as usize)
            },
            State::LinkedTransfer(transfer) => transfer.channel == Channel::GPU,
        }
    }

    /// Advances the ongoing transfer by a step.
    pub fn advance(&mut self, psx: &mut PSX)
        requires
            old(self).wf(),
            old(psx).wf(),
            advance_ready(old(self).spec_state(), model_of(*old(psx))),
            old(psx).scheduler.spec_elapsed() + 24 <= u64::MAX,
        ensures
            (final(self).spec_state(), model_of(*final(psx))) == advance_spec(
                old(self).spec_state(),
                model_of(*old(psx)),
            ),
            outside_model_same(*old(psx), *final(psx)),
            final(self).wf(),
            final(psx).wf(),
    {
        let ghost m = model_of(*psx);
        let ghost s = self.0;
        update_master_interrupt(psx);
        let ghost m1 = model_of(*psx);
        let (channel, progress) = match self.0 {
            State::BurstTransfer(transfer) => {
                let mut transfer = transfer;
                let progress = transfer.advance(psx);
                self.0 = State::BurstTransfer(transfer);
                proof {
                    if progress == Progress::Ongoing {
                        lemma_burst_step_wf(s->BurstTransfer_0, m1);
                    }
                }
                (transfer.channel, progress)
            },
            State::SliceTransfer(transfer) => (transfer.channel, transfer.advance(psx)),
            State::LinkedTransfer(transfer) => (transfer.channel, transfer.advance(psx)),
            State::Idle => {
                // an idle executor is never advanced
                proof {
                    assert(false);
                }
                (Channel::OTC, Progress::Finished)
            },
        };
        let ghost m2 = model_of(*psx);
        assert(transfer_step(s, m1) == (channel, self.0, m2, progress));
        proof {
            lemma_transfer_step_elapsed(s, m1);
        }
        handle_progress(psx, channel, progress);
        if progress == Progress::Finished {
            self.0 = State::Idle;
        }
    }

    /// Updates the master interrupt flag and, if no transfer is ongoing, starts the transfer of
    /// the enabled channel with the highest priority that is ongoing and asks for a transfer or
    /// is forced to start. Among channels of equal priority, which is looked at first is left
    /// open.
    pub fn update(&mut self, psx: &mut PSX)
        requires
            old(psx).scheduler.spec_elapsed() + 24 <= u64::MAX,
            old(self).wf(),
        ensures
            old(self).spec_state() is Idle ==> exists|order: Seq<(Channel, u8)>|
                #[trigger] by_priority(order) && order.to_multiset() == enabled_among(
                    old(psx).dma.control.0,
                    7,
                ).to_multiset() && (final(self).spec_state(), model_of(*final(psx)))
                    == start_from(order, master_updated(model_of(*old(psx))), 0),
            !(old(self).spec_state() is Idle) ==> final(self).spec_state() == old(
                self,
            ).spec_state() && model_of(*final(psx)) == master_updated(model_of(*old(psx))),
            outside_model_same(*old(psx), *final(psx)),
            final(psx).memory == old(psx).memory,
            final(self).wf(),
    {
        update_master_interrupt(psx);
        if matches!(self.0, State::Idle) {
            let mut enabled_channels = psx.dma.control.enabled_channels();
            channel_list_sort_by_priority(&mut enabled_channels);
            self.0 = start_next(psx, &enabled_channels);
            assert(by_priority(channel_list(enabled_channels)));
        }
    }
}

} // verus!
