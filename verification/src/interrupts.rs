//! Items related to the system interrupt controller.
use vstd::prelude::*;

verus! {

/// A system interrupt source.
#[derive(Debug, Clone, Copy, PartialEq, Eq, Structural)]
pub enum Interrupt {
    VBlank,
    GPU,
    CDROM,
    DMA,
    Timer0,
    Timer1,
    Timer2,
    ControllerAndMemCard,
    SIO,
    SPU,
    Controller,
}

impl Interrupt {
    /// The bit of this interrupt in the status and mask registers.
    pub open spec fn spec_index(self) -> u32 {
        match self {
            Interrupt::VBlank => 0,
            Interrupt::GPU => 1,
            Interrupt::CDROM => 2,
            Interrupt::DMA => 3,
            Interrupt::Timer0 => 4,
            Interrupt::Timer1 => 5,
            Interrupt::Timer2 => 6,
            Interrupt::ControllerAndMemCard => 7,
            Interrupt::SIO => 8,
            Interrupt::SPU => 9,
            Interrupt::Controller => 10,
        }
    }

    /// Returns the bit of this interrupt in the status and mask registers.
    pub fn index(self) -> (r: u32)
        ensures
            r == self.spec_index(),
    {
        match self {
            Interrupt::VBlank => 0,
            Interrupt::GPU => 1,
            Interrupt::CDROM => 2,
            Interrupt::DMA => 3,
            Interrupt::Timer0 => 4,
            Interrupt::Timer1 => 5,
            Interrupt::Timer2 => 6,
            Interrupt::ControllerAndMemCard => 7,
            Interrupt::SIO => 8,
            Interrupt::SPU => 9,
            Interrupt::Controller => 10,
        }
    }

    /// The interrupt with the given bit, if any.
    pub open spec fn spec_from_index(i: u32) -> Option<Interrupt> {
        if i == 0 {
            Some(Interrupt::VBlank)
        } else if i == 1 {
            Some(Interrupt::GPU)
        } else if i == 2 {
            Some(Interrupt::CDROM)
        } else if i == 3 {
            Some(Interrupt::DMA)
        } else if i == 4 {
            Some(Interrupt::Timer0)
        } else if i == 5 {
            Some(Interrupt::Timer1)
        } else if i == 6 {
            Some(Interrupt::Timer2)
        } else if i == 7 {
            Some(Interrupt::ControllerAndMemCard)
        } else if i == 8 {
            Some(Interrupt::SIO)
        } else if i == 9 {
            Some(Interrupt::SPU)
        } else if i == 10 {
            Some(Interrupt::Controller)
        } else {
            None
        }
    }

    /// Returns the interrupt with the given bit, if any.
    pub fn from_index(i: u32) -> (r: Option<Interrupt>)
        ensures
            r == Self::spec_from_index(i),
    {
        match i {
            0 => Some(Interrupt::VBlank),
            1 => Some(Interrupt::GPU),
            2 => Some(Interrupt::CDROM),
            3 => Some(Interrupt::DMA),
            4 => Some(Interrupt::Timer0),
            5 => Some(Interrupt::Timer1),
            6 => Some(Interrupt::Timer2),
            7 => Some(Interrupt::ControllerAndMemCard),
            8 => Some(Interrupt::SIO),
            9 => Some(Interrupt::SPU),
            10 => Some(Interrupt::Controller),
            _ => None,
        }
    }
}

/// Whether bit `i` of `v` is set.
pub open spec fn bit_set(v: u32, i: u32) -> bool {
    (v >> i) & 1 == 1
}

/// The lowest of the bits `i..11` of `v` that is set, if any.
pub open spec fn lowest_set(v: u32, i: u32) -> Option<u32>
    decreases 11 - i,
{
    if i >= 11 {
        None
    } else if bit_set(v, i) {
        Some(i)
    } else {
        lowest_set(v, (i + 1) as u32)
    }
}

/// Register which contains which system interrupts are currently pending.
#[derive(Debug, Clone, Copy, Default, PartialEq, Eq, Structural)]
pub struct Status(pub u32);

impl Status {
    /// Requests the given system interrupt.
    #[inline(always)]
    pub fn request(&mut self, interrupt: Interrupt)
        ensures
            final(self).0 == old(self).0 | (1u32 << interrupt.spec_index()),
    {
        let i = interrupt.index();
        self.0 = self.0 | (1u32 << i);
    }

    /// Returns a [`Status`] masked with the given [`Mask`].
    #[inline(always)]
    pub fn mask(&self, mask: &Mask) -> (r: Self)
        ensures
            r.0 == self.0 & mask.0,
    {
        Status(self.0 & mask.0)
    }

    /// Returns the requested [`Interrupt`] of the lowest bit, if any.
    #[inline(always)]
    pub fn requested(&self) -> (r: Option<Interrupt>)
        ensures
            r == match lowest_set(self.0, 0) {
                Some(i) => Interrupt::spec_from_index(i),
                None => None,
            },
    {
        let mut i: u32 = 0;
        while i < 11
            invariant
                i <= 11,
                lowest_set(self.0, 0) == lowest_set(self.0, i),
            decreases 11 - i,
        {
            if (self.0 >> i) & 1 == 1 {
                return Interrupt::from_index(i);
            }
            i += 1;
        }
        None
    }
}

/// Register which contains which system interrupts are allowed to be raised.
#[derive(Debug, Clone, Copy, Default, PartialEq, Eq, Structural)]
pub struct Mask(pub u32);

/// The state of the interrupt controller.
#[derive(Debug, Clone, Copy, Default)]
pub struct Controller {
    pub status: Status,
    pub mask: Mask,
}

/// Proof that the interrupt [`Status::requested`] picks from bit `i` on is pending and has no
/// lower pending interrupt from `i` on.
proof fn lemma_lowest_set(v: u32, i: u32)
    ensures
        lowest_set(v, i) matches Some(j) ==> i <= j < 11 && bit_set(v, j) && forall|k: u32|
            i <= k < j ==> !bit_set(v, k),
        lowest_set(v, i) is None ==> forall|k: u32| i <= k < 11 ==> !bit_set(v, k),
    decreases 11 - i,
{
    if i < 11 {
        lemma_lowest_set(v, (i + 1) as u32);
    }
}

/// Law: the interrupt requested is pending, and is the pending one of lowest bit; no interrupt
/// is requested only when none of the eleven lowest bits is pending.
pub proof fn law_requested_is_lowest_pending(status: Status)
    ensures
        lowest_set(status.0, 0) matches Some(j) ==> j < 11 && bit_set(status.0, j) && forall|
            k: u32,
        |
            k < j ==> !bit_set(status.0, k),
        lowest_set(status.0, 0) is None ==> forall|k: u32| k < 11 ==> !bit_set(status.0, k),
{
    lemma_lowest_set(status.0, 0);
}

/// Law: after masking, an interrupt requested is both pending and enabled.
pub proof fn law_masked_request_enabled(status: Status, mask: Mask)
    ensures
        lowest_set(status.0 & mask.0, 0) matches Some(j) ==> bit_set(status.0, j) && bit_set(
            mask.0,
            j,
        ),
{
    lemma_lowest_set(status.0 & mask.0, 0);
    if let Some(j) = lowest_set(status.0 & mask.0, 0) {
        let (s, m) = (status.0, mask.0);
        assert(((s & m) >> j) & 1 == 1 ==> (s >> j) & 1 == 1 && (m >> j) & 1 == 1) by (bit_vector);
    }
}

} // verus!
