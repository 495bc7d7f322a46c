use vstd::prelude::*;

pub mod apic;

verus! {

/// The first interrupt vector that is not a CPU exception.
pub const MIN_INTERRUPT: usize = 32;

/// The vector the first PIC's lines start at.
pub const PIC_1_OFFSET: u8 = 32;

/// The vector the second PIC's lines start at.
pub const PIC_2_OFFSET: u8 = 40;

/// The number of handler slots: one per vector from `MIN_INTERRUPT` to 255.
pub const HANDLER_SLOTS: usize = 224;

/// How a device signals its interrupts.
#[derive(Debug, Clone, Copy, PartialEq, Eq, Structural)]
pub enum InterruptMode {
    MsiX,
    Msi,
    Isa,
}

/// The vectors of the legacy devices: the timer on the first PIC line, the
/// keyboard on the second.
#[derive(Debug, Clone, Copy, PartialEq, Eq, Structural)]
pub enum InterruptIndex {
    Timer,
    Keyboard,
}

impl InterruptIndex {
    /// The vector.
    pub open spec fn spec_vector(self) -> u8 {
        match self {
            InterruptIndex::Timer => PIC_1_OFFSET,
            InterruptIndex::Keyboard => (PIC_1_OFFSET + 1) as u8,
        }
    }

    /// The vector.
    pub fn as_u8(self) -> (r: u8)
        ensures
            r == self.spec_vector(),
    {
        match self {
            InterruptIndex::Timer => PIC_1_OFFSET,
            InterruptIndex::Keyboard => PIC_1_OFFSET + 1,
        }
    }

    /// The vector, as an index into the interrupt descriptor table.
    pub fn as_usize(self) -> (r: usize)
        ensures
            r == self.spec_vector(),
    {
        self.as_u8() as usize
    }
}

/// What a handler did about the end of the interrupt.
#[derive(Debug, Clone, Copy, PartialEq, Eq, Structural)]
pub enum IrqResult {
    /// The handler signalled the end of the interrupt itself.
    EoiSent,
    /// The controller is still to be told the interrupt has ended.
    EoiNeeded,
}

/// Whether the controller is to be told the interrupt has ended, given what
/// the vector's handler returned (`None` when the vector has none).
pub fn needs_eoi(outcome: Option<IrqResult>) -> (r: bool)
    ensures
        r == (outcome != Some(IrqResult::EoiSent)),
{
    match outcome {
        Some(IrqResult::EoiNeeded) => true,
        Some(IrqResult::EoiSent) => false,
        None => true,
    }
}

/// The interrupt line of `vector`: its distance from `MIN_INTERRUPT`.
pub fn irq_line(vector: u8) -> (r: u8)
    requires
        vector >= MIN_INTERRUPT,
    ensures
        r == vector - MIN_INTERRUPT,
{
    vector - MIN_INTERRUPT as u8
}

/// The masks of the two chained PICs (master, slave) with `irq` unmasked:
/// lines 0 to 7 are the master's, 8 to 15 the slave's.
pub fn unmask_pic_masks(masks: [u8; 2], irq: u8) -> (r: [u8; 2])
    requires
        irq < 16,
    ensures
        irq < 8 ==> r@ == seq![masks[0] & !(1u8 << irq), masks[1]],
        irq >= 8 ==> r@ == seq![masks[0], masks[1] & !(1u8 << (irq - 8) as u8)],
{
    let r = if irq < 8 {
        [masks[0] & !(1u8 << irq), masks[1]]
    } else {
        [masks[0], masks[1] & !(1u8 << (irq - 8))]
    };
    proof {
        if irq < 8 {
            assert(r@ =~= seq![masks[0] & !(1u8 << irq), masks[1]]);
        } else {
            assert(r@ =~= seq![masks[0], masks[1] & !(1u8 << (irq - 8) as u8)]);
        }
    }
    r
}

/// The masks of the two chained PICs once they are set up: the master's
/// line 2, which the slave is cascaded on, unmasked.
pub fn init_pic_masks(masks: [u8; 2]) -> (r: [u8; 2])
    ensures
        r@ == seq![masks[0] & !(1u8 << 2u8), masks[1]],
{
    let r = [masks[0] & !(1u8 << 2), masks[1]];
    proof {
        assert(r@ =~= seq![masks[0] & !(1u8 << 2u8), masks[1]]);
    }
    r
}

/// The index of the first free slot of `slots`, if any.
pub open spec fn first_free<H>(slots: Seq<Option<H>>) -> Option<int>
    decreases slots.len(),
{
    if slots.len() == 0 {
        None
    } else if slots.last() is None {
        match first_free(slots.drop_last()) {
            Some(i) => Some(i),
            None => Some(slots.len() - 1),
        }
    } else {
        first_free(slots.drop_last())
    }
}

/// The interrupt handlers, one slot per vector from `MIN_INTERRUPT` on.
pub struct HandlerTable<H> {
    handlers: Vec<Option<H>>,
}

impl<H> HandlerTable<H> {
    /// The slots.
    pub closed spec fn view(&self) -> Seq<Option<H>> {
        self.handlers@
    }

    /// A table with no slots yet.
    pub fn new() -> (r: Self)
        ensures
            r@ == Seq::<Option<H>>::empty(),
    {
        HandlerTable { handlers: Vec::new() }
    }

    /// Adds `HANDLER_SLOTS` free slots.
    pub fn init_handlers(&mut self)
        requires
            old(self)@.len() <= HANDLER_SLOTS,
        ensures
            final(self)@ == old(self)@ + Seq::new(HANDLER_SLOTS as nat, |i: int| None::<H>),
    {
        let mut i: usize = 0;
        while i < HANDLER_SLOTS
            invariant
                i <= HANDLER_SLOTS,
                self.handlers@ == old(self)@ + Seq::new(i as nat, |j: int| None::<H>),
            decreases HANDLER_SLOTS - i,
        {
            self.handlers.push(None);
            i = i + 1;
            proof {
                assert(self.handlers@ =~= old(self)@ + Seq::new(i as nat, |j: int| None::<H>));
            }
        }
    }

    /// The slot of index `index`, if there is one.
    pub fn get(&self, index: usize) -> (r: Option<&Option<H>>)
        ensures
            index < self@.len() ==> r == Some(&self@[index as int]),
            index >= self@.len() ==> r is None,
    {
        if index < self.handlers.len() {
            Some(&self.handlers[index])
        } else {
            None
        }
    }

    /// Puts `handler` in the first free slot and gives that slot's vector;
    /// `None` when no slot is free.
    pub fn allocate_interrupt(&mut self, handler: H) -> (r: Option<u8>)
        requires
            first_free(old(self)@) matches Some(i) ==> i % 256 + MIN_INTERRUPT < 256,
        ensures
            match first_free(old(self)@) {
                Some(i) => r == Some((i % 256 + MIN_INTERRUPT) as u8) && final(self)@ == old(self)@.update(i, Some(handler)),
                None => r is None && final(self)@ == old(self)@,
            },
    {
        let mut i: usize = 0;
        while i < self.handlers.len()
            invariant
                i <= self.handlers@.len(),
                self.handlers@ == old(self)@,
                first_free(old(self)@) matches Some(k) ==> k % 256 + MIN_INTERRUPT < 256,
                forall|j: int| 0 <= j < i ==> self.handlers@[j] is Some,
            decreases self.handlers@.len() - i,
        {
            if self.handlers[i].is_none() {
                proof {
                    lemma_first_free_at(old(self)@, i as int);
                }
                self.handlers.set(i, Some(handler));
                return Some((i % 256) as u8 + MIN_INTERRUPT as u8);
            }
            i = i + 1;
        }
        proof {
            lemma_first_free_none(old(self)@);
        }
        None
    }

    /// Puts `handler` in the slot of `vector`.
    pub fn register_handler(&mut self, vector: u8, handler: H)
        requires
            vector >= MIN_INTERRUPT,
            vector - MIN_INTERRUPT < old(self)@.len(),
        ensures
            final(self)@ == old(self)@.update(vector - MIN_INTERRUPT, Some(handler)),
    {
        self.handlers.set(vector as usize - MIN_INTERRUPT, Some(handler));
    }
}

/// The first free slot is the one at `i` when all before it are taken.
proof fn lemma_first_free_at<H>(s: Seq<Option<H>>, i: int)
    requires
        0 <= i < s.len(),
        s[i] is None,
        forall|j: int| 0 <= j < i ==> s[j] is Some,
    ensures
        first_free(s) == Some(i),
    decreases s.len(),
{
    if i < s.len() - 1 {
        lemma_first_free_at(s.drop_last(), i);
    } else {
        lemma_first_free_none(s.drop_last());
    }
}

/// No slot is free when all are taken.
proof fn lemma_first_free_none<H>(s: Seq<Option<H>>)
    requires
        forall|j: int| 0 <= j < s.len() ==> s[j] is Some,
    ensures
        first_free(s) is None,
    decreases s.len(),
{
    if s.len() > 0 {
        lemma_first_free_none(s.drop_last());
    }
}

} // verus!
