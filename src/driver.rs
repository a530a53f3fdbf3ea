use vstd::prelude::*;

verus! {

/// What the relay pair of a door is driven to do.
#[allow(non_camel_case_types)]
#[derive(Debug, Clone, Copy, PartialEq, Eq, Structural)]
pub enum WindowDriverState {
    INTERRUPTED,
    OPENING,
    CLOSING,
}

/// One step of a relay switching sequence, carried out by the pin layer.
#[derive(Debug, Clone, Copy, PartialEq, Eq, Structural)]
pub enum PinOp {
    SetOpenHigh,
    SetOpenLow,
    SetCloseHigh,
    SetCloseLow,
    /// Wait for the released relay to settle before energizing the other one.
    SettleDelay,
}

/// Milliseconds waited by `PinOp::SettleDelay`.
pub const RELAY_SETTLE_DELAY_MS: u32 = 50;

/// Millivolts-to-current scale of the current-sense resistors.
pub const CURRENT_SCALE: u32 = 80;

/// Which relays may be energized. A pin write that failed leaves its relay
/// counted as possibly energized whenever it may have been before.
#[derive(Debug, Clone, Copy, PartialEq, Eq, Structural)]
pub struct RelayLevels {
    pub open_energized: bool,
    pub close_energized: bool,
}

/// Present current draw on each side, in the sense resistors' scaled units.
#[derive(Debug, Clone, Copy, PartialEq, Eq, Structural)]
pub struct WindowCurrentState {
    pub closing_current: u32,
    pub opening_current: u32,
}

pub open spec fn both_energized(l: RelayLevels) -> bool {
    l.open_energized && l.close_energized
}

/// Relay levels after a pin operation succeeded.
pub open spec fn after_success(l: RelayLevels, op: PinOp) -> RelayLevels {
    match op {
        PinOp::SetOpenHigh => RelayLevels { open_energized: true, ..l },
        PinOp::SetOpenLow => RelayLevels { open_energized: false, ..l },
        PinOp::SetCloseHigh => RelayLevels { close_energized: true, ..l },
        PinOp::SetCloseLow => RelayLevels { close_energized: false, ..l },
        PinOp::SettleDelay => l,
    }
}

/// Relay levels after a pin operation failed: a failed write to high may
/// have energized the relay, a failed write to low may have left it on.
pub open spec fn after_failure(l: RelayLevels, op: PinOp) -> RelayLevels {
    match op {
        PinOp::SetOpenHigh => RelayLevels { open_energized: true, ..l },
        PinOp::SetCloseHigh => RelayLevels { close_energized: true, ..l },
        _ => l,
    }
}

/// Relay levels after a whole sequence succeeded.
pub open spec fn run_ops(l: RelayLevels, ops: Seq<PinOp>) -> RelayLevels
    decreases ops.len(),
{
    if ops.len() == 0 {
        l
    } else {
        run_ops(after_success(l, ops[0]), ops.drop_first())
    }
}

/// No point of the sequence, before it or after any prefix of it succeeded,
/// has both relays energized.
pub open spec fn plan_safe(l: RelayLevels, ops: Seq<PinOp>) -> bool
    decreases ops.len(),
{
    &&& !both_energized(l)
    &&& (ops.len() > 0 ==> plan_safe(after_success(l, ops[0]), ops.drop_first()))
}

pub open spec fn opening_plan() -> Seq<PinOp> {
    seq![PinOp::SetCloseLow, PinOp::SettleDelay, PinOp::SetOpenHigh]
}

pub open spec fn closing_plan() -> Seq<PinOp> {
    seq![PinOp::SetOpenLow, PinOp::SettleDelay, PinOp::SetCloseHigh]
}

pub open spec fn interrupt_plan() -> Seq<PinOp> {
    seq![PinOp::SetCloseLow, PinOp::SetOpenLow]
}

/// The current that a voltage drop across a sense resistor stands for.
pub open spec fn current_of_millivolts(mv: u16) -> int {
    mv * 80
}

/// The abstract state of a relay driver.
pub ghost struct DriverView {
    /// The mode that the relays were last fully switched to.
    pub state: WindowDriverState,
    /// Pin operations still to be carried out, in order.
    pub pending: Seq<PinOp>,
    /// The mode reached once `pending` has been carried out.
    pub target: WindowDriverState,
    /// Which relays may be energized now.
    pub relays: RelayLevels,
}

pub open spec fn driver_start_opening(d: DriverView) -> DriverView {
    if d.state == WindowDriverState::OPENING {
        d
    } else {
        DriverView { pending: opening_plan(), target: WindowDriverState::OPENING, ..d }
    }
}

pub open spec fn driver_start_closing(d: DriverView) -> DriverView {
    if d.state == WindowDriverState::CLOSING {
        d
    } else {
        DriverView { pending: closing_plan(), target: WindowDriverState::CLOSING, ..d }
    }
}

pub open spec fn driver_interrupt(d: DriverView) -> DriverView {
    DriverView { pending: interrupt_plan(), target: WindowDriverState::INTERRUPTED, ..d }
}

pub open spec fn driver_op_succeeded(d: DriverView) -> DriverView
    recommends
        d.pending.len() > 0,
{
    let rest = d.pending.drop_first();
    DriverView {
        state: if rest.len() == 0 { d.target } else { d.state },
        pending: rest,
        target: d.target,
        relays: after_success(d.relays, d.pending[0]),
    }
}

pub open spec fn driver_op_failed(d: DriverView) -> DriverView
    recommends
        d.pending.len() > 0,
{
    DriverView {
        state: d.state,
        pending: Seq::empty(),
        target: d.state,
        relays: after_failure(d.relays, d.pending[0]),
    }
}

pub open spec fn driver_wf(d: DriverView) -> bool {
    plan_safe(d.relays, d.pending)
}

/// Drives the relay pair of one door. Switching is handed out one pin
/// operation at a time; the caller reports how each one went.
pub struct PowerWindowDriver {
    state: WindowDriverState,
    plan: Vec<PinOp>,
    cursor: usize,
    target: WindowDriverState,
    relays: RelayLevels,
}

impl View for PowerWindowDriver {
    type V = DriverView;

    closed spec fn view(&self) -> DriverView {
        DriverView {
            state: self.state,
            pending: self.plan@.subrange(self.cursor as int, self.plan@.len() as int),
            target: self.target,
            relays: self.relays,
        }
    }
}

proof fn lemma_plan_safe_after_failure(l: RelayLevels, ops: Seq<PinOp>)
    requires
        ops.len() > 0,
        plan_safe(l, ops),
    ensures
        !both_energized(after_failure(l, ops[0])),
{
    assert(plan_safe(after_success(l, ops[0]), ops.drop_first()));
}

proof fn lemma_fixed_plans_safe(l: RelayLevels)
    requires
        !both_energized(l),
    ensures
        plan_safe(l, opening_plan()),
        plan_safe(l, closing_plan()),
        plan_safe(l, interrupt_plan()),
{
    reveal_with_fuel(plan_safe, 4);
    assert(opening_plan().drop_first() =~= seq![PinOp::SettleDelay, PinOp::SetOpenHigh]);
    assert(opening_plan().drop_first().drop_first() =~= seq![PinOp::SetOpenHigh]);
    assert(opening_plan().drop_first().drop_first().drop_first() =~= Seq::<PinOp>::empty());
    assert(closing_plan().drop_first() =~= seq![PinOp::SettleDelay, PinOp::SetCloseHigh]);
    assert(closing_plan().drop_first().drop_first() =~= seq![PinOp::SetCloseHigh]);
    assert(closing_plan().drop_first().drop_first().drop_first() =~= Seq::<PinOp>::empty());
    assert(interrupt_plan().drop_first() =~= seq![PinOp::SetOpenLow]);
    assert(interrupt_plan().drop_first().drop_first() =~= Seq::<PinOp>::empty());
}

impl PowerWindowDriver {
    pub closed spec fn wf(&self) -> bool {
        &&& self.cursor <= self.plan@.len()
        &&& driver_wf(self@)
    }

    pub proof fn lemma_wf(&self)
        requires
            self.wf(),
        ensures
            driver_wf(self@),
    {
    }

    /// A driver with both relays released and nothing to do.
    pub fn new() -> (r: PowerWindowDriver)
        ensures
            r.wf(),
            r@.state == WindowDriverState::INTERRUPTED,
            r@.target == WindowDriverState::INTERRUPTED,
            r@.pending.len() == 0,
            r@.relays == (RelayLevels { open_energized: false, close_energized: false }),
    {
        let r = PowerWindowDriver {
            state: WindowDriverState::INTERRUPTED,
            plan: Vec::new(),
            cursor: 0,
            target: WindowDriverState::INTERRUPTED,
            relays: RelayLevels { open_energized: false, close_energized: false },
        };
        assert(r@.pending =~= Seq::<PinOp>::empty());
        r
    }

    /// The mode that the relays were last fully switched to.
    pub fn state(&self) -> (r: WindowDriverState)
        ensures
            r == self@.state,
    {
        self.state
    }

    /// Which relays may be energized now.
    pub fn relays(&self) -> (r: RelayLevels)
        ensures
            r == self@.relays,
    {
        self.relays
    }

    /// Converts the voltage drops across the closing and opening sense
    /// resistors, in millivolts, into currents.
    pub fn read_current(closing_millivolts: u16, opening_millivolts: u16) -> (r: WindowCurrentState)
        ensures
            r.closing_current == current_of_millivolts(closing_millivolts),
            r.opening_current == current_of_millivolts(opening_millivolts),
    {
        WindowCurrentState {
            closing_current: closing_millivolts as u32 * CURRENT_SCALE,
            opening_current: opening_millivolts as u32 * CURRENT_SCALE,
        }
    }

    fn load_plan(&mut self, plan: Vec<PinOp>, target: WindowDriverState)
        requires
            old(self).wf(),
            plan_safe(old(self)@.relays, plan@),
        ensures
            final(self).wf(),
            final(self)@ == (DriverView { pending: plan@, target, ..old(self)@ }),
    {
        self.plan = plan;
        self.cursor = 0;
        self.target = target;
        assert(self.plan@.subrange(0, self.plan@.len() as int) =~= plan@);
    }

    /// Switches the relays to opening: release the closing relay, let it
    /// settle, energize the opening relay. Nothing to do when already opening.
    pub fn start_opening(&mut self)
        requires
            old(self).wf(),
        ensures
            final(self).wf(),
            final(self)@ == driver_start_opening(old(self)@),
    {
        if self.state == WindowDriverState::OPENING {
            return;
        }
        proof {
            lemma_fixed_plans_safe(self.relays);
        }
        let plan = vec![PinOp::SetCloseLow, PinOp::SettleDelay, PinOp::SetOpenHigh];
        assert(plan@ =~= opening_plan());
        self.load_plan(plan, WindowDriverState::OPENING);
    }

    /// Switches the relays to closing: release the opening relay, let it
    /// settle, energize the closing relay. Nothing to do when already closing.
    pub fn start_closing(&mut self)
        requires
            old(self).wf(),
        ensures
            final(self).wf(),
            final(self)@ == driver_start_closing(old(self)@),
    {
        if self.state == WindowDriverState::CLOSING {
            return;
        }
        proof {
            lemma_fixed_plans_safe(self.relays);
        }
        let plan = vec![PinOp::SetOpenLow, PinOp::SettleDelay, PinOp::SetCloseHigh];
        assert(plan@ =~= closing_plan());
        self.load_plan(plan, WindowDriverState::CLOSING);
    }

    /// Releases both relays.
    pub fn interrupt(&mut self)
        requires
            old(self).wf(),
        ensures
            final(self).wf(),
            final(self)@ == driver_interrupt(old(self)@),
    {
        proof {
            lemma_fixed_plans_safe(self.relays);
        }
        let plan = vec![PinOp::SetCloseLow, PinOp::SetOpenLow];
        assert(plan@ =~= interrupt_plan());
        self.load_plan(plan, WindowDriverState::INTERRUPTED);
    }

    /// The next pin operation to carry out, if any.
    pub fn next_pin_op(&self) -> (r: Option<PinOp>)
        requires
            self.wf(),
        ensures
            self@.pending.len() == 0 ==> r is None,
            self@.pending.len() > 0 ==> r == Some(self@.pending[0]),
    {
        if self.cursor < self.plan.len() {
            Some(self.plan[self.cursor])
        } else {
            None
        }
    }

    /// Records that the pin operation returned by `next_pin_op` succeeded.
    pub fn pin_op_succeeded(&mut self)
        requires
            old(self).wf(),
            old(self)@.pending.len() > 0,
        ensures
            final(self).wf(),
            final(self)@ == driver_op_succeeded(old(self)@),
    {
        let ghost d = self@;
        assert(d.pending.len() == self.plan@.len() - self.cursor);
        let n = self.plan.len();
        let op = self.plan[self.cursor];
        self.relays = apply_success(self.relays, op);
        self.cursor = self.cursor + 1;
        if self.cursor == n {
            self.state = self.target;
        }
        assert(self@.pending =~= d.pending.drop_first());
    }

    /// Records that the pin operation returned by `next_pin_op` failed: the
    /// rest of the sequence is dropped and the mode stays as it was.
    pub fn pin_op_failed(&mut self)
        requires
            old(self).wf(),
            old(self)@.pending.len() > 0,
        ensures
            final(self).wf(),
            final(self)@ == driver_op_failed(old(self)@),
    {
        let ghost d = self@;
        assert(d.pending.len() == self.plan@.len() - self.cursor);
        let op = self.plan[self.cursor];
        proof {
            lemma_plan_safe_after_failure(d.relays, d.pending);
        }
        self.relays = apply_failure(self.relays, op);
        self.plan = Vec::new();
        self.cursor = 0;
        self.target = self.state;
        assert(self@.pending =~= Seq::<PinOp>::empty());
    }
}

fn apply_success(l: RelayLevels, op: PinOp) -> (r: RelayLevels)
    ensures
        r == after_success(l, op),
{
    match op {
        PinOp::SetOpenHigh => RelayLevels { open_energized: true, ..l },
        PinOp::SetOpenLow => RelayLevels { open_energized: false, ..l },
        PinOp::SetCloseHigh => RelayLevels { close_energized: true, ..l },
        PinOp::SetCloseLow => RelayLevels { close_energized: false, ..l },
        PinOp::SettleDelay => l,
    }
}

fn apply_failure(l: RelayLevels, op: PinOp) -> (r: RelayLevels)
    ensures
        r == after_failure(l, op),
{
    match op {
        PinOp::SetOpenHigh => RelayLevels { open_energized: true, ..l },
        PinOp::SetCloseHigh => RelayLevels { close_energized: true, ..l },
        _ => l,
    }
}

} // verus!
