//! The supervisor's decisions: which launch candidates are tried, in which
//! order, and the slot that tracks the one live worker.
use vstd::prelude::*;

verus! {

/// The worker executable's file name inside the bundled resource directory.
pub const BUNDLED_EXECUTABLE: &'static str = "ovelo_server.exe";

/// The worker's entry-point script, relative to the current directory.
pub const DEV_SCRIPT: &'static str = "python/sidecar.py";

/// The same script seen from a subdirectory of the project.
pub const DEV_SCRIPT_FALLBACK: &'static str = "../python/sidecar.py";

/// The interpreter, found on the system path, that runs the script.
pub const SCRIPT_INTERPRETER: &'static str = "python";

/// Where a script candidate lies.
#[derive(Clone, Copy, Debug, PartialEq, Eq, Structural)]
pub enum ScriptLocation {
    Primary,
    Fallback,
}

/// One way to start the worker.
#[derive(Clone, Copy, Debug, PartialEq, Eq, Structural)]
pub enum Launch {
    /// The executable in the resource directory, run with no arguments.
    Bundled,
    /// The script at a location, run through the interpreter.
    Script(ScriptLocation),
}

/// What was found on disk before a start.
#[derive(Clone, Copy, Debug, PartialEq, Eq, Structural)]
pub struct Probe {
    /// The resource directory is known and holds the executable.
    pub bundled_present: bool,
    pub primary_script_present: bool,
    pub fallback_script_present: bool,
}

/// The candidates to try, first success wins: the bundled executable where it
/// is present, then one script, the primary where it is present, else the
/// fallback where that is.
pub open spec fn spec_launch_order(p: Probe) -> Seq<Launch> {
    (if p.bundled_present {
        seq![Launch::Bundled]
    } else {
        Seq::empty()
    }) + (if p.primary_script_present {
        seq![Launch::Script(ScriptLocation::Primary)]
    } else if p.fallback_script_present {
        seq![Launch::Script(ScriptLocation::Fallback)]
    } else {
        Seq::empty()
    })
}

pub fn launch_order(p: &Probe) -> (r: Vec<Launch>)
    ensures
        r@ == spec_launch_order(*p),
{
    let mut order: Vec<Launch> = Vec::new();
    if p.bundled_present {
        order.push(Launch::Bundled);
    }
    if p.primary_script_present {
        order.push(Launch::Script(ScriptLocation::Primary));
    } else if p.fallback_script_present {
        order.push(Launch::Script(ScriptLocation::Fallback));
    }
    assert(order@ =~= spec_launch_order(*p));
    order
}

pub open spec fn spec_script_path(loc: ScriptLocation) -> Seq<char> {
    match loc {
        ScriptLocation::Primary => DEV_SCRIPT@,
        ScriptLocation::Fallback => DEV_SCRIPT_FALLBACK@,
    }
}

/// The relative path of a script candidate.
pub fn script_path(loc: ScriptLocation) -> (r: &'static str)
    ensures
        r@ == spec_script_path(loc),
{
    match loc {
        ScriptLocation::Primary => DEV_SCRIPT,
        ScriptLocation::Fallback => DEV_SCRIPT_FALLBACK,
    }
}

/// The slot that tracks the live worker, of handle type `H`. It holds at most
/// one handle; one that leaves it is handed back to the caller to stop.
pub struct SidecarSlot<H> {
    held: Option<H>,
}

impl<H> SidecarSlot<H> {
    /// The handle tracked now, if any.
    pub closed spec fn current(&self) -> Option<H> {
        self.held
    }

    /// An empty slot: nothing is running.
    pub fn new() -> (r: Self)
        ensures
            r.current() is None,
    {
        SidecarSlot { held: None }
    }

    pub fn is_running(&self) -> (r: bool)
        ensures
            r == self.current() is Some,
    {
        self.held.is_some()
    }

    /// Records a freshly started worker. The handle tracked before, if any,
    /// is handed back so that the caller stops it: a start never leaves an
    /// older worker untracked.
    pub fn track(&mut self, h: H) -> (prev: Option<H>)
        ensures
            (final(self).current(), prev) == slot_step(old(self).current(), SlotOp::Track(h)),
    {
        let prev = self.held.take();
        self.held = Some(h);
        prev
    }

    /// Clears the slot and hands back what it tracked, for the caller to
    /// stop; with nothing tracked this changes nothing.
    pub fn release(&mut self) -> (r: Option<H>)
        ensures
            (final(self).current(), r) == slot_step(old(self).current(), SlotOp::<H>::Release),
    {
        self.held.take()
    }
}

/// A change of the slot.
pub enum SlotOp<H> {
    Track(H),
    Release,
}

/// The slot after an operation, and the handle that the operation hands back.
pub open spec fn slot_step<H>(cur: Option<H>, op: SlotOp<H>) -> (Option<H>, Option<H>) {
    match op {
        SlotOp::Track(h) => (Some(h), cur),
        SlotOp::Release => (None, cur),
    }
}

pub open spec fn option_seq<H>(o: Option<H>) -> Seq<H> {
    match o {
        Some(h) => seq![h],
        None => Seq::empty(),
    }
}

/// The slot after a run of operations from empty, and every handle handed
/// back, in order.
pub open spec fn slot_run<H>(ops: Seq<SlotOp<H>>) -> (Option<H>, Seq<H>)
    decreases ops.len(),
{
    if ops.len() == 0 {
        (None, Seq::empty())
    } else {
        let (cur, out) = slot_run(ops.drop_last());
        let (next, back) = slot_step(cur, ops.last());
        (next, out + option_seq(back))
    }
}

/// The handles that a run of operations puts in the slot, in order.
pub open spec fn tracked_handles<H>(ops: Seq<SlotOp<H>>) -> Seq<H>
    decreases ops.len(),
{
    if ops.len() == 0 {
        Seq::empty()
    } else {
        tracked_handles(ops.drop_last()) + match ops.last() {
            SlotOp::Track(h) => seq![h],
            SlotOp::Release => Seq::empty(),
        }
    }
}

/// Over any run of starts and stops, the slot holds at most one handle, and
/// no handle is lost: those handed back, followed by the one still tracked,
/// are exactly the handles put in, in the order they came.
pub proof fn no_worker_is_lost<H>(ops: Seq<SlotOp<H>>)
    ensures
        slot_run(ops).1 + option_seq(slot_run(ops).0) == tracked_handles(ops),
    decreases ops.len(),
{
    if ops.len() > 0 {
        no_worker_is_lost(ops.drop_last());
        let (cur, out) = slot_run(ops.drop_last());
        match ops.last() {
            SlotOp::Track(h) => {
                assert(out + option_seq(cur) + seq![h] =~= out + option_seq(cur) + option_seq(
                    Some(h),
                ));
            },
            SlotOp::Release => {
                assert(out + option_seq(cur) + option_seq(None::<H>) =~= out + option_seq(
                    cur,
                ));
                assert(tracked_handles(ops) =~= tracked_handles(ops.drop_last()));
            },
        }
    }
}

/// Stopping with nothing running changes nothing and hands nothing back.
pub proof fn stop_when_idle_is_noop<H>()
    ensures
        slot_step(None::<H>, SlotOp::Release) == (None::<H>, None::<H>),
{
}

} // verus!
