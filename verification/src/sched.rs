use vstd::prelude::*;
use crate::console::Console;
use crate::console::uart_putc;

verus! {

/// One task entry point. Tasks are stateless, run to completion on each
/// invocation, and sit at a fixed position in the dispatcher's ordered
/// list; the list is defined at build time and never changes at run time.
#[derive(Clone, Copy, PartialEq, Eq, Structural, Debug)]
pub enum TaskId {
    A,
    B,
}

/// The bytes one invocation of a task hands to the console.
pub open spec fn task_output(t: TaskId) -> Seq<u8> {
    match t {
        TaskId::A => seq![65u8],
        TaskId::B => seq![66u8],
    }
}

/// First demonstration task: announce itself with one byte.
pub fn task_a(con: &mut Console)
    ensures
        final(con).out@ == old(con).out@ + task_output(TaskId::A),
{
    uart_putc(con, 65);
    proof {
        assert(old(con).out@.push(65u8) =~= old(con).out@ + task_output(TaskId::A));
    }
}

/// Second demonstration task: announce itself with one byte.
pub fn task_b(con: &mut Console)
    ensures
        final(con).out@ == old(con).out@ + task_output(TaskId::B),
{
    uart_putc(con, 66);
    proof {
        assert(old(con).out@.push(66u8) =~= old(con).out@ + task_output(TaskId::B));
    }
}

/// Round-robin task dispatcher: an immutable ordered task list, the one
/// mutable selector index into it, and the switch interval in ticks. The
/// selector is written only by the interrupt path and read only by the main
/// loop, so a plain atomic store and load suffice in the hardware layer; a
/// one-tick-stale read selects a valid task either way.
pub struct Scheduler {
    pub tasks: Vec<TaskId>,
    pub current: usize,
    pub switch_interval: u64,
}

/// A well-formed dispatcher has at least one task, a selector inside the
/// list, and a positive switch interval.
pub open spec fn sched_wf(s: Scheduler) -> bool {
    &&& s.tasks@.len() > 0
    &&& s.current < s.tasks@.len()
    &&& s.switch_interval > 0
}

impl Scheduler {
    /// Advance the selector one step round-robin: the next slot in order,
    /// wrapping back to the first after the last. The task list and the
    /// switch interval never change.
    pub fn advance(&mut self)
        requires
            sched_wf(*old(self)),
        ensures
            final(self).tasks@ == old(self).tasks@,
            final(self).switch_interval == old(self).switch_interval,
            final(self).current as int == (old(self).current + 1) % (old(self).tasks@.len() as int),
            sched_wf(*final(self)),
    {
        let n: usize = self.tasks.len();
        self.current = (self.current + 1) % n;
    }

    /// Run the currently selected task to completion. The idle spin the
    /// main loop inserts between invocations has no observable effect and
    /// stays in the hardware layer.
    pub fn run_selected(&self, con: &mut Console)
        requires
            sched_wf(*self),
        ensures
            final(con).out@ == old(con).out@ + task_output(self.tasks@[self.current as int]),
    {
        let t: TaskId = self.tasks[self.current];
        match t {
            TaskId::A => task_a(con),
            TaskId::B => task_b(con),
        }
    }
}

} // verus!
