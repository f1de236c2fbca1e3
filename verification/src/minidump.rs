//! The serializable event shape built from a stack-walker's result.
//!
//! An outside crash-processing engine walks a minidump and reports call
//! stacks of frames; this module converts such a result, handed in as
//! plain values, into the immutable Event / Thread / Frame shape. The
//! walker must associate every frame with a module: a frame without one
//! is a data-integrity violation, not a recoverable condition, and is
//! excluded by precondition.

use vstd::prelude::*;

verus! {

/// The module a stack frame belongs to, as the stack walker reports it.
pub struct ModuleInfo {
    /// The address the module's image is loaded at.
    pub base_address: u64,
    /// The module's identifier string.
    pub id: String,
}

/// One stack frame as the stack walker reports it.
pub struct StackFrameInfo {
    /// The absolute instruction address of the frame.
    pub instruction: u64,
    /// The module the instruction belongs to, where the walker found one.
    pub module: Option<ModuleInfo>,
}

/// One walked call stack: a thread and its frames, outermost last.
pub struct CallStackInfo {
    /// The identifier of the thread this stack belongs to.
    pub thread_id: u32,
    /// The walked frames, in walk order.
    pub frames: Vec<StackFrameInfo>,
}

/// A frame the walker could attribute: it names a module whose base
/// address does not exceed the instruction address.
pub open spec fn frame_ok(f: StackFrameInfo) -> bool {
    &&& f.module is Some
    &&& f.module.unwrap().base_address <= f.instruction
}

/// Every frame of the stack is attributed.
pub open spec fn stack_ok(s: CallStackInfo) -> bool {
    forall|i: int| 0 <= i < s.frames.len() ==> frame_ok(#[trigger] s.frames[i])
}

/// One frame of a converted event: the instruction's offset into its
/// module, and that module's identifier.
pub struct Frame {
    /// The instruction address relative to the owning module's base.
    pub offset: u64,
    /// The identifier of the owning module.
    pub module: String,
}

/// One thread of a converted event.
pub struct Thread {
    /// The thread's identifier.
    pub id: u32,
    /// The thread's frames, in walk order.
    pub frames: Vec<Frame>,
}

/// A converted crash event: its threads, in report order.
pub struct Event {
    /// The event's threads.
    pub threads: Vec<Thread>,
}

/// How a converted frame must relate to the walker's frame.
pub open spec fn frame_matches(r: Frame, f: StackFrameInfo) -> bool {
    &&& r.offset == f.instruction - f.module.unwrap().base_address
    &&& r.module == f.module.unwrap().id
}

/// How a converted thread must relate to the walked stack.
pub open spec fn thread_matches(r: Thread, s: CallStackInfo) -> bool {
    &&& r.id == s.thread_id
    &&& r.frames.len() == s.frames.len()
    &&& forall|i: int| 0 <= i < s.frames.len() ==> frame_matches(#[trigger] r.frames[i], s.frames[i])
}

impl Frame {
    /// Converts one attributed walker frame: the offset is the distance
    /// of the instruction from the module's base address.
    pub fn from_stack_frame(frame: &StackFrameInfo) -> (r: Frame)
        requires
            frame_ok(*frame),
        ensures
            frame_matches(r, *frame),
    {
        match &frame.module {
            Some(m) => Frame { offset: frame.instruction - m.base_address, module: m.id.clone() },
            None => vstd::pervasive::unreached(),
        }
    }
}

impl Thread {
    /// Converts one walked call stack, frame by frame, in order.
    pub fn from_call_stack(stack: &CallStackInfo) -> (r: Thread)
        requires
            stack_ok(*stack),
        ensures
            thread_matches(r, *stack),
    {
        let n = stack.frames.len();
        let mut frames: Vec<Frame> = Vec::new();
        for i in 0..n
            invariant
                n == stack.frames.len(),
                stack_ok(*stack),
                frames.len() == i,
                forall|t: int| 0 <= t < i ==> frame_matches(#[trigger] frames[t], stack.frames[t]),
        {
            frames.push(Frame::from_stack_frame(&stack.frames[i]));
        }
        Thread { id: stack.thread_id, frames }
    }
}

impl Event {
    /// Converts a whole stack-walk result, stack by stack, in order.
    pub fn from_stacks(stacks: &Vec<CallStackInfo>) -> (r: Event)
        requires
            forall|t: int| 0 <= t < stacks.len() ==> stack_ok(#[trigger] stacks[t]),
        ensures
            r.threads.len() == stacks.len(),
            forall|t: int|
                0 <= t < stacks.len() ==> thread_matches(#[trigger] r.threads[t], stacks[t]),
    {
        let n = stacks.len();
        let mut threads: Vec<Thread> = Vec::new();
        for t in 0..n
            invariant
                n == stacks.len(),
                forall|s: int| 0 <= s < n ==> stack_ok(#[trigger] stacks[s]),
                threads.len() == t,
                forall|s: int| 0 <= s < t ==> thread_matches(#[trigger] threads[s], stacks[s]),
        {
            threads.push(Thread::from_call_stack(&stacks[t]));
        }
        Event { threads }
    }
}

} // verus!
