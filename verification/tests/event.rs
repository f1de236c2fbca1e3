use minidump::CallStackInfo;
use minidump::Event;
use minidump::Frame;
use minidump::ModuleInfo;
use minidump::StackFrameInfo;
use minidump::Thread;

fn frame(instruction: u64, base: u64, id: &str) -> StackFrameInfo {
    StackFrameInfo {
        instruction,
        module: Some(ModuleInfo {
            base_address: base,
            id: id.to_string(),
        }),
    }
}

#[test]
fn event_from_two_threads_of_three_frames() {
    let stacks = vec![
        CallStackInfo {
            thread_id: 1,
            frames: vec![
                frame(0x1000, 0x0400, "app"),
                frame(0x2010, 0x2000, "libc"),
                frame(0x3fff, 0x3000, "libm"),
            ],
        },
        CallStackInfo {
            thread_id: 2,
            frames: vec![
                frame(0x5005, 0x5000, "app"),
                frame(0x6001, 0x6000, "app"),
                frame(0x7abc, 0x7000, "libc"),
            ],
        },
    ];
    let event = Event::from_stacks(&stacks);
    assert_eq!(event.threads.len(), 2);
    for (thread, stack) in event.threads.iter().zip(stacks.iter()) {
        assert_eq!(thread.id, stack.thread_id);
        assert_eq!(thread.frames.len(), 3);
        for (converted, walked) in thread.frames.iter().zip(stack.frames.iter()) {
            let module = walked.module.as_ref().unwrap();
            assert_eq!(converted.offset, walked.instruction - module.base_address);
            assert_eq!(converted.module, module.id);
        }
    }
}

#[test]
fn frame_offset_is_relative_to_module_base() {
    let converted = Frame::from_stack_frame(&frame(0x4321, 0x4000, "app"));
    assert_eq!(converted.offset, 0x321);
    assert_eq!(converted.module, "app");
}

#[test]
fn thread_keeps_frame_order() {
    let stack = CallStackInfo {
        thread_id: 7,
        frames: vec![frame(0x10, 0x10, "a"), frame(0x30, 0x20, "b")],
    };
    let thread = Thread::from_call_stack(&stack);
    assert_eq!(thread.id, 7);
    assert_eq!(thread.frames[0].offset, 0);
    assert_eq!(thread.frames[0].module, "a");
    assert_eq!(thread.frames[1].offset, 0x10);
    assert_eq!(thread.frames[1].module, "b");
}

#[test]
fn event_from_no_stacks_is_empty() {
    let event = Event::from_stacks(&Vec::new());
    assert_eq!(event.threads.len(), 0);
}
