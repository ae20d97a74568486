//! Numbers that the Windows debugger engine gives to its events, classes and states, under
//! the names of `dbgeng.h`.

use vstd::prelude::*;

verus! {

pub const DEBUG_SESSION_ACTIVE: u32 = 0;
pub const DEBUG_SESSION_END_SESSION_ACTIVE_TERMINATE: u32 = 1;
pub const DEBUG_SESSION_END_SESSION_ACTIVE_DETACH: u32 = 2;
pub const DEBUG_SESSION_END_SESSION_PASSIVE: u32 = 3;
pub const DEBUG_SESSION_END: u32 = 4;
pub const DEBUG_SESSION_REBOOT: u32 = 5;
pub const DEBUG_SESSION_HIBERNATE: u32 = 6;
pub const DEBUG_SESSION_FAILURE: u32 = 7;

pub const DEBUG_CES_CURRENT_THREAD: u32 = 0x1;
pub const DEBUG_CES_EXECUTION_STATUS: u32 = 0x10;
pub const DEBUG_CES_SYSTEMS: u32 = 0x800;

pub const DEBUG_STATUS_BREAK: u32 = 6;
pub const DEBUG_STATUS_MASK: u32 = 0x1f;

pub const DEBUG_EVENT_CREATE_PROCESS: u32 = 0x10;
pub const DEBUG_EVENT_EXIT_PROCESS: u32 = 0x20;
pub const DEBUG_EVENT_SESSION_STATUS: u32 = 0x200;
pub const DEBUG_EVENT_CHANGE_ENGINE_STATE: u32 = 0x800;

pub const DEBUG_CLASS_KERNEL: u32 = 1;
pub const DEBUG_CLASS_USER_WINDOWS: u32 = 2;
pub const DEBUG_CLASS_IMAGE_FILE: u32 = 3;

pub const DEBUG_USER_WINDOWS_SMALL_DUMP: u32 = 1024;
pub const DEBUG_USER_WINDOWS_DUMP: u32 = 1025;
pub const DEBUG_USER_WINDOWS_DUMP_WINDOWS_CE: u32 = 1029;

pub const DEBUG_DUMP_FILE_BASE: u32 = 0xffff_ffff;

pub const DEBUG_NOTIFY_SESSION_ACTIVE: u32 = 0;
pub const DEBUG_NOTIFY_SESSION_INACTIVE: u32 = 1;
pub const DEBUG_NOTIFY_SESSION_ACCESSIBLE: u32 = 2;
pub const DEBUG_NOTIFY_SESSION_INACCESSIBLE: u32 = 3;

pub const DEBUG_OUTPUT_NORMAL: u32 = 1;
pub const DEBUG_OUTPUT_ERROR: u32 = 2;

/// The numbers that `dbgeng.h` gives to these names.
pub proof fn the_numbers_are_those_of_the_engine()
    ensures
        DEBUG_SESSION_ACTIVE == 0,
        DEBUG_SESSION_END_SESSION_ACTIVE_TERMINATE == 1,
        DEBUG_SESSION_END_SESSION_ACTIVE_DETACH == 2,
        DEBUG_SESSION_END_SESSION_PASSIVE == 3,
        DEBUG_SESSION_END == 4,
        DEBUG_SESSION_REBOOT == 5,
        DEBUG_SESSION_HIBERNATE == 6,
        DEBUG_SESSION_FAILURE == 7,
        DEBUG_CES_CURRENT_THREAD == 1,
        DEBUG_CES_EXECUTION_STATUS == 16,
        DEBUG_CES_SYSTEMS == 2048,
        DEBUG_STATUS_BREAK == 6,
        DEBUG_STATUS_MASK == 31,
        DEBUG_EVENT_CREATE_PROCESS == 16,
        DEBUG_EVENT_EXIT_PROCESS == 32,
        DEBUG_EVENT_SESSION_STATUS == 512,
        DEBUG_EVENT_CHANGE_ENGINE_STATE == 2048,
        DEBUG_CLASS_KERNEL == 1,
        DEBUG_CLASS_USER_WINDOWS == 2,
        DEBUG_CLASS_IMAGE_FILE == 3,
        DEBUG_USER_WINDOWS_SMALL_DUMP == 1024,
        DEBUG_USER_WINDOWS_DUMP == 1025,
        DEBUG_USER_WINDOWS_DUMP_WINDOWS_CE == 1029,
        DEBUG_DUMP_FILE_BASE == 0xffff_ffff,
        DEBUG_NOTIFY_SESSION_ACTIVE == 0,
        DEBUG_NOTIFY_SESSION_INACTIVE == 1,
        DEBUG_NOTIFY_SESSION_ACCESSIBLE == 2,
        DEBUG_NOTIFY_SESSION_INACCESSIBLE == 3,
        DEBUG_OUTPUT_NORMAL == 1,
        DEBUG_OUTPUT_ERROR == 2,
{
}

} // verus!
